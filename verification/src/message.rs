//! The texts that the tool writes on its own account.

use vstd::prelude::*;
use vstd::string::*;

use crate::decimal::{decimal, render_u64};

verus! {

/// The help text: the commands, one per line.
pub const HELP_TEXT: &'static str =
    "Use: narma [command]\nCommands:\n  cache [nargo command]           Cache ACIR from output of nargo\n  diff [timestamp1] [timestamp2]  Check difference between ACIR's\n  list                            List all available ACIR's\n  clean                           Clean available cache\n  help                            Show help\n";

/// What `list` and `clean` say where there is no cache directory.
pub const MISSING_DIRECTORY_TEXT: &'static str = "Cache directory not found.\n";

/// What `diff` says of a stamp without an artifact: the stamp in its shortest
/// decimal writing, whatever the token it was read from looked like.
pub open spec fn missing_artifact_text_of(stamp: u64) -> Seq<char> {
    "Error: ACIR file for timestamp "@ + decimal(stamp as nat) + " not found.\n"@
}

/// The help text as an owned string.
pub fn help_text() -> (text: String)
    ensures
        text@ == HELP_TEXT@,
{
    String::from_str(HELP_TEXT)
}

/// The complaint about a missing cache directory as an owned string.
pub fn missing_directory_text() -> (text: String)
    ensures
        text@ == MISSING_DIRECTORY_TEXT@,
{
    String::from_str(MISSING_DIRECTORY_TEXT)
}

/// The complaint about the missing artifact of `stamp`.
pub fn missing_artifact_text(stamp: u64) -> (text: String)
    ensures
        text@ == missing_artifact_text_of(stamp),
{
    let mut text = String::from_str("Error: ACIR file for timestamp ");
    let digits = render_u64(stamp);
    text.append(digits.as_str());
    text.append(" not found.\n");
    text
}

} // verus!
