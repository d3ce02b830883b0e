//! The command line: which command the user asked for.

use vstd::prelude::*;
use vstd::string::*;

use crate::host::{Action, ActionView};
use crate::message::{help_text, HELP_TEXT};

verus! {

/// What the user asked for.
#[derive(Debug, PartialEq, Eq)]
pub enum Command {
    /// Show the help text. Also what an unknown command word comes to, and
    /// no command word at all.
    Help,
    /// Run the compiler on `arguments` and cache what it prints.
    Cache { arguments: Vec<String> },
    /// Compare cached artifacts; `tokens` name them.
    Diff { tokens: Vec<String> },
    /// List the cached artifacts.
    List,
    /// Empty the cache.
    Clean,
}

/// A [`Command`] as contracts see it.
pub enum CommandView {
    Help,
    Cache { arguments: Seq<Seq<char>> },
    Diff { tokens: Seq<Seq<char>> },
    List,
    Clean,
}

impl View for Command {
    type V = CommandView;

    open spec fn view(&self) -> CommandView {
        match *self {
            Command::Help => CommandView::Help,
            Command::Cache { arguments } => CommandView::Cache {
                arguments: arguments.deep_view(),
            },
            Command::Diff { tokens } => CommandView::Diff { tokens: tokens.deep_view() },
            Command::List => CommandView::List,
            Command::Clean => CommandView::Clean,
        }
    }
}

/// The command that the process arguments `line` ask for. The first of them
/// is the program's own name and the second the command word, one of
/// `cache`, `diff`, `list` and `clean`, written exactly so; what follows the
/// word belongs to `cache` and `diff` and is ignored by the others.
pub open spec fn command_of(line: Seq<Seq<char>>) -> CommandView {
    if line.len() < 2 {
        CommandView::Help
    } else if line[1] == "cache"@ {
        CommandView::Cache { arguments: line.skip(2) }
    } else if line[1] == "diff"@ {
        CommandView::Diff { tokens: line.skip(2) }
    } else if line[1] == "list"@ {
        CommandView::List
    } else if line[1] == "clean"@ {
        CommandView::Clean
    } else {
        CommandView::Help
    }
}

/// Whether `text` is the word `word`.
fn is_word(text: &String, word: &str) -> (same: bool)
    ensures
        same == (text@ == word@),
{
    let word = String::from_str(word);
    *text == word
}

/// Reads the process arguments `line`.
pub fn parse_command(line: Vec<String>) -> (command: Command)
    ensures
        command@ == command_of(line.deep_view()),
{
    let ghost given = line.deep_view();
    let mut line = line;
    if line.len() < 2 {
        return Command::Help;
    }
    assert(given[1] == line@[1]@);
    let cache = is_word(&line[1], "cache");
    let diff = is_word(&line[1], "diff");
    let list = is_word(&line[1], "list");
    let clean = is_word(&line[1], "clean");
    if cache || diff {
        let rest = line.split_off(2);
        assert(rest.deep_view() =~= given.skip(2));
        if cache {
            Command::Cache { arguments: rest }
        } else {
            Command::Diff { tokens: rest }
        }
    } else if list {
        Command::List
    } else if clean {
        Command::Clean
    } else {
        Command::Help
    }
}

/// What the `Help` command does: the help text goes to the error stream,
/// all of it, and nothing else happens.
pub open spec fn help_of() -> ActionView {
    ActionView::Report { text: HELP_TEXT@ }
}

/// The one action of the `Help` command.
pub fn help() -> (action: Action)
    ensures
        action@ == help_of(),
{
    Action::Report { text: help_text() }
}

} // verus!
