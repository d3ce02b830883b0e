//! Artifact files: where they live and how they are named.
//!
//! An artifact lives in the cache directory under the decimal writing of the
//! second it was captured in, followed by `.acir`. That name is all the tool
//! knows of an artifact: its identity and its place in time.

use vstd::prelude::*;
use vstd::string::*;

use crate::decimal::{
    decimal, is_digit, lemma_decimal_digits, magnitude, parse_signed, parse_unsigned, render_u64,
    sign_len,
};

verus! {

/// The cache directory, relative to where the tool runs.
pub const CACHE_DIR: &'static str = "./.narma-cache";

/// The path of the entry `name` of the cache directory.
pub open spec fn cache_path_of(name: Seq<char>) -> Seq<char> {
    CACHE_DIR@ + seq!['/'] + name
}

/// The path of the cache directory as an owned string.
pub fn cache_dir() -> (path: String)
    ensures
        path@ == CACHE_DIR@,
{
    String::from_str(CACHE_DIR)
}

/// The path of the entry `name` of the cache directory.
pub fn cache_path(name: &str) -> (path: String)
    ensures
        path@ == cache_path_of(name@),
{
    let mut path = String::from_str(CACHE_DIR);
    proof {
        reveal_strlit("/");
    }
    path.append("/");
    path.append(name);
    assert(path@ =~= cache_path_of(name@));
    path
}

/// The extension that marks a file of the cache directory as an artifact.
pub open spec fn artifact_suffix() -> Seq<char> {
    seq!['.', 'a', 'c', 'i', 'r']
}

/// The file name of the artifact captured at `stamp`.
pub open spec fn artifact_name_of(stamp: u64) -> Seq<char> {
    decimal(stamp as nat) + artifact_suffix()
}

/// Whether `name` ends with the artifact extension.
pub open spec fn is_artifact_name(name: Seq<char>) -> bool {
    name.len() >= 5 && name.skip(name.len() - 5) == artifact_suffix()
}

/// What stands before the extension of an artifact name.
pub open spec fn artifact_stem(name: Seq<char>) -> Seq<char>
    recommends
        is_artifact_name(name),
{
    name.take(name.len() - 5)
}

/// The file name under which the artifact captured at `stamp` is stored.
pub fn artifact_name(stamp: u64) -> (name: String)
    ensures
        name@ == artifact_name_of(stamp),
{
    let mut name = render_u64(stamp);
    proof {
        reveal_strlit(".acir");
    }
    name.append(".acir");
    assert(name@ =~= artifact_name_of(stamp));
    name
}

/// Splits the extension off an artifact name. `None` for any other name.
pub fn split_artifact_name(name: &str) -> (stem: Option<&str>)
    ensures
        stem is Some <==> is_artifact_name(name@),
        stem matches Some(text) ==> text@ == artifact_stem(name@),
{
    let len = name.unicode_len();
    if len < 5 {
        return None;
    }
    let cut = len - 5;
    let ends = name.get_char(cut) == '.' && name.get_char(cut + 1) == 'a' && name.get_char(cut + 2)
        == 'c' && name.get_char(cut + 3) == 'i' && name.get_char(cut + 4) == 'r';
    proof {
        let tail = name@.skip(cut as int);
        assert(tail.len() == 5);
        if ends {
            assert(tail =~= artifact_suffix());
        } else {
            assert(tail[0] == name@[cut as int]);
            assert(tail[1] == name@[cut + 1]);
            assert(tail[2] == name@[cut + 2]);
            assert(tail[3] == name@[cut + 3]);
            assert(tail[4] == name@[cut + 4]);
        }
    }
    if ends {
        let stem = name.substring_char(0, cut);
        assert(stem@ =~= artifact_stem(name@));
        Some(stem)
    } else {
        None
    }
}

/// An artifact stored at `stamp` is found again under that stamp: its name
/// carries the extension, and what stands before it reads back as `stamp`,
/// as an unsigned number always and as a signed one when it fits.
pub proof fn law_artifact_name_reads_back(stamp: u64)
    ensures
        is_artifact_name(artifact_name_of(stamp)),
        artifact_stem(artifact_name_of(stamp)) == decimal(stamp as nat),
        parse_unsigned(artifact_stem(artifact_name_of(stamp))) == Some(stamp),
        stamp <= i64::MAX ==> parse_signed(artifact_stem(artifact_name_of(stamp))) == Some(
            stamp as i64,
        ),
{
    let digits = decimal(stamp as nat);
    let name = artifact_name_of(stamp);
    lemma_decimal_digits(stamp as nat);
    assert(name.skip(name.len() - 5) =~= artifact_suffix());
    assert(name.take(name.len() - 5) =~= digits);
    assert(is_digit(digits[0]));
    assert(sign_len(digits, false) == 0);
    assert(sign_len(digits, true) == 0);
    assert(digits.skip(0) =~= digits);
    assert(magnitude(digits, false) == Some(stamp as nat));
    assert(magnitude(digits, true) == Some(stamp as nat));
}

/// Two stamps never share a file name.
pub proof fn law_artifact_names_differ(a: u64, b: u64)
    requires
        artifact_name_of(a) == artifact_name_of(b),
    ensures
        a == b,
{
    law_artifact_name_reads_back(a);
    law_artifact_name_reads_back(b);
}

} // verus!
