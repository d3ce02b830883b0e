//! What a subprocess left on a stream, as text for the terminal.

use vstd::prelude::*;
use vstd::string::*;
use vstd::utf8::{decode_utf8, valid_utf8};

use crate::host::Fatal;

verus! {

/// The text that relays the captured `bytes`: their UTF-8 reading, followed
/// by a line break where `line_break` asks for one. No text for bytes that
/// are not UTF-8.
pub open spec fn relay_of(bytes: Seq<u8>, line_break: bool) -> Option<Seq<char>> {
    if !valid_utf8(bytes) {
        None
    } else if line_break {
        Some(decode_utf8(bytes).push('\n'))
    } else {
        Some(decode_utf8(bytes))
    }
}

/// `String::from_utf8` of the standard library, which is not verified here.
/// The contract takes its documentation at its word: the bytes become a
/// string exactly when they are well-formed UTF-8, and the string then holds
/// the characters that they encode.
#[verifier::external_body]
fn decode(bytes: Vec<u8>) -> (text: Option<String>)
    ensures
        text is Some <==> valid_utf8(bytes@),
        text matches Some(s) ==> s@ == decode_utf8(bytes@),
{
    match String::from_utf8(bytes) {
        Ok(text) => Some(text),
        Err(_) => None,
    }
}

/// Turns captured `bytes` into the text to write, with a line break after it
/// where `line_break` is set. Bytes that are not UTF-8 are fatal.
pub fn relay_text(bytes: Vec<u8>, line_break: bool) -> (r: Result<String, Fatal>)
    ensures
        match r {
            Ok(text) => relay_of(bytes@, line_break) == Some(text@),
            Err(fatal) => fatal == Fatal::InvalidUtf8 && relay_of(bytes@, line_break) is None,
        },
{
    match decode(bytes) {
        Some(mut text) => {
            if line_break {
                proof {
                    reveal_strlit("\n");
                }
                let ghost before = text@;
                text.append("\n");
                assert(text@ =~= before.push('\n'));
            }
            Ok(text)
        },
        None => Err(Fatal::InvalidUtf8),
    }
}

} // verus!
