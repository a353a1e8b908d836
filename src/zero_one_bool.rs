use vstd::prelude::*;

use crate::error::{ParseError, ParseFailure};
use crate::text::same_text;

verus! {

/// The text of a difficulty flag: `"1"` for true, `"0"` for false.
pub open spec fn flag_text(b: bool) -> Seq<char> {
    if b {
        "1"@
    } else {
        "0"@
    }
}

/// The flag that a text encodes: only `"1"` and `"0"` encode one.
pub open spec fn flag_of(s: Seq<char>) -> Option<bool> {
    if s == "1"@ {
        Some(true)
    } else if s == "0"@ {
        Some(false)
    } else {
        None
    }
}

/// Decoding the text of a flag gives that flag back.
pub proof fn lemma_flag_decode_encode(b: bool)
    ensures
        flag_of(flag_text(b)) == Some(b),
{
    reveal_strlit("1");
    reveal_strlit("0");
    assert("1"@[0] != "0"@[0]);
}

/// Every text that encodes a flag is that flag's text.
pub proof fn lemma_flag_encode_decode(s: Seq<char>)
    requires
        flag_of(s) is Some,
    ensures
        flag_text(flag_of(s)->0) == s,
{
}

/// Encodes a difficulty flag.
pub fn serialize(value: bool) -> (r: &'static str)
    ensures
        r@ == flag_text(value),
{
    if value {
        "1"
    } else {
        "0"
    }
}

/// Decodes a difficulty flag; any text but `"0"` and `"1"` is an error that
/// names it.
pub fn deserialize(text: &str) -> (r: Result<bool, ParseError>)
    ensures
        match r {
            Ok(b) => flag_of(text@) == Some(b),
            Err(e) => flag_of(text@) is None && e@ == (ParseFailure::MalformedFlag { token: text@ }),
        },
{
    if same_text(text, "1") {
        Ok(true)
    } else if same_text(text, "0") {
        Ok(false)
    } else {
        Err(ParseError::MalformedFlag { token: text.to_owned() })
    }
}

} // verus!
