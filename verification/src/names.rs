//! The names that libutp gives its error and state numbers.
use vstd::prelude::*;

verus! {

/// `core::str::from_utf8`: the bytes as text, if and only if they are valid UTF-8.
#[verifier::external_body]
fn utf8_text(bytes: &[u8]) -> (text: Option<&str>)
    ensures
        text is Some <==> vstd::utf8::valid_utf8(bytes@),
        text matches Some(t) ==> t@ == vstd::utf8::decode_utf8(bytes@),
{
    core::str::from_utf8(bytes).ok()
}

/// The text of a name, given its bytes without the final zero.
pub fn get_name(name: &[u8]) -> (text: &str)
    ensures
        text@ == if vstd::utf8::valid_utf8(name@) {
            vstd::utf8::decode_utf8(name@)
        } else {
            "<INVALID UTF-8>"@
        },
{
    match utf8_text(name) {
        Some(text) => text,
        None => "<INVALID UTF-8>",
    }
}

} // verus!
