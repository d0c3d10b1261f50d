//! What the key-value client reads out of a response.
use vstd::prelude::*;
use vstd::utf8::{decode_utf8, valid_utf8};

use super::pb::Response;

verus! {

/// Calls `String::from_utf8`: the text that `bytes` encode when they are
/// valid UTF-8, else nothing.
#[verifier::external_body]
fn string_from_utf8(bytes: Vec<u8>) -> (r: Option<String>)
    ensures
        r is Some <==> valid_utf8(bytes@),
        r matches Some(s) ==> s@ == decode_utf8(bytes@),
{
    String::from_utf8(bytes).ok()
}

/// The value of `response` as text: present exactly when the value is
/// valid UTF-8.
pub fn reply_text(response: Response) -> (r: Option<String>)
    ensures
        r is Some <==> valid_utf8(response.value@),
        r matches Some(s) ==> s@ == decode_utf8(response.value@),
{
    string_from_utf8(response.value)
}

} // verus!
