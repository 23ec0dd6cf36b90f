//! Decoding credentials, from the `base64` crate and the standard library.
use base64::prelude::{Engine, BASE64_STANDARD};
use vstd::prelude::*;
use vstd::utf8::{encode_utf8, valid_utf8};

verus! {

/// The bytes that the standard base64 engine reads in a text, if it is base64.
pub uninterp spec fn base64_bytes(text: Seq<char>) -> Option<Seq<u8>>;

/// `Engine::decode` of `BASE64_STANDARD`. What it reads depends on the text alone.
#[verifier::external_body]
pub(crate) fn decode_base64(text: &str) -> (res: Option<Vec<u8>>)
    ensures
        match (base64_bytes(text@), res) {
            (Some(bytes), Some(read)) => read@ == bytes,
            (None, None) => true,
            _ => false,
        },
{
    BASE64_STANDARD.decode(text).ok()
}

/// `String::from_utf8`: the text of the bytes, where they are UTF-8.
#[verifier::external_body]
pub(crate) fn text_of_bytes(bytes: Vec<u8>) -> (res: Option<String>)
    ensures
        match res {
            Some(text) => encode_utf8(text@) == bytes@,
            None => !valid_utf8(bytes@),
        },
{
    String::from_utf8(bytes).ok()
}

} // verus!
