//! Headers and addresses, from the `http` crate.
use http::header::{HeaderMap, HeaderValue, InvalidHeaderValue, ToStrError};
use vstd::prelude::*;
use vstd::utf8::encode_utf8;

verus! {

/// The headers of a request.
#[verifier::external_type_specification]
#[verifier::external_body]
#[verifier::reject_recursive_types(T)]
pub struct ExHeaderMap<T>(http::header::HeaderMap<T>);

/// The value of a header.
#[verifier::external_type_specification]
#[verifier::external_body]
pub struct ExHeaderValue(http::header::HeaderValue);

/// Why `HeaderValue::to_str` gave no text.
#[verifier::external_type_specification]
#[verifier::external_body]
pub struct ExToStrError(http::header::ToStrError);

/// Why `HeaderValue::from_str` made no value.
#[verifier::external_type_specification]
#[verifier::external_body]
pub struct ExInvalidHeaderValue(http::header::InvalidHeaderValue);

/// What a header map holds: under each name, which is in lower case, the bytes of the values of
/// that name, in the order in which they were added. A name without a value is not held.
pub uninterp spec fn headers_held(headers: HeaderMap) -> Map<Seq<char>, Seq<Seq<u8>>>;

/// The bytes that a header value holds.
pub uninterp spec fn value_bytes(value: HeaderValue) -> Seq<u8>;

/// The character in lower case, where it is an ASCII letter.
pub open spec fn lower(c: char) -> char {
    if 'A' <= c <= 'Z' {
        (c as u32 + 32) as char
    } else {
        c
    }
}

/// The name with its ASCII letters in lower case.
pub open spec fn lowered(name: Seq<char>) -> Seq<char> {
    name.map_values(|c: char| lower(c))
}

/// Whether a byte may stand in a header value that is read as text.
pub open spec fn is_visible(b: u8) -> bool {
    32 <= b < 127 || b == 9
}

/// Whether a byte may stand in a header value.
pub open spec fn is_header_byte(b: u8) -> bool {
    b >= 32 && b != 127 || b == 9
}

/// The text of visible bytes.
pub open spec fn visible_text(bytes: Seq<u8>) -> Seq<char> {
    bytes.map_values(|b: u8| b as char)
}

/// `HeaderMap::get` finds the first value of the given name, whatever the case of its letters.
/// A name that no header can have is not found.
#[verifier::external_body]
pub(crate) fn get_header<'a>(headers: &'a HeaderMap, name: &str) -> (res: Option<&'a HeaderValue>)
    ensures
        match res {
            Some(value) => {
                &&& headers_held(*headers).contains_key(lowered(name@))
                &&& headers_held(*headers)[lowered(name@)].len() > 0
                &&& value_bytes(*value) == headers_held(*headers)[lowered(name@)][0]
            },
            None => !headers_held(*headers).contains_key(lowered(name@)),
        },
{
    headers.get(name)
}

/// `HeaderValue::to_str` gives the value as text where all of its bytes are visible.
#[verifier::external_body]
pub(crate) fn header_text(value: &HeaderValue) -> (res: Result<&str, ToStrError>)
    ensures
        match res {
            Ok(text) => {
                &&& forall|i: int|
                    0 <= i < value_bytes(*value).len() ==> is_visible(
                        #[trigger] value_bytes(*value)[i],
                    )
                &&& text@ == visible_text(value_bytes(*value))
            },
            Err(_) => exists|i: int|
                0 <= i < value_bytes(*value).len() && !is_visible(
                    #[trigger] value_bytes(*value)[i],
                ),
        },
{
    value.to_str()
}

/// `ToStrError` says in words what it always says.
#[verifier::external_body]
pub(crate) fn unreadable_text(error: &ToStrError) -> (res: String)
    ensures
        res@ == "failed to convert header to a str"@,
{
    error.to_string()
}

/// `HeaderValue::from_str` makes a value of the text's bytes where all of them may stand in
/// one.
#[verifier::external_body]
pub(crate) fn header_from_text(text: &str) -> (res: Result<HeaderValue, InvalidHeaderValue>)
    ensures
        match res {
            Ok(value) => {
                &&& forall|i: int|
                    0 <= i < encode_utf8(text@).len() ==> is_header_byte(
                        #[trigger] encode_utf8(text@)[i],
                    )
                &&& value_bytes(value) == encode_utf8(text@)
            },
            Err(_) => exists|i: int|
                0 <= i < encode_utf8(text@).len() && !is_header_byte(
                    #[trigger] encode_utf8(text@)[i],
                ),
        },
{
    HeaderValue::from_str(text)
}

/// An address that a request is for.
#[verifier::external_type_specification]
#[verifier::external_body]
pub struct ExUri(http::Uri);

/// The address that `http::Uri` reads in a text, or why there is none, in words.
pub uninterp spec fn read_uri(text: Seq<char>) -> Result<http::Uri, Seq<char>>;

/// `http::Uri`'s `parse` reads an address. What it reads, or says of a text that is none,
/// depends on the text alone.
#[verifier::external_body]
pub(crate) fn parse_uri(text: &str) -> (res: Result<http::Uri, String>)
    ensures
        match res {
            Ok(uri) => read_uri(text@) == Ok::<http::Uri, Seq<char>>(uri),
            Err(words) => read_uri(text@) == Err::<http::Uri, Seq<char>>(words@),
        },
{
    text.parse().map_err(|error: http::uri::InvalidUri| error.to_string())
}

} // verus!
