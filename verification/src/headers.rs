//! Reading the headers of a request as text.
use crate::trusted::web::{
    get_header, header_text, headers_held, is_visible, lowered, unreadable_text, visible_text,
};
use http::header::HeaderMap;
use vstd::prelude::*;

verus! {

/// The header that carries a caller's credentials.
pub const AUTHORIZATION: &'static str = "authorization";

/// A header, as far as it can be read.
pub enum HeaderRead<'a> {
    /// There is no header of the name.
    Absent,
    /// The header holds something other than visible ASCII; the reason in words.
    Unreadable(String),
    /// The text of the first header of the name.
    Text(&'a str),
}

/// What a `HeaderRead` holds.
pub enum HeaderReadView {
    Absent,
    Unreadable(Seq<char>),
    Text(Seq<char>),
}

impl<'a> View for HeaderRead<'a> {
    type V = HeaderReadView;

    open spec fn view(&self) -> HeaderReadView {
        match self {
            HeaderRead::Absent => HeaderReadView::Absent,
            HeaderRead::Unreadable(reason) => HeaderReadView::Unreadable(reason@),
            HeaderRead::Text(text) => HeaderReadView::Text(text@),
        }
    }
}

/// Whether all of the bytes are visible.
pub open spec fn all_visible(bytes: Seq<u8>) -> bool {
    forall|i: int| 0 <= i < bytes.len() ==> is_visible(#[trigger] bytes[i])
}

/// The first header of the given name, as far as it can be read.
pub open spec fn header_read(headers: HeaderMap, name: Seq<char>) -> HeaderReadView {
    if !headers_held(headers).contains_key(lowered(name)) {
        HeaderReadView::Absent
    } else {
        let bytes = headers_held(headers)[lowered(name)][0];
        if all_visible(bytes) {
            HeaderReadView::Text(visible_text(bytes))
        } else {
            HeaderReadView::Unreadable("failed to convert header to a str"@)
        }
    }
}

/// Reads the first header of the given name.
pub fn read_header<'a>(headers: &'a HeaderMap, name: &str) -> (res: HeaderRead<'a>)
    ensures
        res@ == header_read(*headers, name@),
{
    match get_header(headers, name) {
        None => HeaderRead::Absent,
        Some(value) => match header_text(value) {
            Ok(text) => HeaderRead::Text(text),
            Err(error) => HeaderRead::Unreadable(unreadable_text(&error)),
        },
    }
}

} // verus!
