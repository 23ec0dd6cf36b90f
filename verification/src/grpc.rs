//! Errors as gRPC replies: their status, and their message in percent-encoding.
use crate::application::{State, StatusCode};
use crate::error::{Error, ErrorView};
use crate::trusted::web::{
    header_from_text, is_header_byte, is_visible, value_bytes, visible_text,
};
use http::header::HeaderValue;
use vstd::prelude::*;
use vstd::utf8::{encode_utf8, is_ascii_chars, is_ascii_chars_encode_utf8};

verus! {

/// The upper-case hexadecimal digit of `d`.
pub open spec fn hex_digit(d: u8) -> char {
    if d < 10 {
        (48 + d) as char
    } else {
        (55 + d) as char
    }
}

/// A byte in percent-encoding: a printable character other than the percent sign stands for
/// itself, and any other byte is a percent sign and two hexadecimal digits.
pub open spec fn encoded_byte(b: u8) -> Seq<char> {
    if 32 <= b <= 126 && b != 37 {
        seq![b as char]
    } else {
        seq!['%', hex_digit(b / 16), hex_digit(b % 16)]
    }
}

/// The bytes in percent-encoding.
pub open spec fn percent_encoded(bytes: Seq<u8>) -> Seq<char>
    decreases bytes.len(),
{
    if bytes.len() == 0 {
        seq![]
    } else {
        encoded_byte(bytes[0]) + percent_encoded(bytes.drop_first())
    }
}

/// The value of an upper-case hexadecimal digit.
pub open spec fn hex_value(c: char) -> int {
    if c as u32 <= 57 {
        c as u32 - 48
    } else {
        c as u32 - 55
    }
}

/// The bytes that a text in percent-encoding stands for.
pub open spec fn percent_decoded(text: Seq<char>) -> Seq<u8>
    decreases text.len(),
{
    if text.len() == 0 {
        seq![]
    } else if text[0] == '%' && text.len() >= 3 {
        seq![(16 * hex_value(text[1]) + hex_value(text[2])) as u8] + percent_decoded(text.skip(3))
    } else {
        seq![text[0] as u8] + percent_decoded(text.drop_first())
    }
}

/// Whether every character is printable ASCII.
pub open spec fn is_printable(text: Seq<char>) -> bool {
    forall|i: int| 0 <= i < text.len() ==> ' ' <= #[trigger] text[i] <= '~'
}

/// A message in percent-encoding can be read back.
pub proof fn law_percent_encoding_reads_back(bytes: Seq<u8>)
    ensures
        percent_decoded(percent_encoded(bytes)) == bytes,
    decreases bytes.len(),
{
    if bytes.len() > 0 {
        let b = bytes[0];
        let head = encoded_byte(b);
        let rest = percent_encoded(bytes.drop_first());
        let all = head + rest;
        law_percent_encoding_reads_back(bytes.drop_first());
        assert(seq![b] + bytes.drop_first() =~= bytes);
        if 32 <= b <= 126 && b != 37 {
            assert(all.drop_first() =~= rest);
            assert(all[0] != '%');
            assert(all[0] as u8 == b);
        } else {
            assert(all.skip(3) =~= rest);
            assert(b == 16 * (b / 16) + b % 16);
            assert(hex_value(hex_digit(b / 16)) == b / 16);
            assert(hex_value(hex_digit(b % 16)) == b % 16);
        }
    }
}

/// A message in percent-encoding is printable ASCII, whatever its bytes are.
pub proof fn law_percent_encoding_is_printable(bytes: Seq<u8>)
    ensures
        is_printable(percent_encoded(bytes)),
    decreases bytes.len(),
{
    if bytes.len() > 0 {
        law_percent_encoding_is_printable(bytes.drop_first());
        assert(is_printable(encoded_byte(bytes[0])));
    }
}

fn hex_char(d: u8) -> (res: char)
    requires
        d < 16,
    ensures
        res == hex_digit(d),
{
    if d < 10 {
        (48 + d) as char
    } else {
        (55 + d) as char
    }
}

/// The message in percent-encoding, byte by byte.
pub fn percent_encode_grpc_message(message: &str) -> (res: String)
    ensures
        res@ == percent_encoded(encode_utf8(message@)),
{
    let bytes = message.as_bytes();
    let mut encoded = String::new();
    let mut i: usize = 0;
    assert(bytes@.skip(0) =~= bytes@);
    assert(encoded@ + percent_encoded(bytes@) =~= percent_encoded(bytes@));
    while i < bytes.len()
        invariant
            i <= bytes.len(),
            percent_encoded(bytes@) == encoded@ + percent_encoded(bytes@.skip(i as int)),
        decreases bytes.len() - i,
    {
        let byte: u8 = bytes[i];
        let ghost before = encoded@;
        let ghost rest = bytes@.skip(i as int);
        if 32 <= byte && byte <= 126 && byte != 37 {
            encoded.push(byte as char);
        } else {
            encoded.push('%');
            encoded.push(hex_char(byte / 16));
            encoded.push(hex_char(byte % 16));
        }
        assert(encoded@ =~= before + encoded_byte(byte));
        assert(rest.drop_first() =~= bytes@.skip(i + 1));
        assert(before + (encoded_byte(byte) + percent_encoded(bytes@.skip(i + 1))) =~= encoded@
            + percent_encoded(bytes@.skip(i + 1)));
        i += 1;
    }
    assert(bytes@.skip(i as int) =~= Seq::<u8>::empty());
    assert(encoded@ + Seq::<char>::empty() =~= encoded@);
    encoded
}

/// The gRPC status of an error: 16 where the caller is not authenticated, 5 where there is no
/// such application, 14 where the application cannot be reached for now, 9 where it is over,
/// and 13 where the server is at fault.
pub open spec fn grpc_status(error: ErrorView) -> Seq<char> {
    match error {
        ErrorView::MissingAuthorizationHeader => "16"@,
        ErrorView::InvalidAuthorizationHeader(_) => "16"@,
        ErrorView::InvalidAuthorizationScheme => "16"@,
        ErrorView::InvalidAuthorizationToken => "16"@,
        ErrorView::ApplicationNotFound => "5"@,
        ErrorView::MissingApplicationAddress => "14"@,
        ErrorView::InvalidApplicationState(state) => if state == State::LAUNCHING {
            "14"@
        } else {
            "9"@
        },
        ErrorView::Database(_) => "13"@,
        ErrorView::UpstreamConnect(_) => "14"@,
        ErrorView::UpstreamHandshake(_) => "14"@,
        ErrorView::InvalidUpstreamUri(_) => "13"@,
        ErrorView::UpstreamRequest(_) => "14"@,
        ErrorView::Authorization(_) => "16"@,
        ErrorView::Internal(_) => "13"@,
    }
}

fn grpc_status_text(error: &Error) -> (res: &'static str)
    ensures
        res@ == grpc_status(error@),
{
    match error {
        Error::MissingAuthorizationHeader => "16",
        Error::InvalidAuthorizationHeader(_) => "16",
        Error::InvalidAuthorizationScheme => "16",
        Error::InvalidAuthorizationToken => "16",
        Error::ApplicationNotFound => "5",
        Error::MissingApplicationAddress => "14",
        Error::InvalidApplicationState(State::LAUNCHING) => "14",
        Error::InvalidApplicationState(_) => "9",
        Error::Database(_) => "13",
        Error::UpstreamConnect(_) => "14",
        Error::UpstreamHandshake(_) => "14",
        Error::InvalidUpstreamUri(_) => "13",
        Error::UpstreamRequest(_) => "14",
        Error::Authorization(_) => "16",
        Error::Internal(_) => "13",
    }
}

/// A reply without a body that carries its outcome in the headers `grpc-status` and
/// `grpc-message`.
pub struct GrpcReply {
    pub status: StatusCode,
    pub content_type: &'static str,
    pub grpc_status: &'static str,
    pub grpc_message: HeaderValue,
}

/// The bytes of printable text are its characters, and each may stand in a header.
proof fn lemma_printable_bytes(text: Seq<char>)
    requires
        is_printable(text),
    ensures
        encode_utf8(text).len() == text.len(),
        forall|i: int|
            0 <= i < text.len() ==> is_header_byte(#[trigger] encode_utf8(text)[i]) && is_visible(
                encode_utf8(text)[i],
            ),
        visible_text(encode_utf8(text)) == text,
{
    assert(is_ascii_chars(text));
    is_ascii_chars_encode_utf8(text);
    let bytes = encode_utf8(text);
    assert forall|i: int| 0 <= i < text.len() implies is_header_byte(#[trigger] bytes[i])
        && is_visible(bytes[i]) && bytes[i] as char == text[i] by {
        assert(text[i] as u8 == bytes[i]);
        assert(' ' <= text[i] <= '~');
    }
    assert(visible_text(bytes) =~= text);
}

/// The reply to a request that failed: it is well formed as far as HTTP goes, and says what
/// went wrong in its gRPC headers.
pub fn proxy_error_response(error: Error) -> (res: GrpcReply)
    ensures
        res.status == StatusCode::Success,
        res.content_type@ == "application/grpc"@,
        res.grpc_status@ == grpc_status(error@),
        value_bytes(res.grpc_message) == encode_utf8(
            percent_encoded(encode_utf8(error@.message())),
        ),
{
    let message = percent_encode_grpc_message(error.message().as_str());
    proof {
        law_percent_encoding_is_printable(encode_utf8(error@.message()));
        lemma_printable_bytes(message@);
    }
    let grpc_message = header_from_text(message.as_str()).unwrap();
    GrpcReply {
        status: StatusCode::Success,
        content_type: "application/grpc",
        grpc_status: grpc_status_text(&error),
        grpc_message,
    }
}

/// The message of a failed request reaches the caller unchanged: decoding the bytes of the
/// reply's message gives the error in words.
pub proof fn law_error_message_reads_back(error: ErrorView)
    ensures
        ({
            let sent = encode_utf8(percent_encoded(encode_utf8(error.message())));
            percent_decoded(visible_text(sent)) == encode_utf8(error.message())
        }),
{
    let bytes = encode_utf8(error.message());
    law_percent_encoding_is_printable(bytes);
    lemma_printable_bytes(percent_encoded(bytes));
    law_percent_encoding_reads_back(bytes);
}

} // verus!
