//! Laws of headers, errors and gRPC replies.
use crate::application::{State, StatusCode};
use crate::error::Error;
use crate::grpc::{
    encoded_byte, percent_encode_grpc_message, percent_encoded, proxy_error_response, GrpcReply,
};
use crate::headers::{header_read, read_header, HeaderRead};
use crate::laws::table::written;
use crate::trusted::web::{headers_held, is_visible, lowered, value_bytes};
use http::header::HeaderMap;
use vstd::prelude::*;
use vstd::utf8::encode_utf8;

verus! {

/// The first header of a name is read as text, where all of its bytes are visible. The case of the
/// name does not matter.
pub proof fn law_headers_are_read(headers: &HeaderMap, name: &str, res: HeaderRead)
    requires
        call_ensures(read_header, (headers, name), res),
    ensures
        res@ == header_read(*headers, name@),
        ({
            let all = headers_held(*headers);
            let key = lowered(name@);
            match res {
                HeaderRead::Absent => !all.contains_key(key),
                HeaderRead::Text(text) => {
                    &&& all.contains_key(key)
                    &&& text@.len() == all[key][0].len()
                    &&& forall|i: int|
                        0 <= i < text@.len() ==> #[trigger] text@[i] == all[key][0][i] as char
                            && is_visible(all[key][0][i])
                },
                HeaderRead::Unreadable(_) => {
                    &&& all.contains_key(key)
                    &&& exists|i: int|
                        0 <= i < all[key][0].len() && !is_visible(#[trigger] all[key][0][i])
                },
            }
        }),
{
}

/// Printable text without a percent sign is sent as it is.
pub proof fn law_printable_text_is_sent_as_it_is(bytes: Seq<u8>)
    requires
        forall|i: int| 0 <= i < bytes.len() ==> 32 <= #[trigger] bytes[i] <= 126 && bytes[i] != 37,
    ensures
        percent_encoded(bytes).len() == bytes.len(),
        forall|i: int| 0 <= i < bytes.len() ==> percent_encoded(bytes)[i] == #[trigger] bytes[i] as char,
    decreases bytes.len(),
{
    if bytes.len() > 0 {
        let rest = bytes.drop_first();
        assert forall|i: int| 0 <= i < rest.len() implies 32 <= #[trigger] rest[i] <= 126
            && rest[i] != 37 by {
            assert(rest[i] == bytes[i + 1]);
        }
        law_printable_text_is_sent_as_it_is(rest);
        assert forall|i: int| 0 <= i < bytes.len() implies percent_encoded(bytes)[i]
            == #[trigger] bytes[i] as char by {
            if i > 0 {
                assert(percent_encoded(bytes)[i] == percent_encoded(rest)[i - 1]);
                assert(rest[i - 1] == bytes[i]);
            }
        }
    }
}

/// Any other byte is sent as a percent sign and its two upper-case hexadecimal digits, and bytes
/// are sent one after the other.
pub proof fn law_other_bytes_are_escaped(b: u8, rest: Seq<u8>)
    requires
        b < 32 || b > 126 || b == 37,
    ensures
        ({
            let digits = "0123456789ABCDEF"@;
            percent_encoded(seq![b] + rest) == seq!['%', digits[b as int / 16], digits[b as int % 16]]
                + percent_encoded(rest)
        }),
{
    reveal_strlit("0123456789ABCDEF");
    assert((seq![b] + rest).drop_first() =~= rest);
    let digits = "0123456789ABCDEF"@;
    assert(encoded_byte(b) =~= seq!['%', digits[b as int / 16], digits[b as int % 16]]);
}

/// Messages are encoded byte by byte, as UTF-8.
pub proof fn law_messages_are_encoded(message: &str, res: String)
    requires
        call_ensures(percent_encode_grpc_message, (message,), res),
    ensures
        res@ == percent_encoded(encode_utf8(message@)),
{
}

/// A failed request is answered by a gRPC reply. Its status says who is at fault: 16 where the
/// caller is not authenticated, 5 where there is no such application, 14 where it cannot be
/// reached for now, 9 where it is over or runs, 13 where the server fails. Its message is the
/// error in words.
pub proof fn law_failures_are_answered(error: Error, reply: GrpcReply, words: String)
    requires
        call_ensures(proxy_error_response, (error,), reply),
        call_ensures(Error::message, (&error,), words),
    ensures
        reply.status == StatusCode::Success,
        reply.content_type@ == "application/grpc"@,
        reply.grpc_status@ == (match error {
            Error::Authorization(_) => "16"@,
            Error::MissingAuthorizationHeader => "16"@,
            Error::InvalidAuthorizationHeader(_) => "16"@,
            Error::InvalidAuthorizationScheme => "16"@,
            Error::InvalidAuthorizationToken => "16"@,
            Error::ApplicationNotFound => "5"@,
            Error::MissingApplicationAddress => "14"@,
            Error::InvalidApplicationState(State::LAUNCHING) => "14"@,
            Error::InvalidApplicationState(_) => "9"@,
            Error::UpstreamConnect(_) => "14"@,
            Error::UpstreamHandshake(_) => "14"@,
            Error::UpstreamRequest(_) => "14"@,
            Error::Database(_) => "13"@,
            Error::InvalidUpstreamUri(_) => "13"@,
            Error::Internal(_) => "13"@,
        }),
        value_bytes(reply.grpc_message) == encode_utf8(percent_encoded(encode_utf8(words@))),
{
}

/// What errors say.
pub proof fn law_errors_in_words(error: Error, words: String)
    requires
        call_ensures(Error::message, (&error,), words),
    ensures
        words@ == (match error {
            Error::Authorization(reason) => "authorization error: "@ + reason@,
            Error::MissingAuthorizationHeader => "missing authorization header"@,
            Error::InvalidAuthorizationHeader(reason) => "invalid authorization header: "@
                + reason@,
            Error::InvalidAuthorizationScheme => "unsupported authorization scheme"@,
            Error::InvalidAuthorizationToken => "invalid authorization token"@,
            Error::ApplicationNotFound => "application not found for provided token"@,
            Error::MissingApplicationAddress => "application has no upstream address"@,
            Error::InvalidApplicationState(state) => "application is not ready for proxying: "@
                + written(state),
            Error::Database(reason) => "database error: "@ + reason@,
            Error::UpstreamConnect(reason) => "failed to connect to upstream: "@ + reason@,
            Error::UpstreamHandshake(reason) => "failed to establish upstream HTTP/2 session: "@
                + reason@,
            Error::InvalidUpstreamUri(reason) => "invalid upstream URI: "@ + reason@,
            Error::UpstreamRequest(reason) => "upstream request failed: "@ + reason@,
            Error::Internal(reason) => "internal error: "@ + reason@,
        }),
{
}

} // verus!
