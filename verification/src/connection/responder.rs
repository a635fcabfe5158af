//! Framing of HTTP responses: one header block, then the body.

use crate::text::decimal;
use crate::text::push_decimal;
use vstd::prelude::*;
use vstd::string::StringExecFns;
use vstd::string::StringSliceAdditionalSpecFns;
use vstd::utf8::encode_utf8;

verus! {

/// The header block of a response: status line, `Content-Length`, `Content-Type`
/// and `Connection: close`, each ended by CRLF, and the empty line that closes the block.
pub open spec fn header_text(status: Seq<char>, content_type: Seq<char>, length: nat) -> Seq<char> {
    "HTTP/1.1 "@ + status + "\r\nContent-Length: "@ + decimal(length) + "\r\nContent-Type: "@
        + content_type + "\r\nConnection: close\r\n\r\n"@
}

/// The bytes of a whole response: the header block in UTF-8, then the body unchanged.
pub open spec fn response_bytes(status: Seq<char>, content_type: Seq<char>, body: Seq<u8>) -> Seq<
    u8,
> {
    encode_utf8(header_text(status, content_type, body.len())) + body
}

/// The content type of the error pages.
pub open spec fn html_content_type() -> Seq<char> {
    "text/html; charset=utf-8"@
}

/// Builds the response with the given status (code and reason, as in `404 Not Found`),
/// content type and body. The declared length is the length of `body`.
pub fn respond(status: &str, content_type: &str, body: &[u8]) -> (out: Vec<u8>)
    ensures
        out@ == response_bytes(status@, content_type@, body@),
{
    let mut header = String::from_str("HTTP/1.1 ");
    header.append(status);
    header.append("\r\nContent-Length: ");
    push_decimal(&mut header, body.len());
    header.append("\r\nContent-Type: ");
    header.append(content_type);
    header.append("\r\nConnection: close\r\n\r\n");
    assert(header@ =~= header_text(status@, content_type@, body@.len()));
    let mut out: Vec<u8> = Vec::new();
    out.extend_from_slice(header.as_str().as_bytes());
    out.extend_from_slice(body);
    out
}

/// Builds an error page: a response whose body is HTML.
pub fn send_error(status: &str, body: &[u8]) -> (out: Vec<u8>)
    ensures
        out@ == response_bytes(status@, html_content_type(), body@),
{
    respond(status, "text/html; charset=utf-8", body)
}

} // verus!
