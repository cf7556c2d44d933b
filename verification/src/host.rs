//! Host-side connection handling decisions: how an incoming header is
//! classified and which response header and payload answer it. Reading and
//! writing the socket happen outside the library.

use vstd::prelude::*;
use vstd::utf8::encode_utf8;
use crate::text::lemma_encode_utf8_len_bound;
use crate::transport::{FIXED_HEADER_SIZE, TransportTcpHeader, transport_status};

verus! {

/// What an incoming message asks for, read off its status byte.
#[derive(Debug, Clone, Copy, PartialEq, Eq, Structural)]
pub enum ConnectionKind {
    Handshake,
    RequestResponse,
    Unknown,
}

/// Classifies an incoming header: handshakes first, then request/response
/// traffic; anything else is unknown and is dropped without a response.
pub fn classify(header: &TransportTcpHeader) -> (kind: ConnectionKind)
    ensures
        header.status == transport_status::STATUS_HANDSHAKE ==> kind == ConnectionKind::Handshake,
        header.status != transport_status::STATUS_HANDSHAKE && header.status
            == transport_status::STATUS_REQRES ==> kind == ConnectionKind::RequestResponse,
        header.status != transport_status::STATUS_HANDSHAKE && header.status
            != transport_status::STATUS_REQRES ==> kind == ConnectionKind::Unknown,
{
    if header.is_handshake() {
        ConnectionKind::Handshake
    } else if header.is_request_response() {
        ConnectionKind::RequestResponse
    } else {
        ConnectionKind::Unknown
    }
}

/// The fixed text answering a handshake.
pub open spec fn handshake_greeting() -> Seq<char> {
    "Hello from OpenSearch Rust SDK!"@
}

/// The fixed text answering a request/response message.
pub open spec fn request_greeting() -> Seq<char> {
    "{\"message\": \"Hello World from OpenSearch Rust Extension!\", \"status\": \"ok\", \"extension\": \"hello-world-rs\"}"@
}

/// Whether `reply` is the correct response to `header` carrying exactly the
/// payload `content`: the response echoes the request id and version, is
/// marked request/response, has no variable header, and its length field
/// counts the fixed fields plus the content.
pub open spec fn is_reply_for(
    reply: TransportTcpHeader,
    header: TransportTcpHeader,
    content: Seq<u8>,
) -> bool {
    &&& reply.request_id == header.request_id
    &&& reply.status == transport_status::STATUS_REQRES
    &&& reply.version == header.version
    &&& reply.variable_header_size == 0
    &&& reply.message_length == FIXED_HEADER_SIZE + content.len()
}

/// The response to a handshake: a matching header and the fixed greeting.
pub fn handshake_reply(header: &TransportTcpHeader) -> (reply: (TransportTcpHeader, Vec<u8>))
    ensures
        reply.1@ == encode_utf8(handshake_greeting()),
        is_reply_for(reply.0, *header, reply.1@),
{
    let text = "Hello from OpenSearch Rust SDK!";
    proof {
        reveal_strlit("Hello from OpenSearch Rust SDK!");
        lemma_encode_utf8_len_bound(text@);
    }
    let content = text.as_bytes_vec();
    let response_header = TransportTcpHeader::new(
        header.request_id,
        transport_status::STATUS_REQRES,
        header.version,
        content.len() as u32,
        0,
    );
    (response_header, content)
}

/// The response to a request/response message: a matching header and the
/// fixed greeting document.
pub fn request_response_reply(header: &TransportTcpHeader) -> (reply: (
    TransportTcpHeader,
    Vec<u8>,
))
    ensures
        reply.1@ == encode_utf8(request_greeting()),
        is_reply_for(reply.0, *header, reply.1@),
{
    let text =
        "{\"message\": \"Hello World from OpenSearch Rust Extension!\", \"status\": \"ok\", \"extension\": \"hello-world-rs\"}";
    proof {
        reveal_strlit(
            "{\"message\": \"Hello World from OpenSearch Rust Extension!\", \"status\": \"ok\", \"extension\": \"hello-world-rs\"}",
        );
        lemma_encode_utf8_len_bound(text@);
    }
    let content = text.as_bytes_vec();
    let response_header = TransportTcpHeader::new(
        header.request_id,
        transport_status::STATUS_REQRES,
        header.version,
        content.len() as u32,
        0,
    );
    (response_header, content)
}

} // verus!
