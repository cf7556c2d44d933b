//! The fixed binary transport header that precedes every wire message:
//! construction, big-endian encoding, and decoding with framing checks.

pub mod client;
pub mod transport_status;

use vstd::prelude::*;
use crate::error::ExtensionError;
use crate::wire::{
    be_u32_bytes,
    be_u32_val,
    be_u64_bytes,
    be_u64_val,
    lemma_be_u32_round_trip,
    lemma_be_u64_round_trip,
    push_be_u32,
    push_be_u64,
    read_be_u32,
    read_be_u64,
};

verus! {

/// First byte of the two-byte marker literal that opens every message.
pub const MARKER_BYTE_0: u8 = 69;

/// Second byte of the two-byte marker literal ("ES" in ASCII).
pub const MARKER_BYTE_1: u8 = 83;

/// Bytes of fixed header material counted into `message_length` besides the
/// variable header and the content: request id, status and version.
pub const FIXED_HEADER_SIZE: u32 = 13;

/// The fixed transport header. `message_length` counts everything after the
/// length field itself: request id (8), status (1), version (4), the
/// variable header and the content.
#[derive(Debug, Clone, Copy, PartialEq, Eq, Structural)]
pub struct TransportTcpHeader {
    pub message_length: u32,
    pub request_id: u64,
    pub status: u8,
    pub version: u32,
    pub variable_header_size: u32,
}

impl TransportTcpHeader {
    /// Builds a header for a message with `content_size` content bytes,
    /// establishing the length invariant.
    pub fn new(request_id: u64, status: u8, version: u32, content_size: u32, variable_header_size: u32) -> (h: Self)
        requires
            content_size + FIXED_HEADER_SIZE + variable_header_size <= u32::MAX,
        ensures
            h == (TransportTcpHeader {
                message_length: (content_size + FIXED_HEADER_SIZE + variable_header_size) as u32,
                request_id,
                status,
                version,
                variable_header_size,
            }),
    {
        let message_length = content_size + FIXED_HEADER_SIZE + variable_header_size;
        TransportTcpHeader { message_length, request_id, status, version, variable_header_size }
    }

    pub fn is_handshake(&self) -> (r: bool)
        ensures
            r == (self.status == transport_status::STATUS_HANDSHAKE),
    {
        self.status == transport_status::STATUS_HANDSHAKE
    }

    pub fn is_request_response(&self) -> (r: bool)
        ensures
            r == (self.status == transport_status::STATUS_REQRES),
    {
        self.status == transport_status::STATUS_REQRES
    }

    pub fn is_error(&self) -> (r: bool)
        ensures
            r == (self.status == transport_status::STATUS_ERROR),
    {
        self.status == transport_status::STATUS_ERROR
    }

    pub fn is_compressed(&self) -> (r: bool)
        ensures
            r == (self.status == transport_status::STATUS_COMPRESS),
    {
        self.status == transport_status::STATUS_COMPRESS
    }

    /// Encodes the header followed by the content bytes, ready to be written
    /// to a connection in one piece.
    pub fn to_bytes(&self, content: &[u8]) -> (out: Vec<u8>)
        ensures
            out@ == spec_header_bytes(*self) + content@,
    {
        let mut out: Vec<u8> = Vec::new();
        out.push(MARKER_BYTE_0);
        out.push(MARKER_BYTE_1);
        push_be_u32(&mut out, self.message_length);
        push_be_u64(&mut out, self.request_id);
        out.push(self.status);
        push_be_u32(&mut out, self.version);
        push_be_u32(&mut out, self.variable_header_size);
        let ghost header_only = out@;
        let mut i: usize = 0;
        while i < content.len()
            invariant
                0 <= i <= content@.len(),
                out@ == header_only + content@.subrange(0, i as int),
            decreases content@.len() - i,
        {
            out.push(content[i]);
            i = i + 1;
            proof {
                assert(out@ =~= header_only + content@.subrange(0, i as int));
            }
        }
        proof {
            assert(content@.subrange(0, content@.len() as int) =~= content@);
            assert(header_only =~= spec_header_bytes(*self));
        }
        out
    }

    /// Decodes a header from the front of a byte buffer. A buffer whose
    /// first two bytes are not the marker literal is a framing error; a
    /// buffer too short for the fixed fields is rejected stage by stage,
    /// as a streaming reader would reject it.
    pub fn from_bytes(bytes: &[u8]) -> (r: Result<Self, ExtensionError>)
        ensures
            r is Ok <==> spec_decode_header(bytes@) is Some,
            r matches Ok(h) ==> spec_decode_header(bytes@) == Some(h),
            bytes@.len() < 2 ==> (r matches Err(e) && e matches ExtensionError::ProtocolError(m)
                && m@ == "Unable to parse prefix"@),
            bytes@.len() >= 2 && !(bytes@[0] == MARKER_BYTE_0 && bytes@[1] == MARKER_BYTE_1) ==> (
            r matches Err(e) && e matches ExtensionError::ProtocolError(m) && m@
                == "Invalid header prefix"@),
            has_marker(bytes@) && bytes@.len() < 6 ==> (r matches Err(e) && e matches
                ExtensionError::ProtocolError(m) && m@ == "Unable to parse size"@),
            has_marker(bytes@) && 6 <= bytes@.len() < 14 ==> (r matches Err(e) && e matches
                ExtensionError::ProtocolError(m) && m@ == "Cannot parse request_id"@),
            has_marker(bytes@) && 14 <= bytes@.len() < 15 ==> (r matches Err(e) && e matches
                ExtensionError::ProtocolError(m) && m@ == "Unable to parse status"@),
            has_marker(bytes@) && 15 <= bytes@.len() < 19 ==> (r matches Err(e) && e matches
                ExtensionError::ProtocolError(m) && m@ == "Unable to parse version"@),
            has_marker(bytes@) && 19 <= bytes@.len() < 23 ==> (r matches Err(e) && e matches
                ExtensionError::ProtocolError(m) && m@ == "Unable to parse variable_header_size"@),
    {
        if bytes.len() < 2 {
            return Err(ExtensionError::protocol("Unable to parse prefix"));
        }
        if !(bytes[0] == MARKER_BYTE_0 && bytes[1] == MARKER_BYTE_1) {
            return Err(ExtensionError::protocol("Invalid header prefix"));
        }
        if bytes.len() < 6 {
            return Err(ExtensionError::protocol("Unable to parse size"));
        }
        if bytes.len() < 14 {
            return Err(ExtensionError::protocol("Cannot parse request_id"));
        }
        if bytes.len() < 15 {
            return Err(ExtensionError::protocol("Unable to parse status"));
        }
        if bytes.len() < 19 {
            return Err(ExtensionError::protocol("Unable to parse version"));
        }
        if bytes.len() < 23 {
            return Err(ExtensionError::protocol("Unable to parse variable_header_size"));
        }
        let message_length = read_be_u32(bytes, 2);
        let request_id = read_be_u64(bytes, 6);
        let status = bytes[14];
        let version = read_be_u32(bytes, 15);
        let variable_header_size = read_be_u32(bytes, 19);
        Ok(TransportTcpHeader { message_length, request_id, status, version, variable_header_size })
    }
}

/// Whether the buffer begins with the two-byte marker literal.
pub open spec fn has_marker(bytes: Seq<u8>) -> bool {
    bytes.len() >= 2 && bytes[0] == MARKER_BYTE_0 && bytes[1] == MARKER_BYTE_1
}

/// The 23 bytes of an encoded header, in wire order.
pub open spec fn spec_header_bytes(h: TransportTcpHeader) -> Seq<u8> {
    seq![MARKER_BYTE_0, MARKER_BYTE_1] + be_u32_bytes(h.message_length) + be_u64_bytes(h.request_id)
        + seq![h.status] + be_u32_bytes(h.version) + be_u32_bytes(h.variable_header_size)
}

/// The header read from the front of a buffer, if the buffer carries the
/// marker and all fixed fields.
pub open spec fn spec_decode_header(bytes: Seq<u8>) -> Option<TransportTcpHeader> {
    if bytes.len() >= 23 && has_marker(bytes) {
        Some(
            TransportTcpHeader {
                message_length: be_u32_val(bytes.subrange(2, 6)),
                request_id: be_u64_val(bytes.subrange(6, 14)),
                status: bytes[14],
                version: be_u32_val(bytes.subrange(15, 19)),
                variable_header_size: be_u32_val(bytes.subrange(19, 23)),
            },
        )
    } else {
        None
    }
}

/// One flag per message: the status values are checked by exact equality,
/// never combined, so a header answers to at most one of the status
/// predicates.
pub proof fn lemma_status_flags_exclusive(h: TransportTcpHeader)
    ensures
        h.status == transport_status::STATUS_REQRES ==> h.status != transport_status::STATUS_ERROR
            && h.status != transport_status::STATUS_COMPRESS && h.status
            != transport_status::STATUS_HANDSHAKE,
        h.status == transport_status::STATUS_ERROR ==> h.status != transport_status::STATUS_COMPRESS
            && h.status != transport_status::STATUS_HANDSHAKE,
        h.status == transport_status::STATUS_COMPRESS ==> h.status
            != transport_status::STATUS_HANDSHAKE,
{
}

/// Round trip: decoding an encoded header, with any content after it,
/// yields exactly the header that was encoded, for every combination of
/// field values.
pub proof fn lemma_header_round_trip(h: TransportTcpHeader, content: Seq<u8>)
    ensures
        spec_decode_header(spec_header_bytes(h) + content) == Some(h),
{
    let b = spec_header_bytes(h) + content;
    assert(b.subrange(2, 6) =~= be_u32_bytes(h.message_length));
    assert(b.subrange(6, 14) =~= be_u64_bytes(h.request_id));
    assert(b[14] == h.status);
    assert(b.subrange(15, 19) =~= be_u32_bytes(h.version));
    assert(b.subrange(19, 23) =~= be_u32_bytes(h.variable_header_size));
    lemma_be_u32_round_trip(h.message_length);
    lemma_be_u64_round_trip(h.request_id);
    lemma_be_u32_round_trip(h.version);
    lemma_be_u32_round_trip(h.variable_header_size);
}

} // verus!
