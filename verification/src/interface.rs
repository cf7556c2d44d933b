//! The typed request envelope carried above the transport header: a single
//! tag byte selecting the variant, then the UTF-8 payload.

use vstd::prelude::*;
use vstd::utf8::{decode_utf8, encode_utf8, valid_utf8};
use crate::error::ExtensionError;

verus! {

/// Anything that can render itself to wire bytes.
pub trait Serialize {
    fn serialize(&self) -> Vec<u8>;
}

/// Anything that can be read back from wire bytes.
pub trait Deserialize {
    type Output;

    fn deserialize(bytes: &[u8]) -> Result<Self::Output, ExtensionError>;
}

/// The request envelope. Each variant carries its raw payload text.
#[derive(Debug)]
pub enum Request {
    RequestResponse(String),
    TransportError(String),
    Compress(String),
    Handshake(String),
}

impl Request {
    /// The single leading byte that selects the variant on the wire.
    pub open spec fn spec_tag(self) -> u8 {
        match self {
            Request::RequestResponse(_) => 1,
            Request::TransportError(_) => 2,
            Request::Compress(_) => 4,
            Request::Handshake(_) => 8,
        }
    }

    /// The payload text carried by the variant.
    pub open spec fn spec_payload(self) -> Seq<char> {
        match self {
            Request::RequestResponse(s) => s@,
            Request::TransportError(s) => s@,
            Request::Compress(s) => s@,
            Request::Handshake(s) => s@,
        }
    }

    /// The tag byte of this request.
    pub fn tag(&self) -> (t: u8)
        ensures
            t == self.spec_tag(),
    {
        match self {
            Request::RequestResponse(_) => 1,
            Request::TransportError(_) => 2,
            Request::Compress(_) => 4,
            Request::Handshake(_) => 8,
        }
    }
}

/// The wire form of a request: its tag byte, then its payload in UTF-8.
pub open spec fn spec_serialize_request(r: Request) -> Seq<u8> {
    seq![r.spec_tag()] + encode_utf8(r.spec_payload())
}

/// The tag and payload text read back from wire bytes, if the buffer is
/// non-empty, its payload is valid UTF-8 and its tag names a variant.
pub open spec fn spec_deserialize_request(bytes: Seq<u8>) -> Option<(u8, Seq<char>)> {
    if bytes.len() == 0 {
        None
    } else {
        let tail = bytes.skip(1);
        if !valid_utf8(tail) {
            None
        } else if bytes[0] == 1 || bytes[0] == 2 || bytes[0] == 4 || bytes[0] == 8 {
            Some((bytes[0], decode_utf8(tail)))
        } else {
            None
        }
    }
}

/// Whether a request carries the given tag and payload text.
pub open spec fn request_matches(r: Request, m: (u8, Seq<char>)) -> bool {
    r.spec_tag() == m.0 && r.spec_payload() == m.1
}

impl Serialize for Request {
    /// Renders the tag byte followed by the UTF-8 payload bytes.
    fn serialize(&self) -> (out: Vec<u8>)
        ensures
            out@ == spec_serialize_request(*self),
    {
        let tag = self.tag();
        let content = match self {
            Request::RequestResponse(s) => s,
            Request::TransportError(s) => s,
            Request::Compress(s) => s,
            Request::Handshake(s) => s,
        };
        let mut out: Vec<u8> = Vec::new();
        out.push(tag);
        let mut payload = content.as_str().as_bytes_vec();
        out.append(&mut payload);
        proof {
            assert(out@ =~= spec_serialize_request(*self));
        }
        out
    }
}

impl Deserialize for Request {
    type Output = Request;

    /// Reads a request back: the payload is decoded before the tag is
    /// examined, so a malformed payload is reported even under a bad tag.
    fn deserialize(bytes: &[u8]) -> (r: Result<Request, ExtensionError>)
        ensures
            r matches Ok(req) ==> spec_deserialize_request(bytes@) matches Some(m)
                && request_matches(req, m),
            r is Ok <==> spec_deserialize_request(bytes@) is Some,
            bytes@.len() == 0 ==> (r matches Err(e) && e matches ExtensionError::ProtocolError(m)
                && m@ == "Empty request"@),
            bytes@.len() > 0 && !valid_utf8(bytes@.skip(1)) ==> (r matches Err(e) && e matches
                ExtensionError::SerializationError(m) && m@ == "Invalid UTF-8 payload"@),
            bytes@.len() > 0 && valid_utf8(bytes@.skip(1)) && spec_deserialize_request(bytes@)
                is None ==> (r matches Err(e) && e matches ExtensionError::ProtocolError(m) && m@
                == "Invalid request type"@),
    {
        if bytes.len() == 0 {
            return Err(ExtensionError::protocol("Empty request"));
        }
        let tag = bytes[0];
        let tail = vstd::slice::slice_subrange(bytes, 1, bytes.len());
        proof {
            assert(tail@ =~= bytes@.skip(1));
        }
        let content_bytes = vstd::slice::slice_to_vec(tail);
        let content = match bytes_to_string(content_bytes) {
            Some(s) => s,
            None => {
                return Err(ExtensionError::serialization("Invalid UTF-8 payload"));
            },
        };
        if tag == 1 {
            Ok(Request::RequestResponse(content))
        } else if tag == 2 {
            Ok(Request::TransportError(content))
        } else if tag == 4 {
            Ok(Request::Compress(content))
        } else if tag == 8 {
            Ok(Request::Handshake(content))
        } else {
            Err(ExtensionError::protocol("Invalid request type"))
        }
    }
}

/// Round trip: reading back a rendered request yields the same variant with
/// the same payload text, for every request.
pub proof fn lemma_request_round_trip(r: Request)
    ensures
        spec_deserialize_request(spec_serialize_request(r)) matches Some(m) && request_matches(
            r,
            m,
        ),
{
    broadcast use vstd::utf8::encode_utf8_valid_utf8, vstd::utf8::encode_utf8_decode_utf8;

    let bytes = spec_serialize_request(r);
    assert(bytes.skip(1) =~= encode_utf8(r.spec_payload()));
}

/// Relies on `String::from_utf8`: it succeeds exactly on input that is
/// valid UTF-8, and then returns the characters those bytes encode.
#[verifier::external_body]
fn bytes_to_string(bytes: Vec<u8>) -> (r: Option<String>)
    ensures
        r is Some <==> valid_utf8(bytes@),
        r matches Some(s) ==> s@ == decode_utf8(bytes@),
{
    String::from_utf8(bytes).ok()
}

} // verus!
