//! The discovery client's address handling and response interpretation.
//! The discovery service itself is a host-side collaborator; the network
//! calls and the JSON decoding of its answers happen outside the library,
//! which is handed the decoded parts.

use vstd::prelude::*;
use crate::error::ExtensionError;
use crate::text::{rfind_colon, spec_parse_u16, parse_u16, rfind_colon_str};

verus! {

/// Whether a discovered extension is serving.
#[derive(Debug, Clone, Copy, PartialEq, Eq, Structural)]
pub enum ExtensionStatus {
    Active,
    Inactive,
    Failed,
    Unknown,
}

/// A client of the host's discovery service, addressed by "host[:port]"
/// text.
#[derive(Debug, Clone)]
pub struct DiscoveryClient {
    pub service_url: String,
}

/// A service URL split into host and port: the digits after the last colon
/// are the port; without a colon the default transport port 9300 is used; a
/// colon followed by anything but a port is an error.
pub open spec fn spec_host_port(url: Seq<char>) -> Option<(Seq<char>, u16)> {
    match rfind_colon(url) {
        Some(pos) => match spec_parse_u16(url.skip(pos + 1)) {
            Some(p) => Some((url.take(pos), p)),
            None => None,
        },
        None => Some((url, 9300)),
    }
}

impl DiscoveryClient {
    pub fn new(service_url: &str) -> (c: Self)
        ensures
            c.service_url@ == service_url@,
    {
        DiscoveryClient { service_url: service_url.to_owned() }
    }

    /// Splits a service URL into host and port, rejecting a port that does
    /// not parse.
    pub fn parse_host_port(&self, url: &str) -> (r: Result<(String, u16), ExtensionError>)
        ensures
            spec_host_port(url@) matches Some(hp) ==> (r matches Ok(p) && p.0@ == hp.0 && p.1
                == hp.1),
            spec_host_port(url@) is None ==> (r matches Err(e) && e matches
                ExtensionError::ConfigurationError(m) && (rfind_colon(url@) matches Some(pos)
                && m@ == "Invalid port in service URL: "@ + url@.skip(pos + 1))),
    {
        match rfind_colon_str(url) {
            Some(pos) => {
                proof {
                    crate::text::lemma_rfind_colon(url@);
                }
                let n = url.unicode_len();
                let port_part = url.substring_char(pos + 1, n);
                proof {
                    assert(url@.subrange(pos as int + 1, url@.len() as int) =~= url@.skip(
                        pos as int + 1,
                    ));
                }
                match parse_u16(port_part) {
                    Some(port) => {
                        let host = url.substring_char(0, pos).to_owned();
                        proof {
                            assert(url@.subrange(0, pos as int) =~= url@.take(pos as int));
                        }
                        Ok((host, port))
                    },
                    None => {
                        let m = String::from_str("Invalid port in service URL: ").concat(port_part);
                        Err(ExtensionError::ConfigurationError(m))
                    },
                }
            },
            None => Ok((url.to_owned(), 9300)),
        }
    }
}

/// How a discovery query's decoded answer is interpreted: an empty response
/// body means the extension is unknown; a decoded extension document is the
/// answer; otherwise a response carrying the flag `found: false` also means
/// unknown, and anything else is a serialization error. The caller decodes
/// the JSON and hands in the parts.
pub fn interpret_query_response<T>(
    response_empty: bool,
    decoded_extension: Option<T>,
    found_flag: Option<bool>,
) -> (r: Result<Option<T>, ExtensionError>)
    ensures
        response_empty ==> (r matches Ok(o) && o is None),
        decoded_extension matches Some(ext) ==> (response_empty || (r matches Ok(o) && o == Some(
            ext,
        ))),
        !response_empty && decoded_extension is None && found_flag == Some(false) ==> (r matches Ok(
            o,
        ) && o is None),
        !response_empty && decoded_extension is None && found_flag != Some(false) ==> (r matches
            Err(e) && e is SerializationError),
    {
    if response_empty {
        return Ok(None);
    }
    match decoded_extension {
        Some(ext) => Ok(Some(ext)),
        None => {
            match found_flag {
                Some(false) => Ok(None),
                Some(true) => Err(
                    ExtensionError::serialization("Unexpected response format"),
                ),
                None => Err(
                    ExtensionError::serialization("Failed to deserialize query response"),
                ),
            }
        },
    }
}

} // verus!
