//! The identity and registration documents an extension sends to the host,
//! and the address handling of the registration exchange. Serializing the
//! documents to JSON and moving them over the network happen outside the
//! library.

use vstd::prelude::*;
use crate::dependency::ExtensionDependency;
use crate::text::{rfind_colon, spec_dec, spec_parse_u16, parse_u16, rfind_colon_str, u64_to_string};
use crate::traits::Extension;

verus! {

/// Who the extension is, as reported to the host.
#[derive(Debug, Clone)]
pub struct ExtensionIdentity {
    pub name: String,
    pub unique_id: String,
    pub version: String,
    pub opensearch_version: String,
    pub java_version: String,
    pub description: Option<String>,
    pub vendor: Option<String>,
    pub license: Option<String>,
    pub dependencies: Vec<ExtensionDependency>,
}

impl ExtensionIdentity {
    /// Reads the identity off a live extension. Description, vendor and
    /// license start empty and are filled in by the `with_` builders.
    pub fn from_extension<E: Extension>(extension: &E) -> (identity: Self)
        ensures
            identity.name@ == extension.spec_name(),
            identity.unique_id@ == extension.spec_unique_id(),
            identity.version@ == extension.spec_version(),
            identity.opensearch_version@ == extension.spec_opensearch_version(),
            identity.description is None,
            identity.vendor is None,
            identity.license is None,
    {
        ExtensionIdentity {
            name: extension.name().to_owned(),
            unique_id: extension.unique_id().to_owned(),
            version: extension.version().to_owned(),
            opensearch_version: extension.opensearch_version().to_owned(),
            java_version: extension.java_version().to_owned(),
            description: None,
            vendor: None,
            license: None,
            dependencies: extension.dependencies(),
        }
    }

    pub fn with_description(self, description: &str) -> (r: Self)
        ensures
            r == (ExtensionIdentity { description: r.description, ..self }),
            r.description matches Some(d) && d@ == description@,
    {
        ExtensionIdentity { description: Some(description.to_owned()), ..self }
    }

    pub fn with_vendor(self, vendor: &str) -> (r: Self)
        ensures
            r == (ExtensionIdentity { vendor: r.vendor, ..self }),
            r.vendor matches Some(v) && v@ == vendor@,
    {
        ExtensionIdentity { vendor: Some(vendor.to_owned()), ..self }
    }

    pub fn with_license(self, license: &str) -> (r: Self)
        ensures
            r == (ExtensionIdentity { license: r.license, ..self }),
            r.license matches Some(l) && l@ == license@,
    {
        ExtensionIdentity { license: Some(license.to_owned()), ..self }
    }
}

/// What the extension is able to serve, as flags in the registration.
#[derive(Debug, Clone, Copy, PartialEq, Eq, Structural)]
pub struct ExtensionCapabilities {
    pub supports_rest_actions: bool,
    pub supports_named_writeable: bool,
    pub supports_action_extension: bool,
    pub supports_settings_extension: bool,
    pub supports_cluster_settings: bool,
}

impl Default for ExtensionCapabilities {
    /// No capability is claimed by default.
    fn default() -> (c: Self)
        ensures
            c == (ExtensionCapabilities {
                supports_rest_actions: false,
                supports_named_writeable: false,
                supports_action_extension: false,
                supports_settings_extension: false,
                supports_cluster_settings: false,
            }),
    {
        ExtensionCapabilities {
            supports_rest_actions: false,
            supports_named_writeable: false,
            supports_action_extension: false,
            supports_settings_extension: false,
            supports_cluster_settings: false,
        }
    }
}

/// The registration document sent to the host: identity, where the
/// extension listens, and its capabilities.
#[derive(Debug, Clone)]
pub struct ExtensionRegistration {
    pub identity: ExtensionIdentity,
    pub host: String,
    pub port: u16,
    pub capabilities: ExtensionCapabilities,
}

impl ExtensionRegistration {
    pub fn new(identity: ExtensionIdentity, host: String, port: u16) -> (r: Self)
        ensures
            r.identity == identity,
            r.host == host,
            r.port == port,
            r.capabilities == (ExtensionCapabilities {
                supports_rest_actions: false,
                supports_named_writeable: false,
                supports_action_extension: false,
                supports_settings_extension: false,
                supports_cluster_settings: false,
            }),
    {
        ExtensionRegistration { identity, host, port, capabilities: ExtensionCapabilities::default() }
    }

    pub fn with_capabilities(self, capabilities: ExtensionCapabilities) -> (r: Self)
        ensures
            r == (ExtensionRegistration { capabilities, ..self }),
    {
        ExtensionRegistration { capabilities, ..self }
    }

    /// The "host:port" text of the extension's own listening address.
    pub fn address_string(&self) -> (s: String)
        ensures
            s@ == self.host@ + ":"@ + spec_dec(self.port as nat),
    {
        let mut s = self.host.clone();
        s.append(":");
        let port_text = u64_to_string(self.port as u64);
        s.append(port_text.as_str());
        s
    }
}

/// A host endpoint read from "host[:port]" text: everything before the last
/// colon is the host and the digits after it are the port; without a colon,
/// or when the port text does not parse, the default transport port 9300 is
/// used. This mirrors how the registration exchange interprets the address
/// it is given.
pub open spec fn spec_registration_endpoint(addr: Seq<char>) -> (Seq<char>, u16) {
    match rfind_colon(addr) {
        Some(pos) => {
            let port = match spec_parse_u16(addr.skip(pos + 1)) {
                Some(p) => p,
                None => 9300,
            };
            (addr.take(pos), port)
        },
        None => (addr, 9300),
    }
}

/// Splits a host address for the registration exchange.
pub fn parse_registration_endpoint(addr: &str) -> (r: (String, u16))
    ensures
        (r.0@, r.1) == spec_registration_endpoint(addr@),
{
    match rfind_colon_str(addr) {
        Some(pos) => {
            proof {
                crate::text::lemma_rfind_colon(addr@);
            }
            let n = addr.unicode_len();
            let host = addr.substring_char(0, pos).to_owned();
            let port_part = addr.substring_char(pos + 1, n);
            let port = match parse_u16(port_part) {
                Some(p) => p,
                None => 9300,
            };
            proof {
                assert(addr@.subrange(0, pos as int) =~= addr@.take(pos as int));
                assert(addr@.subrange(pos as int + 1, addr@.len() as int) =~= addr@.skip(
                    pos as int + 1,
                ));
            }
            (host, port)
        },
        None => (addr.to_owned(), 9300),
    }
}

/// What the host answers to a registration attempt.
#[derive(Debug, Clone)]
pub struct RegistrationResponse {
    pub success: bool,
    pub extension_id: Option<String>,
    pub message: Option<String>,
    pub cluster_name: Option<String>,
    pub cluster_uuid: Option<String>,
}

/// One registration attempt's document. Sending it and reading the answer
/// are performed outside the library against `parse_registration_endpoint`
/// and the serialized registration.
#[derive(Debug, Clone)]
pub struct RegistrationProtocol {
    pub registration: ExtensionRegistration,
}

impl RegistrationProtocol {
    pub fn new(registration: ExtensionRegistration) -> (p: Self)
        ensures
            p.registration == registration,
    {
        RegistrationProtocol { registration }
    }
}

} // verus!
