//! Configuration of the outbound transport client: the host endpoint and
//! the per-connect timeout. Opening connections and moving bytes happen
//! outside the library, against this configuration.

use vstd::prelude::*;
use crate::text::spec_dec;
use crate::text::u64_to_string;

verus! {

/// Milliseconds of the default per-connect timeout (thirty seconds).
pub const DEFAULT_TIMEOUT_MILLIS: u64 = 30000;

/// Where the client connects and how long a connect may take.
#[derive(Debug, Clone)]
pub struct TransportClient {
    pub host: String,
    pub port: u16,
    pub timeout_millis: u64,
}

impl TransportClient {
    pub fn new(host: &str, port: u16) -> (c: Self)
        ensures
            c.host@ == host@,
            c.port == port,
            c.timeout_millis == DEFAULT_TIMEOUT_MILLIS,
    {
        TransportClient { host: host.to_owned(), port, timeout_millis: DEFAULT_TIMEOUT_MILLIS }
    }

    pub fn with_timeout(self, timeout_millis: u64) -> (c: Self)
        ensures
            c.host == self.host,
            c.port == self.port,
            c.timeout_millis == timeout_millis,
    {
        TransportClient { timeout_millis, ..self }
    }

    /// The "host:port" form of the endpoint, as handed to a connector.
    pub fn address(&self) -> (s: String)
        ensures
            s@ == self.host@ + ":"@ + spec_dec(self.port as nat),
    {
        let mut s = self.host.clone();
        s.append(":");
        let port_text = u64_to_string(self.port as u64);
        s.append(port_text.as_str());
        s
    }
}

} // verus!
