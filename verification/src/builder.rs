//! The configuration surface used to assemble a runnable extension. The
//! builder accumulates identity, settings and endpoints, validates them
//! against the live extension, and yields the runner's verified core. The
//! task scheduler that accompanies a runner is supplied outside the
//! library.

use vstd::prelude::*;
use crate::context::ExtensionContext;
use crate::error::ExtensionError;
use crate::lifecycle::ExtensionState;
use crate::runner::{ExtensionRunner, RunnerPhase};
use crate::settings::{SettingValue, Settings};
use crate::text::str_eq;
use crate::traits::Extension;
use crate::transport::client::{DEFAULT_TIMEOUT_MILLIS, TransportClient};

verus! {

/// Accumulates what a runnable extension needs: its declared identity, its
/// settings, the port it will serve, and the host's transport endpoint.
#[derive(Debug)]
pub struct ExtensionBuilder {
    pub name: String,
    pub unique_id: String,
    pub version: String,
    pub opensearch_version: String,
    pub settings: Settings,
    pub port: u16,
    pub transport_host: String,
    pub transport_port: u16,
}

impl ExtensionBuilder {
    /// The builder's settings store keeps its key invariant.
    pub open spec fn wf(self) -> bool {
        self.settings.wf()
    }

    /// A builder with the given name and the defaults: version 1.0.0
    /// against host version 3.0.0, serving port 1234, talking to the host
    /// transport at localhost:9300.
    pub fn new(name: &str) -> (b: Self)
        ensures
            b.wf(),
            b.name@ == name@,
            b.unique_id@ == Seq::<char>::empty(),
            b.version@ == "1.0.0"@,
            b.opensearch_version@ == "3.0.0"@,
            b.settings@ == Map::<Seq<char>, crate::settings::SettingView>::empty(),
            b.port == 1234,
            b.transport_host@ == "localhost"@,
            b.transport_port == 9300,
    {
        proof {
            reveal_strlit("");
        }
        ExtensionBuilder {
            name: name.to_owned(),
            unique_id: String::new(),
            version: String::from_str("1.0.0"),
            opensearch_version: String::from_str("3.0.0"),
            settings: Settings::new(),
            port: 1234,
            transport_host: String::from_str("localhost"),
            transport_port: 9300,
        }
    }

    pub fn unique_id(self, id: &str) -> (b: Self)
        ensures
            b == (ExtensionBuilder { unique_id: b.unique_id, ..self }),
            b.unique_id@ == id@,
    {
        ExtensionBuilder { unique_id: id.to_owned(), ..self }
    }

    pub fn version(self, version: &str) -> (b: Self)
        ensures
            b == (ExtensionBuilder { version: b.version, ..self }),
            b.version@ == version@,
    {
        ExtensionBuilder { version: version.to_owned(), ..self }
    }

    pub fn opensearch_version(self, version: &str) -> (b: Self)
        ensures
            b == (ExtensionBuilder { opensearch_version: b.opensearch_version, ..self }),
            b.opensearch_version@ == version@,
    {
        ExtensionBuilder { opensearch_version: version.to_owned(), ..self }
    }

    pub fn port(self, port: u16) -> (b: Self)
        ensures
            b == (ExtensionBuilder { port, ..self }),
    {
        ExtensionBuilder { port, ..self }
    }

    pub fn transport_endpoint(self, host: &str, port: u16) -> (b: Self)
        ensures
            b == (ExtensionBuilder {
                transport_host: b.transport_host,
                transport_port: port,
                ..self
            }),
            b.transport_host@ == host@,
    {
        ExtensionBuilder { transport_host: host.to_owned(), transport_port: port, ..self }
    }

    /// Binds one setting.
    pub fn setting(self, key: &str, value: SettingValue) -> (b: Self)
        requires
            self.wf(),
        ensures
            b.wf(),
            b == (ExtensionBuilder { settings: b.settings, ..self }),
            b.settings@ == self.settings@.insert(key@, value@),
    {
        let mut b = self;
        let _ = b.settings.set(key, value);
        b
    }

    /// Replaces the settings store.
    pub fn settings(self, settings: Settings) -> (b: Self)
        ensures
            b == (ExtensionBuilder { settings, ..self }),
    {
        ExtensionBuilder { settings, ..self }
    }

    /// Validates the accumulated configuration against the live extension
    /// and yields the runner core. An empty unique id is refused, and so is
    /// an extension whose name, id or version differs from what the builder
    /// declared; each rejection is a configuration error naming both sides.
    /// On success the runner starts in `Created` with this builder's
    /// settings, transport endpoint and port.
    pub fn build<E: Extension>(self, extension: &E) -> (r: Result<ExtensionRunner, ExtensionError>)
        requires
            self.wf(),
        ensures
            self.unique_id@.len() == 0 ==> (r matches Err(e) && e matches
                ExtensionError::ConfigurationError(m) && m@ == "Unique ID is required"@),
            self.unique_id@.len() > 0 && extension.spec_name() != self.name@ ==> (r matches Err(e)
                && e matches ExtensionError::ConfigurationError(m) && m@
                == spec_mismatch_message("Extension name mismatch: builder has '"@, self.name@, extension.spec_name())),
            self.unique_id@.len() > 0 && extension.spec_name() == self.name@
                && extension.spec_unique_id() != self.unique_id@ ==> (r matches Err(e) && e matches
                ExtensionError::ConfigurationError(m) && m@
                == spec_mismatch_message("Extension ID mismatch: builder has '"@, self.unique_id@, extension.spec_unique_id())),
            self.unique_id@.len() > 0 && extension.spec_name() == self.name@
                && extension.spec_unique_id() == self.unique_id@ && extension.spec_version()
                != self.version@ ==> (r matches Err(e) && e matches
                ExtensionError::ConfigurationError(m) && m@
                == spec_mismatch_message("Extension version mismatch: builder has '"@, self.version@, extension.spec_version())),
            self.unique_id@.len() > 0 && extension.spec_name() == self.name@
                && extension.spec_unique_id() == self.unique_id@ && extension.spec_version()
                == self.version@ ==> (r matches Ok(runner) && runner.port == self.port
                && runner.lifecycle.state == ExtensionState::Created && runner.phase
                == RunnerPhase::Ready && runner.context.settings == self.settings
                && runner.context.transport_client.host@ == self.transport_host@
                && runner.context.transport_client.port == self.transport_port
                && runner.context.transport_client.timeout_millis == DEFAULT_TIMEOUT_MILLIS),
    {
        if self.unique_id.as_str().is_empty() {
            return Err(ExtensionError::configuration("Unique ID is required"));
        }
        let provided_name = extension.name();
        if !str_eq(provided_name, self.name.as_str()) {
            let m = String::from_str("Extension name mismatch: builder has '").concat(
                self.name.as_str(),
            ).concat("', extension has '").concat(provided_name).concat("'");
            return Err(ExtensionError::ConfigurationError(m));
        }
        let provided_id = extension.unique_id();
        if !str_eq(provided_id, self.unique_id.as_str()) {
            let m = String::from_str("Extension ID mismatch: builder has '").concat(
                self.unique_id.as_str(),
            ).concat("', extension has '").concat(provided_id).concat("'");
            return Err(ExtensionError::ConfigurationError(m));
        }
        let provided_version = extension.version();
        if !str_eq(provided_version, self.version.as_str()) {
            let m = String::from_str("Extension version mismatch: builder has '").concat(
                self.version.as_str(),
            ).concat("', extension has '").concat(provided_version).concat("'");
            return Err(ExtensionError::ConfigurationError(m));
        }
        let transport_client = TransportClient::new(
            self.transport_host.as_str(),
            self.transport_port,
        );
        let context = match ExtensionContext::builder().settings(self.settings).transport_client(
            transport_client,
        ).build() {
            Ok(context) => context,
            Err(e) => {
                return Err(e);
            },
        };
        ExtensionRunner::new(context, self.port)
    }
}

/// The text of a mismatch rejection: the prefix names the mismatched field
/// and the builder's value; the extension's value follows.
pub open spec fn spec_mismatch_message(
    prefix: Seq<char>,
    declared: Seq<char>,
    provided: Seq<char>,
) -> Seq<char> {
    prefix + declared + "', extension has '"@ + provided + "'"@
}

impl Default for ExtensionBuilder {
    /// A builder named "default-extension", with the usual defaults.
    fn default() -> (b: Self)
        ensures
            b.wf(),
            b.name@ == "default-extension"@,
            b.unique_id@ == Seq::<char>::empty(),
    {
        ExtensionBuilder::new("default-extension")
    }
}

} // verus!
