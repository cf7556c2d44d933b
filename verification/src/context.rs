//! The context handed to an extension at initialize time: its settings and
//! the transport client configuration for talking back to the host. The
//! task scheduler and logging facilities that accompany it live outside the
//! library.

use vstd::prelude::*;
use crate::error::ExtensionError;
use crate::settings::Settings;
use crate::transport::client::TransportClient;

verus! {

/// What an extension receives when it is initialized.
#[derive(Debug)]
pub struct ExtensionContext {
    pub settings: Settings,
    pub transport_client: TransportClient,
}

impl ExtensionContext {
    pub fn new(settings: Settings, transport_client: TransportClient) -> (c: Self)
        ensures
            c.settings == settings,
            c.transport_client == transport_client,
    {
        ExtensionContext { settings, transport_client }
    }

    pub fn builder() -> (b: ExtensionContextBuilder)
        ensures
            b.settings.wf(),
            b.settings@ == Map::<Seq<char>, crate::settings::SettingView>::empty(),
            b.transport_client is None,
    {
        ExtensionContextBuilder::new()
    }
}

/// Assembles a context. The transport client is required; settings default
/// to an empty store.
#[derive(Debug)]
pub struct ExtensionContextBuilder {
    pub settings: Settings,
    pub transport_client: Option<TransportClient>,
}

impl ExtensionContextBuilder {
    pub fn new() -> (b: Self)
        ensures
            b.settings.wf(),
            b.settings@ == Map::<Seq<char>, crate::settings::SettingView>::empty(),
            b.transport_client is None,
    {
        ExtensionContextBuilder { settings: Settings::new(), transport_client: None }
    }

    pub fn settings(self, settings: Settings) -> (b: Self)
        ensures
            b.settings == settings,
            b.transport_client == self.transport_client,
    {
        ExtensionContextBuilder { settings, ..self }
    }

    pub fn transport_client(self, client: TransportClient) -> (b: Self)
        ensures
            b.settings == self.settings,
            b.transport_client == Some(client),
    {
        ExtensionContextBuilder { transport_client: Some(client), ..self }
    }

    /// A context with the accumulated parts; a missing transport client is
    /// a configuration error and nothing else is.
    pub fn build(self) -> (r: Result<ExtensionContext, ExtensionError>)
        ensures
            self.transport_client matches Some(client) ==> (r matches Ok(c) && c.settings
                == self.settings && c.transport_client == client),
            self.transport_client is None ==> (r matches Err(e) && e matches
                ExtensionError::ConfigurationError(m) && m@ == "Transport client is required"@),
    {
        match self.transport_client {
            Some(client) => Ok(ExtensionContext::new(self.settings, client)),
            None => Err(ExtensionError::configuration("Transport client is required")),
        }
    }
}

impl Default for ExtensionContextBuilder {
    fn default() -> (b: Self)
        ensures
            b.settings.wf(),
            b.transport_client is None,
    {
        ExtensionContextBuilder::new()
    }
}

} // verus!
