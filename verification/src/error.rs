//! Error kinds of the extension runtime and the plain result wrapper
//! handed across its public surface.

use vstd::prelude::*;

verus! {

/// Every failure the runtime reports, each kind carrying its message.
#[derive(Debug)]
pub enum ExtensionError {
    InitializationError(String),
    TransportError(String),
    ConfigurationError(String),
    RegistrationError(String),
    DependencyError(String),
    ShutdownError(String),
    IoError(String),
    SerializationError(String),
    ProtocolError(String),
    TimeoutError(String),
    Unknown(String),
}

impl ExtensionError {
    /// The message carried by the error, without its kind prefix.
    pub open spec fn spec_payload(self) -> Seq<char> {
        match self {
            ExtensionError::InitializationError(m) => m@,
            ExtensionError::TransportError(m) => m@,
            ExtensionError::ConfigurationError(m) => m@,
            ExtensionError::RegistrationError(m) => m@,
            ExtensionError::DependencyError(m) => m@,
            ExtensionError::ShutdownError(m) => m@,
            ExtensionError::IoError(m) => m@,
            ExtensionError::SerializationError(m) => m@,
            ExtensionError::ProtocolError(m) => m@,
            ExtensionError::TimeoutError(m) => m@,
            ExtensionError::Unknown(m) => m@,
        }
    }

    /// The full display text: a fixed prefix naming the kind, then the message.
    pub open spec fn spec_message(self) -> Seq<char> {
        match self {
            ExtensionError::InitializationError(m) => "Initialization failed: "@ + m@,
            ExtensionError::TransportError(m) => "Transport error: "@ + m@,
            ExtensionError::ConfigurationError(m) => "Configuration error: "@ + m@,
            ExtensionError::RegistrationError(m) => "Registration failed: "@ + m@,
            ExtensionError::DependencyError(m) => "Dependency error: "@ + m@,
            ExtensionError::ShutdownError(m) => "Shutdown error: "@ + m@,
            ExtensionError::IoError(m) => "IO error: "@ + m@,
            ExtensionError::SerializationError(m) => "Serialization error: "@ + m@,
            ExtensionError::ProtocolError(m) => "Protocol error: "@ + m@,
            ExtensionError::TimeoutError(m) => "Timeout error: "@ + m@,
            ExtensionError::Unknown(m) => "Unknown error: "@ + m@,
        }
    }

    /// Display text of the error: kind prefix followed by the message.
    pub fn message(&self) -> (text: String)
        ensures
            text@ == self.spec_message(),
    {
        match self {
            ExtensionError::InitializationError(m) => {
                String::from_str("Initialization failed: ").concat(m.as_str())
            },
            ExtensionError::TransportError(m) => {
                String::from_str("Transport error: ").concat(m.as_str())
            },
            ExtensionError::ConfigurationError(m) => {
                String::from_str("Configuration error: ").concat(m.as_str())
            },
            ExtensionError::RegistrationError(m) => {
                String::from_str("Registration failed: ").concat(m.as_str())
            },
            ExtensionError::DependencyError(m) => {
                String::from_str("Dependency error: ").concat(m.as_str())
            },
            ExtensionError::ShutdownError(m) => {
                String::from_str("Shutdown error: ").concat(m.as_str())
            },
            ExtensionError::IoError(m) => String::from_str("IO error: ").concat(m.as_str()),
            ExtensionError::SerializationError(m) => {
                String::from_str("Serialization error: ").concat(m.as_str())
            },
            ExtensionError::ProtocolError(m) => {
                String::from_str("Protocol error: ").concat(m.as_str())
            },
            ExtensionError::TimeoutError(m) => {
                String::from_str("Timeout error: ").concat(m.as_str())
            },
            ExtensionError::Unknown(m) => String::from_str("Unknown error: ").concat(m.as_str()),
        }
    }

    pub fn initialization(msg: &str) -> (e: Self)
        ensures
            e matches ExtensionError::InitializationError(m) && m@ == msg@,
    {
        ExtensionError::InitializationError(msg.to_owned())
    }

    pub fn transport(msg: &str) -> (e: Self)
        ensures
            e matches ExtensionError::TransportError(m) && m@ == msg@,
    {
        ExtensionError::TransportError(msg.to_owned())
    }

    pub fn configuration(msg: &str) -> (e: Self)
        ensures
            e matches ExtensionError::ConfigurationError(m) && m@ == msg@,
    {
        ExtensionError::ConfigurationError(msg.to_owned())
    }

    pub fn registration(msg: &str) -> (e: Self)
        ensures
            e matches ExtensionError::RegistrationError(m) && m@ == msg@,
    {
        ExtensionError::RegistrationError(msg.to_owned())
    }

    pub fn dependency(msg: &str) -> (e: Self)
        ensures
            e matches ExtensionError::DependencyError(m) && m@ == msg@,
    {
        ExtensionError::DependencyError(msg.to_owned())
    }

    pub fn shutdown(msg: &str) -> (e: Self)
        ensures
            e matches ExtensionError::ShutdownError(m) && m@ == msg@,
    {
        ExtensionError::ShutdownError(msg.to_owned())
    }

    pub fn io(msg: &str) -> (e: Self)
        ensures
            e matches ExtensionError::IoError(m) && m@ == msg@,
    {
        ExtensionError::IoError(msg.to_owned())
    }

    pub fn serialization(msg: &str) -> (e: Self)
        ensures
            e matches ExtensionError::SerializationError(m) && m@ == msg@,
    {
        ExtensionError::SerializationError(msg.to_owned())
    }

    pub fn protocol(msg: &str) -> (e: Self)
        ensures
            e matches ExtensionError::ProtocolError(m) && m@ == msg@,
    {
        ExtensionError::ProtocolError(msg.to_owned())
    }

    pub fn timeout(msg: &str) -> (e: Self)
        ensures
            e matches ExtensionError::TimeoutError(m) && m@ == msg@,
    {
        ExtensionError::TimeoutError(msg.to_owned())
    }

    pub fn unknown(msg: &str) -> (e: Self)
        ensures
            e matches ExtensionError::Unknown(m) && m@ == msg@,
    {
        ExtensionError::Unknown(msg.to_owned())
    }
}

/// A result that carries at most one of a value and an error, as handed to
/// callers that want to inspect both sides without consuming either.
#[derive(Debug)]
pub struct ExtensionResult<T> {
    pub value: Option<T>,
    pub error: Option<ExtensionError>,
}

impl<T> ExtensionResult<T> {
    pub fn ok(value: T) -> (r: Self)
        ensures
            r.value == Some(value),
            r.error is None,
    {
        ExtensionResult { value: Some(value), error: None }
    }

    pub fn err(error: ExtensionError) -> (r: Self)
        ensures
            r.value is None,
            r.error == Some(error),
    {
        ExtensionResult { value: None, error: Some(error) }
    }

    pub fn is_ok(&self) -> (r: bool)
        ensures
            r == (self.error is None),
    {
        self.error.is_none()
    }

    pub fn is_err(&self) -> (r: bool)
        ensures
            r == (self.error is Some),
    {
        self.error.is_some()
    }
}

} // verus!
