//! Extension-side runtime for a host process that delegates work to
//! out-of-process extensions over a private binary transport protocol.
//!
//! The crate covers the wire-protocol codec, the lifecycle state machine,
//! the extension runner's decision logic, the resilience primitives
//! (retry with backoff, circuit breaker) and the dependency resolver,
//! together with the configuration surface handed to an extension.

pub mod builder;
pub mod context;
pub mod dependency;
pub mod discovery;
pub mod error;
pub mod health;
pub mod host;
pub mod interface;
pub mod lifecycle;
pub mod metadata;
pub mod registration;
pub mod resilience;
pub mod runner;
pub mod settings;
pub mod text;
pub mod traits;
pub mod transport;
pub mod wire;

pub use builder::ExtensionBuilder;
pub use context::ExtensionContext;
pub use dependency::ExtensionDependency;
pub use error::ExtensionError;
pub use lifecycle::ExtensionState;
pub use runner::ExtensionRunner;
pub use traits::Extension;
