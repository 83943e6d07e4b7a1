//! Client-side binding for a remote debugging protocol: a schema compiler
//! that turns the protocol's machine-readable description into typed
//! declarations, a name-based dispatch protocol for user-declared command and
//! event enumerations, and the wire-level message envelope.

// Shared helpers.
pub mod text;
pub mod json;

// The schema model and its compiler.
pub mod schema;
pub mod descriptor;
pub mod naming;
pub mod references;
pub mod graph;
pub mod reachability;
pub mod deprecation;
pub mod docs;
pub mod emit;
pub mod codec;
pub mod protocol;

// Dispatch and the message envelope.
pub mod dispatch;
pub mod error_kind;
pub mod envelope;

// The discovery endpoint.
pub mod paths;
pub mod urls;
pub mod greeter;
pub mod discovery;

pub use error_kind::{CdpErrorKind, DevToolsErrorKind, JsonCdpErrorKind};
pub use envelope::{CdpError, CdpIncoming, CdpOutgoing};
pub use schema::{Definition, Domain, Field, Item, Method, Type, TypeDef, Version};
