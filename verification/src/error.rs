//! The error kinds that an orchestrator can return.

use vstd::prelude::*;

verus! {

/// A required configuration value, named so an error can say which one is
/// missing.
#[derive(Debug, Clone, Copy, PartialEq, Eq)]
pub enum ConfigVar {
    /// The platform base URL (with its alternate fallback name).
    PlatformUrl,
    /// The privileged service credential.
    ServiceRoleKey,
}

/// What can go wrong during one orchestrated operation.
#[derive(Debug, PartialEq, Eq)]
pub enum AppError {
    /// A required configuration value is absent.
    ConfigError { variable: ConfigVar },
    /// The network layer failed before a status was obtained; carries the
    /// underlying cause's description.
    TransportError { message: String },
    /// The platform answered with an unexpected status; carries the status
    /// and, where one could be parsed, the platform's message.
    RemoteApiError { status: u16, message: Option<String> },
    /// The identity pre-exists but its id could not be resolved by lookup.
    ReconciliationError,
}

} // verus!
