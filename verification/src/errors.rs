//! The error taxonomy of the supervisor.

use vstd::prelude::*;

verus! {

/// Everything that can go wrong while starting, stopping or querying the
/// supervised process. Variants that report an operating-system failure
/// carry the OS error text.
#[derive(Debug, Clone, PartialEq, Eq)]
pub enum TrojanError {
    /// The configuration file could not be read.
    ConfigReadError(String),
    /// The configuration file is not valid for the chosen dialect.
    ConfigParseError,
    /// The port field is absent or not an unsigned 16-bit integer.
    ConfigFieldMissing,
    /// The external process could not be spawned.
    SpawnError(String),
    /// The system proxy setting could not be read.
    ProxyReadError(String),
    /// The system proxy setting could not be enabled.
    ProxySetError(String),
    /// The system proxy setting could not be disabled.
    ProxyUnsetError(String),
    /// The external process could not be terminated.
    KillError(String),
}

} // verus!
