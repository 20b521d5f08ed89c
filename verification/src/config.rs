//! Extraction of the local listening port from a proxy configuration file.
//!
//! The two supported proxy binaries keep the port in different places and
//! speak different JSON dialects: one reads a relaxed JSON file (comments
//! and trailing commas tolerated) with the port at `inbounds[0].listen_port`,
//! the other a strict JSON file with a top-level `local_port` field. The
//! caller picks the dialect; it is never auto-detected.

use vstd::prelude::*;

use crate::errors::TrojanError;

verus! {

/// Which proxy binary the configuration file is written for.
#[derive(Debug, Clone, Copy, PartialEq, Eq, Structural)]
pub enum Dialect {
    /// Relaxed JSON; the port sits at `inbounds[0].listen_port`.
    SingBox,
    /// Strict JSON; the port sits at a top-level `local_port` field.
    TrojanGo,
}

/// The two port fields a configuration document can carry, read out of the
/// parsed document as plain values. A field is `None` when it is absent or
/// not an unsigned integer.
#[derive(Debug, Clone, Copy, PartialEq, Eq, Structural)]
pub struct PortFields {
    /// The top-level `local_port` field.
    pub local_port: Option<u64>,
    /// The `inbounds[0].listen_port` field.
    pub inbound_listen_port: Option<u64>,
}

/// The part of the configuration the supervisor needs: the port the proxy
/// process will listen on locally. Derived once per start call, immutable
/// afterwards.
#[derive(Debug, Clone, Copy, PartialEq, Eq, Structural)]
pub struct ExtractedConfig {
    pub local_port: u16,
}

/// The port fields of `s` parsed as relaxed JSON, `None` when `s` is not a
/// valid relaxed JSON document. Left uninterpreted: the relaxed JSON grammar
/// belongs to the parser crate, and the result depends on the text alone.
pub uninterp spec fn json5_port_fields(s: Seq<char>) -> Option<PortFields>;

/// The port fields of `s` parsed as strict JSON, `None` when `s` is not a
/// valid strict JSON document. Left uninterpreted, as for the relaxed form.
pub uninterp spec fn json_port_fields(s: Seq<char>) -> Option<PortFields>;

/// Relies on `json5::from_str::<serde_json::Value>` to parse the relaxed
/// JSON dialect, and on `serde_json::Value::{get, as_u64}` to read the two
/// port fields out of the parsed document; both parse and lookup depend on
/// the text alone.
#[verifier::external_body]
fn parse_port_fields_json5(s: &str) -> (r: Option<PortFields>)
    ensures
        r == json5_port_fields(s@),
{
    match json5::from_str::<serde_json::Value>(s) {
        Ok(v) => Some(PortFields {
            local_port: v.get("local_port").and_then(|p| p.as_u64()),
            inbound_listen_port: v
                .get("inbounds")
                .and_then(|a| a.get(0))
                .and_then(|o| o.get("listen_port"))
                .and_then(|p| p.as_u64()),
        }),
        Err(_) => None,
    }
}

/// Relies on `serde_json::from_str::<serde_json::Value>` to parse strict
/// JSON, and on `serde_json::Value::{get, as_u64}` to read the two port
/// fields out of the parsed document; both depend on the text alone.
#[verifier::external_body]
fn parse_port_fields_json(s: &str) -> (r: Option<PortFields>)
    ensures
        r == json_port_fields(s@),
{
    match serde_json::from_str::<serde_json::Value>(s) {
        Ok(v) => Some(PortFields {
            local_port: v.get("local_port").and_then(|p| p.as_u64()),
            inbound_listen_port: v
                .get("inbounds")
                .and_then(|a| a.get(0))
                .and_then(|o| o.get("listen_port"))
                .and_then(|p| p.as_u64()),
        }),
        Err(_) => None,
    }
}

/// The port fields of `s` under the dialect `d`.
pub open spec fn parsed_port_fields(d: Dialect, s: Seq<char>) -> Option<PortFields> {
    match d {
        Dialect::SingBox => json5_port_fields(s),
        Dialect::TrojanGo => json_port_fields(s),
    }
}

/// The field the dialect `d` reads its port from.
pub open spec fn chosen_port_field(d: Dialect, f: PortFields) -> Option<u64> {
    match d {
        Dialect::SingBox => f.inbound_listen_port,
        Dialect::TrojanGo => f.local_port,
    }
}

/// What extraction returns for a parse result: a parse failure is
/// `ConfigParseError`; a port field that is absent or does not fit in an
/// unsigned 16-bit integer is `ConfigFieldMissing`; otherwise the port.
pub open spec fn spec_extract(d: Dialect, parsed: Option<PortFields>) -> Result<
    ExtractedConfig,
    TrojanError,
> {
    match parsed {
        None => Err(TrojanError::ConfigParseError),
        Some(f) => match chosen_port_field(d, f) {
            None => Err(TrojanError::ConfigFieldMissing),
            Some(p) => if p <= u16::MAX as u64 {
                Ok(ExtractedConfig { local_port: p as u16 })
            } else {
                Err(TrojanError::ConfigFieldMissing)
            },
        },
    }
}

/// Turns a parse result into the extracted configuration: rejects a failed
/// parse, then the dialect's port field when it is absent or does not fit
/// an unsigned 16-bit integer.
pub fn extract_from_fields(dialect: Dialect, parsed: Option<PortFields>) -> (r: Result<
    ExtractedConfig,
    TrojanError,
>)
    ensures
        r == spec_extract(dialect, parsed),
{
    match parsed {
        None => Err(TrojanError::ConfigParseError),
        Some(f) => {
            let field = match dialect {
                Dialect::SingBox => f.inbound_listen_port,
                Dialect::TrojanGo => f.local_port,
            };
            match field {
                None => Err(TrojanError::ConfigFieldMissing),
                Some(p) => if p <= u16::MAX as u64 {
                    Ok(ExtractedConfig { local_port: p as u16 })
                } else {
                    Err(TrojanError::ConfigFieldMissing)
                },
            }
        },
    }
}

/// Parses `content` under the dialect `dialect` and extracts the local
/// listening port. Pure: no side effects, a function of the text alone.
pub fn extract_config(content: &str, dialect: Dialect) -> (r: Result<ExtractedConfig, TrojanError>)
    ensures
        r == spec_extract(dialect, parsed_port_fields(dialect, content@)),
{
    let parsed = match dialect {
        Dialect::SingBox => parse_port_fields_json5(content),
        Dialect::TrojanGo => parse_port_fields_json(content),
    };
    extract_from_fields(dialect, parsed)
}

} // verus!
