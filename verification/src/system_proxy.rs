//! The system-wide proxy setting: reading it, enabling it for the managed
//! process's port, and disabling it again.
//!
//! The operating system's proxy configuration is a global mutable resource
//! that other software may change at any time, so nothing is promised about
//! what a read returns or whether a commit sticks. What is verified is the
//! decision layer: which settings an enable commits, and that a disable
//! commits only when the proxy is currently enabled.

use vstd::prelude::*;

use crate::errors::TrojanError;

verus! {

/// A snapshot of the system-wide proxy configuration, as plain values.
#[derive(Debug, Clone, PartialEq, Eq)]
pub struct ProxySettings {
    /// Whether the system proxy is switched on.
    pub enable: bool,
    /// The proxy host.
    pub host: String,
    /// The proxy port.
    pub port: u16,
    /// The comma-separated bypass list.
    pub bypass: String,
}

/// The mathematical value of a [`ProxySettings`].
pub struct ProxyModel {
    pub enable: bool,
    pub host: Seq<char>,
    pub port: u16,
    pub bypass: Seq<char>,
}

impl View for ProxySettings {
    type V = ProxyModel;

    open spec fn view(&self) -> ProxyModel {
        ProxyModel { enable: self.enable, host: self.host@, port: self.port, bypass: self.bypass@ }
    }
}

/// The settings an enable commits: the given host and port, switched on,
/// with an empty bypass list.
pub open spec fn enabled_model(host: Seq<char>, port: u16) -> ProxyModel {
    ProxyModel { enable: true, host: host, port: port, bypass: Seq::empty() }
}

/// `current` with the enabled flag cleared and everything else kept.
pub open spec fn disabled_model(current: ProxyModel) -> ProxyModel {
    ProxyModel { enable: false, host: current.host, port: current.port, bypass: current.bypass }
}

/// The operating system's proxy store after a commit: the committed
/// settings replace whatever was stored.
pub open spec fn os_after_commit(os: ProxyModel, committed: ProxyModel) -> ProxyModel {
    committed
}

/// Relies on `sysproxy::Sysproxy::get_system_proxy`: queries the operating
/// system for the current proxy configuration. The result depends on the
/// machine's state, so nothing is stated about it.
#[verifier::external_body]
pub(crate) fn read_os_proxy() -> (r: Result<ProxySettings, String>) {
    match sysproxy::Sysproxy::get_system_proxy() {
        Ok(p) => Ok(ProxySettings { enable: p.enable, host: p.host, port: p.port, bypass: p.bypass }),
        Err(e) => Err(format!("{}", e)),
    }
}

/// Relies on `sysproxy::Sysproxy::set_system_proxy`: commits the given
/// settings to the operating system. Whether the commit succeeds depends on
/// the machine's state, so nothing is stated about it.
#[verifier::external_body]
pub(crate) fn commit_os_proxy(s: &ProxySettings) -> (r: Result<(), String>) {
    let p = sysproxy::Sysproxy {
        enable: s.enable,
        host: s.host.clone(),
        port: s.port,
        bypass: s.bypass.clone(),
    };
    match p.set_system_proxy() {
        Ok(()) => Ok(()),
        Err(e) => Err(format!("{}", e)),
    }
}

/// Builds the settings that enabling the proxy for `host:port` commits.
pub fn enable_settings(host: &str, port: u16) -> (r: ProxySettings)
    ensures
        r@ == enabled_model(host@, port),
{
    let r = ProxySettings { enable: true, host: host.to_owned(), port: port, bypass: String::new() };
    proof {
        assert(r@ =~= enabled_model(host@, port));
    }
    r
}

/// Decides what a disable must commit: nothing when the proxy is already
/// switched off, otherwise the current settings with the flag cleared. That
/// a disable on an already-disabled proxy commits nothing keeps the stop
/// path from clobbering a proxy state this system did not set.
pub fn disable_plan(current: &ProxySettings) -> (r: Option<ProxySettings>)
    ensures
        current@.enable <==> r is Some,
        r is Some ==> r->0@ == disabled_model(current@),
{
    if current.enable {
        let planned = ProxySettings {
            enable: false,
            host: current.host.clone(),
            port: current.port,
            bypass: current.bypass.clone(),
        };
        proof {
            assert(planned@ =~= disabled_model(current@));
        }
        Some(planned)
    } else {
        None
    }
}

/// Reads the current system proxy configuration. A read failure is
/// `ProxyReadError` with the OS error text.
pub fn read() -> (r: Result<ProxySettings, TrojanError>)
    ensures
        r is Err ==> r->Err_0 matches TrojanError::ProxyReadError(_),
{
    match read_os_proxy() {
        Ok(p) => Ok(p),
        Err(e) => Err(TrojanError::ProxyReadError(e)),
    }
}

/// Switches the system proxy on for `host:port` with an empty bypass list.
/// A commit failure is `ProxySetError`; the caller must surface it, since a
/// start cannot silently continue without a working proxy.
pub fn enable(host: &str, port: u16) -> (r: Result<(), TrojanError>)
    ensures
        r is Err ==> r->Err_0 matches TrojanError::ProxySetError(_),
{
    let settings = enable_settings(host, port);
    match commit_os_proxy(&settings) {
        Ok(()) => Ok(()),
        Err(e) => Err(TrojanError::ProxySetError(e)),
    }
}

/// Switches the system proxy off, committing only when it is currently
/// enabled. A read failure is `ProxyReadError`, a commit failure
/// `ProxyUnsetError`; callers cleaning up after a terminated process may
/// tolerate either.
pub fn disable() -> (r: Result<(), TrojanError>)
    ensures
        r is Err ==> (r->Err_0 matches TrojanError::ProxyReadError(_) || r->Err_0
            matches TrojanError::ProxyUnsetError(_)),
{
    let current = match read() {
        Ok(p) => p,
        Err(e) => return Err(e),
    };
    match disable_plan(&current) {
        None => Ok(()),
        Some(planned) => match commit_os_proxy(&planned) {
            Ok(()) => Ok(()),
            Err(e) => Err(TrojanError::ProxyUnsetError(e)),
        },
    }
}

/// After the proxy is enabled for `host:port` and the store is read back,
/// the read reflects the configured host and port with the flag on, and a
/// disable planned from an already-disabled store commits nothing.
pub proof fn lemma_enable_then_read(os: ProxyModel, host: Seq<char>, port: u16)
    ensures
        os_after_commit(os, enabled_model(host, port)).enable,
        os_after_commit(os, enabled_model(host, port)).host == host,
        os_after_commit(os, enabled_model(host, port)).port == port,
        !os.enable ==> os_after_commit(os, disabled_model(os)) == disabled_model(os),
{
}

} // verus!
