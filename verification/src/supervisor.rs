//! The process supervisor: a state machine over the currently supervised
//! child process and its configuration name.
//!
//! The supervisor owns only the bookkeeping: which child is recorded and
//! under which configuration name. The driver that spawns and kills the real
//! process hands each child an identity token and performs the actions the
//! supervisor returns (a taken token is a request to terminate that child).
//! Both fields are one logical entity and are updated together, so a status
//! query can never observe a child without a name or a name without a child.

use vstd::prelude::*;

use crate::config::Dialect;
use crate::config::ExtractedConfig;
use crate::config::parsed_port_fields;
use crate::config::spec_extract;
use crate::config;
use crate::errors::TrojanError;
use crate::system_proxy;

verus! {

/// The identity token of a spawned child process, chosen by the driver.
pub type ChildId = u64;

/// The supervisor's record of the running process: the child's identity
/// token and the name of the configuration it was started with. Both are
/// `Some` exactly while a process is supervised.
#[derive(Debug)]
pub struct TrojanState {
    /// The identity token of the supervised child, `None` while idle.
    pub child: Option<ChildId>,
    /// The configuration name the child was started with, `None` while idle.
    pub current_config_name: Option<String>,
}

/// What a status query reports: whether a child is supervised, whether the
/// operating system's proxy is currently on (re-read live on every query,
/// never cached), and the active configuration name. The two booleans may
/// legitimately disagree when another program toggled the OS proxy.
#[derive(Debug)]
pub struct TrojanStatus {
    pub is_running: bool,
    pub proxy_status: bool,
    pub name: Option<String>,
}

/// The mathematical value of a [`TrojanState`].
pub struct ProcModel {
    pub child: Option<ChildId>,
    pub name: Option<Seq<char>>,
}

impl View for TrojanState {
    type V = ProcModel;

    open spec fn view(&self) -> ProcModel {
        ProcModel {
            child: self.child,
            name: match self.current_config_name {
                Some(ref n) => Some(n@),
                None => None,
            },
        }
    }
}

/// The mathematical value of a [`TrojanStatus`].
pub struct StatusModel {
    pub is_running: bool,
    pub proxy_status: bool,
    pub name: Option<Seq<char>>,
}

impl View for TrojanStatus {
    type V = StatusModel;

    open spec fn view(&self) -> StatusModel {
        StatusModel {
            is_running: self.is_running,
            proxy_status: self.proxy_status,
            name: match self.name {
                Some(ref n) => Some(n@),
                None => None,
            },
        }
    }
}

/// The supervisor's invariant: a child is recorded exactly while a
/// configuration name is.
pub open spec fn wf(m: ProcModel) -> bool {
    m.child is Some <==> m.name is Some
}

/// The idle state: no child, no name.
pub open spec fn idle_model() -> ProcModel {
    ProcModel { child: None, name: None }
}

/// The state after a stop: idle, whatever held before.
pub open spec fn stop_model(m: ProcModel) -> ProcModel {
    idle_model()
}

/// The state after a spawn is recorded: the new child and name replace
/// whatever was recorded.
pub open spec fn record_model(m: ProcModel, id: ChildId, name: Seq<char>) -> ProcModel {
    ProcModel { child: Some(id), name: Some(name) }
}

/// Whether a termination notice for `id` clears the state: only when `id`
/// is still the recorded child. A notice for an already-replaced child
/// leaves the newer process's record untouched.
pub open spec fn terminate_fires(m: ProcModel, id: ChildId) -> bool {
    m.child == Some(id)
}

/// The state after a termination notice for `id`.
pub open spec fn terminate_model(m: ProcModel, id: ChildId) -> ProcModel {
    if terminate_fires(m, id) {
        idle_model()
    } else {
        m
    }
}

/// What a status query reports of a state, given the live OS proxy flag.
pub open spec fn status_model(m: ProcModel, proxy_status: bool) -> StatusModel {
    StatusModel { is_running: m.child is Some, proxy_status: proxy_status, name: m.name }
}

impl TrojanState {
    /// The supervisor starts idle: nothing supervised, no name recorded.
    pub fn new() -> (s: Self)
        ensures
            s@ == idle_model(),
    {
        TrojanState { child: None, current_config_name: None }
    }

    /// True while a child process is supervised.
    pub fn is_running(&self) -> (b: bool)
        ensures
            b == (self@.child is Some),
    {
        self.child.is_some()
    }

    /// Takes the recorded child out of the state and clears the name, as
    /// one atomic update. The returned token, if any, is the caller's
    /// request to terminate that child, outside any lock.
    pub fn take_running(&mut self) -> (taken: Option<ChildId>)
        ensures
            final(self)@ == stop_model(old(self)@),
            taken == old(self)@.child,
    {
        let taken = self.child;
        self.child = None;
        self.current_config_name = None;
        taken
    }

    /// Records a freshly spawned child and its configuration name, as one
    /// atomic update.
    pub fn record_running(&mut self, child: ChildId, name: String)
        ensures
            final(self)@ == record_model(old(self)@, child, name@),
    {
        self.child = Some(child);
        self.current_config_name = Some(name);
    }

    /// Handles a termination notice for `child`: clears the state only when
    /// `child` is still the recorded one, so a notice that arrives after a
    /// newer process replaced it cannot erase the newer record. Returns
    /// whether the state was cleared; the caller emits its single "stopped"
    /// event exactly when it was.
    pub fn on_child_terminated(&mut self, child: ChildId) -> (cleared: bool)
        ensures
            final(self)@ == terminate_model(old(self)@, child),
            cleared == terminate_fires(old(self)@, child),
    {
        let fires = match self.child {
            Some(recorded) => recorded == child,
            None => false,
        };
        if fires {
            self.child = None;
            self.current_config_name = None;
            true
        } else {
            false
        }
    }

    /// Builds the status report from this state and the given live OS proxy
    /// flag. Pure: reads the state, touches nothing.
    pub fn status_with(&self, proxy_status: bool) -> (st: TrojanStatus)
        ensures
            st@ == status_model(self@, proxy_status),
    {
        let name = match &self.current_config_name {
            Some(n) => Some(n.clone()),
            None => None,
        };
        TrojanStatus { is_running: self.child.is_some(), proxy_status: proxy_status, name: name }
    }
}

/// The argument list the proxy binary is invoked with, per binary family:
/// `run -c <path> --disable-color` for the relaxed-dialect binary,
/// `-config <path>` for the strict-dialect one. The form follows the
/// chosen dialect; neither is hardcoded into the driver.
pub fn spawn_args(dialect: Dialect, config_path: &str) -> (args: Vec<String>)
    ensures
        dialect is SingBox ==> args@.len() == 4 && args@[0]@ == "run"@ && args@[1]@ == "-c"@
            && args@[2]@ == config_path@ && args@[3]@ == "--disable-color"@,
        dialect is TrojanGo ==> args@.len() == 2 && args@[0]@ == "-config"@ && args@[1]@
            == config_path@,
{
    match dialect {
        Dialect::SingBox => vec![
            "run".to_owned(),
            "-c".to_owned(),
            config_path.to_owned(),
            "--disable-color".to_owned(),
        ],
        Dialect::TrojanGo => vec!["-config".to_owned(), config_path.to_owned()],
    }
}

/// The stop sequence shared by an explicit stop and the cleanup before a
/// new start: best-effort disable of the system proxy (a failure there is
/// tolerated, never surfaced), then the atomic take-and-clear. The returned
/// token, if any, is the caller's request to terminate that child. Always
/// succeeds, so a stop can never leave the caller stuck.
pub fn stop_trojan_internal(state: &mut TrojanState) -> (taken: Option<ChildId>)
    ensures
        final(state)@ == stop_model(old(state)@),
        taken == old(state)@.child,
{
    let _ = system_proxy::disable();
    state.take_running()
}

/// Stops the supervised process: disables the system proxy (best-effort)
/// and clears the state. The returned token, if any, is the caller's
/// request to terminate that child. Always succeeds.
pub fn stop_trojan(state: &mut TrojanState) -> (taken: Option<ChildId>)
    ensures
        final(state)@ == stop_model(old(state)@),
        taken == old(state)@.child,
{
    stop_trojan_internal(state)
}

/// The first half of a start: extracts the port from the configuration
/// text, and only if that succeeds runs the internal stop sequence. An
/// extraction failure aborts before anything is touched: the state, and so
/// any previously running process and its recorded name, stay exactly as
/// they were. On success the caller must terminate the returned child, if
/// any, spawn the new process, and hand both to [`run_trojan_record`].
pub fn run_trojan_begin(state: &mut TrojanState, content: &str, dialect: Dialect) -> (r: Result<
    (ExtractedConfig, Option<ChildId>),
    TrojanError,
>)
    ensures
        r is Err ==> *final(state) == *old(state) && Err::<ExtractedConfig, TrojanError>(
            r->Err_0,
        ) == spec_extract(dialect, parsed_port_fields(dialect, content@)),
        r is Ok ==> final(state)@ == stop_model(old(state)@) && Ok::<ExtractedConfig, TrojanError>(
            r->Ok_0.0,
        ) == spec_extract(dialect, parsed_port_fields(dialect, content@)) && r->Ok_0.1 == old(
            state,
        )@.child,
{
    let cfg = match config::extract_config(content, dialect) {
        Ok(c) => c,
        Err(e) => {
            return Err(e);
        },
    };
    let taken = stop_trojan_internal(state);
    Ok((cfg, taken))
}

/// The second half of a start: records the spawned child and its
/// configuration name, then enables the system proxy for the extracted
/// port on the local host. A proxy failure is surfaced to the caller, but
/// the child stays recorded and running: the supervisor does not roll the
/// spawn back.
pub fn run_trojan_record(state: &mut TrojanState, child: ChildId, name: String, port: u16) -> (r:
    Result<(), TrojanError>)
    ensures
        final(state)@ == record_model(old(state)@, child, name@),
        r is Err ==> r->Err_0 matches TrojanError::ProxySetError(_),
{
    state.record_running(child, name);
    system_proxy::enable("127.0.0.1", port)
}

/// The status query: reports whether a child is supervised and under which
/// name, with the OS proxy flag re-read live (defaulting to off when the
/// read fails). Touches nothing and never blocks on process operations.
pub fn get_trojan_status(state: &TrojanState) -> (st: TrojanStatus)
    ensures
        st@.is_running == (state@.child is Some),
        st@.name == state@.name,
{
    let proxy_status = match system_proxy::read() {
        Ok(p) => p.enable,
        Err(_) => false,
    };
    state.status_with(proxy_status)
}

/// Every transition leaves the supervisor well formed, and a stop or a
/// record does so from any state at all.
pub proof fn lemma_transitions_preserve_wf(m: ProcModel, id: ChildId, name: Seq<char>)
    ensures
        wf(stop_model(m)),
        wf(record_model(m, id, name)),
        wf(m) ==> wf(terminate_model(m, id)),
        wf(idle_model()),
{
}

/// After a start is recorded, the status reports a running process under
/// the configuration name the start was given.
pub proof fn lemma_start_reports_running(m: ProcModel, id: ChildId, name: Seq<char>, proxy: bool)
    ensures
        status_model(record_model(stop_model(m), id, name), proxy).is_running,
        status_model(record_model(stop_model(m), id, name), proxy).name == Some(name),
{
}

/// After a stop, the status reports nothing running and no name, whatever
/// the state was before.
pub proof fn lemma_stop_reports_idle(m: ProcModel, proxy: bool)
    ensures
        !status_model(stop_model(m), proxy).is_running,
        status_model(stop_model(m), proxy).name is None,
{
}

/// Two starts in a row: the stop step of the second start takes the first
/// child's token, so the driver terminates it, and the status afterwards
/// reports only the second name and the second child.
pub proof fn lemma_second_start_wins(
    m: ProcModel,
    id1: ChildId,
    n1: Seq<char>,
    id2: ChildId,
    n2: Seq<char>,
    proxy: bool,
)
    ensures
        record_model(stop_model(m), id1, n1).child == Some(id1),
        status_model(
            record_model(stop_model(record_model(stop_model(m), id1, n1)), id2, n2),
            proxy,
        ).name == Some(n2),
        record_model(stop_model(record_model(stop_model(m), id1, n1)), id2, n2).child == Some(id2),
{
}

/// A termination notice for the recorded child fires exactly once: it
/// clears the state and reports it did, the status then shows nothing
/// running, and a repeated notice for the same child no longer fires.
pub proof fn lemma_termination_clears_once(m: ProcModel, id: ChildId, proxy: bool)
    requires
        m.child == Some(id),
    ensures
        terminate_fires(m, id),
        !status_model(terminate_model(m, id), proxy).is_running,
        status_model(terminate_model(m, id), proxy).name is None,
        !terminate_fires(terminate_model(m, id), id),
{
}

} // verus!
