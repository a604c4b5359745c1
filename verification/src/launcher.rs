//! The supervision state machine.
//!
//! A launcher holds at most one handle to a spawned relay process together
//! with the current settings. Every frontend command — start, stop, status,
//! read or replace the settings — is a decision over that state. The outside
//! work a command needs (spawning, killing, sleeping, probing) happens
//! between the decision steps, outside the library, and reports back in
//! plain values: a process id, a kill error, a probe outcome.

use vstd::prelude::*;
use vstd::string::StringExecFns;

use crate::config::RelayConfig;
use crate::config::RelayConfigV;
use crate::probe::ProbeOutcome;
use crate::probe::ProbeV;
use crate::probe::probe_opt_v;
use crate::status::RelayStatus;
use crate::status::StatusV;
use crate::status::message_opt_v;
use crate::status::status_opt_v;
use crate::status::status_result_v;

verus! {

/// The launcher's record of a spawned relay process.
///
/// At most one non-terminated handle exists at a time: it is created when a
/// spawn succeeds and cleared when the process is stopped, killed, or found
/// dead.
#[derive(Debug, Clone, Copy, PartialEq, Eq, Structural)]
pub struct ProcessHandle {
    pub pid: u32,
}

/// The mathematical value of a [`Launcher`]: the process id of the held
/// handle, if any, and the value of the settings.
#[verifier::ext_equal]
pub ghost struct LauncherV {
    pub handle: Option<u32>,
    pub config: RelayConfigV,
}

/// The relay supervisor: at most one process handle, and the settings the
/// relay is started with.
#[derive(Debug)]
pub struct Launcher {
    pub handle: Option<ProcessHandle>,
    pub config: RelayConfig,
}

impl View for Launcher {
    type V = LauncherV;

    open spec fn view(&self) -> LauncherV {
        LauncherV {
            handle: match self.handle {
                Some(h) => Some(h.pid),
                None => None,
            },
            config: self.config@,
        }
    }
}

/// A handle counts as live when it names a real process id.
pub open spec fn live_handle(l: LauncherV) -> bool {
    l.handle matches Some(pid) && pid > 0
}

/// The status returned when a start request finds the relay already up.
pub open spec fn already_running_status(c: RelayConfigV) -> StatusV {
    StatusV {
        running: true,
        port: c.port,
        message: "Already running"@,
        data_dir: Some(c.data_directory),
        config_file: None,
    }
}

/// What a start request decides first: `Some(status)` short-circuits with
/// "already running" and no side effect; `None` lets the caller go on to
/// prepare directories, write the configuration file, and spawn.
pub open spec fn start_check_spec(l: LauncherV) -> Option<StatusV> {
    if live_handle(l) {
        Some(already_running_status(l.config))
    } else {
        None
    }
}

/// The state after a successful spawn was recorded.
pub open spec fn record_spawn_spec(l: LauncherV, pid: u32) -> LauncherV {
    LauncherV { handle: Some(pid), config: l.config }
}

/// The state after a start request concluded on probe outcome `p`: the
/// handle survives only a responding probe.
pub open spec fn start_conclude_state(l: LauncherV, p: ProbeV) -> LauncherV {
    match p {
        ProbeV::Responding => l,
        ProbeV::NotResponding => LauncherV { handle: None, config: l.config },
        ProbeV::Failed(_) => LauncherV { handle: None, config: l.config },
    }
}

/// What a start request returns for probe outcome `p`, with `data_dir` and
/// `config_file` the paths the relay was set up with.
pub open spec fn start_conclude_result(
    l: LauncherV,
    p: ProbeV,
    data_dir: Seq<char>,
    config_file: Seq<char>,
) -> Result<StatusV, Seq<char>> {
    match p {
        ProbeV::Responding => Ok(
            StatusV {
                running: true,
                port: l.config.port,
                message: "Running successfully"@,
                data_dir: Some(data_dir),
                config_file: Some(config_file),
            },
        ),
        ProbeV::NotResponding => Err(
            "Relay failed to start properly - check if port is available"@,
        ),
        ProbeV::Failed(m) => Err("Failed to verify relay: "@ + m),
    }
}

/// The state after a stop request took the handle.
pub open spec fn stop_take_spec(l: LauncherV) -> LauncherV {
    LauncherV { handle: None, config: l.config }
}

/// What a stop request returns: "already stopped" when there was no handle,
/// "stopped successfully" when the kill went through, and the kill's error
/// otherwise.
pub open spec fn stop_status_spec(
    c: RelayConfigV,
    had_handle: bool,
    kill_error: Option<Seq<char>>,
) -> Result<StatusV, Seq<char>> {
    if !had_handle {
        Ok(
            StatusV {
                running: false,
                port: c.port,
                message: "Already stopped"@,
                data_dir: None,
                config_file: None,
            },
        )
    } else {
        match kill_error {
            None => Ok(
                StatusV {
                    running: false,
                    port: c.port,
                    message: "Stopped successfully"@,
                    data_dir: None,
                    config_file: None,
                },
            ),
            Some(e) => Err("Failed to kill relay process: "@ + e),
        }
    }
}

/// The state after a status request: only a probe that answered with "not
/// responding" clears the handle.
pub open spec fn report_status_state(l: LauncherV, p: Option<ProbeV>) -> LauncherV {
    if p matches Some(ProbeV::NotResponding) {
        LauncherV { handle: None, config: l.config }
    } else {
        l
    }
}

/// What a status request reports: stopped when no handle is held, running
/// when the probe answered, an error state when the process stopped serving,
/// and "status unknown" when the probe itself failed.
pub open spec fn report_status_spec(l: LauncherV, p: Option<ProbeV>) -> StatusV {
    match p {
        None => StatusV {
            running: false,
            port: l.config.port,
            message: "Stopped"@,
            data_dir: None,
            config_file: None,
        },
        Some(ProbeV::Responding) => StatusV {
            running: true,
            port: l.config.port,
            message: "Running"@,
            data_dir: Some(l.config.data_directory),
            config_file: None,
        },
        Some(ProbeV::NotResponding) => StatusV {
            running: false,
            port: l.config.port,
            message: "Error - Process not responding"@,
            data_dir: None,
            config_file: None,
        },
        Some(ProbeV::Failed(_)) => StatusV {
            running: true,
            port: l.config.port,
            message: "Running (status unknown)"@,
            data_dir: Some(l.config.data_directory),
            config_file: None,
        },
    }
}

/// The state after the settings were replaced.
pub open spec fn update_config_spec(l: LauncherV, c: RelayConfigV) -> LauncherV {
    LauncherV { handle: l.handle, config: c }
}

impl Launcher {
    /// A launcher that holds no process and the given settings.
    pub fn new(config: RelayConfig) -> (l: Launcher)
        ensures
            l@.handle is None,
            l@.config == config@,
    {
        Launcher { handle: None, config }
    }

    /// First step of a start request: short-circuits with "already running"
    /// when a live handle is held, else tells the caller to go ahead and
    /// spawn.
    pub fn start_check(&self) -> (d: Option<RelayStatus>)
        ensures
            status_opt_v(&d) == start_check_spec(self@),
    {
        match &self.handle {
            Some(h) => {
                if h.pid > 0 {
                    Some(
                        RelayStatus {
                            running: true,
                            port: self.config.port,
                            message: "Already running".to_owned(),
                            data_dir: Some(self.config.data_directory.clone()),
                            config_file: None,
                        },
                    )
                } else {
                    None
                }
            },
            None => None,
        }
    }

    /// Records the process id of a successful spawn.
    pub fn record_spawn(&mut self, pid: u32)
        ensures
            final(self)@ == record_spawn_spec(old(self)@, pid),
    {
        self.handle = Some(ProcessHandle { pid });
    }

    /// Last step of a start request, after the settle delay and the liveness
    /// probe: keeps the handle and reports success only when the probe saw
    /// the relay responding; otherwise clears the handle and returns an
    /// error, and the caller must kill the spawned process.
    pub fn start_conclude(&mut self, probe: ProbeOutcome, data_dir: String, config_file: String)
        -> (r: Result<RelayStatus, String>)
        ensures
            final(self)@ == start_conclude_state(old(self)@, probe@),
            status_result_v(&r) == start_conclude_result(
                old(self)@,
                probe@,
                data_dir@,
                config_file@,
            ),
    {
        match probe {
            ProbeOutcome::Responding => Ok(
                RelayStatus {
                    running: true,
                    port: self.config.port,
                    message: "Running successfully".to_owned(),
                    data_dir: Some(data_dir),
                    config_file: Some(config_file),
                },
            ),
            ProbeOutcome::NotResponding => {
                self.handle = None;
                Err("Relay failed to start properly - check if port is available".to_owned())
            },
            ProbeOutcome::Failed(m) => {
                self.handle = None;
                let mut e = "Failed to verify relay: ".to_owned();
                e.append(m.as_str());
                Err(e)
            },
        }
    }

    /// First step of a stop request: takes the handle, if any, and returns
    /// the process id the caller has to kill.
    pub fn stop_take(&mut self) -> (taken: Option<u32>)
        ensures
            final(self)@ == stop_take_spec(old(self)@),
            taken == old(self)@.handle,
    {
        let taken = match &self.handle {
            Some(h) => Some(h.pid),
            None => None,
        };
        self.handle = None;
        taken
    }

    /// Last step of a stop request: turns whether a handle was held and the
    /// kill's error, if any, into the reported status.
    pub fn stop_status(&self, had_handle: bool, kill_error: Option<String>) -> (r: Result<
        RelayStatus,
        String,
    >)
        ensures
            status_result_v(&r) == stop_status_spec(
                self@.config,
                had_handle,
                message_opt_v(&kill_error),
            ),
    {
        if !had_handle {
            Ok(
                RelayStatus {
                    running: false,
                    port: self.config.port,
                    message: "Already stopped".to_owned(),
                    data_dir: None,
                    config_file: None,
                },
            )
        } else {
            match kill_error {
                None => Ok(
                    RelayStatus {
                        running: false,
                        port: self.config.port,
                        message: "Stopped successfully".to_owned(),
                        data_dir: None,
                        config_file: None,
                    },
                ),
                Some(e) => {
                    let mut msg = "Failed to kill relay process: ".to_owned();
                    msg.append(e.as_str());
                    Err(msg)
                },
            }
        }
    }

    /// Whether a status request needs a liveness probe: it does exactly when
    /// a handle is held.
    pub fn status_probe_needed(&self) -> (b: bool)
        ensures
            b == (self@.handle is Some),
    {
        self.handle.is_some()
    }

    /// Turns the probe's outcome — or its absence, when no handle is held —
    /// into the reported status. A probe that found the process dead clears
    /// the handle, and the caller must kill the process; a probe that itself
    /// failed leaves the handle in place and reports "status unknown".
    pub fn report_status(&mut self, probe: Option<ProbeOutcome>) -> (st: RelayStatus)
        requires
            (probe is Some) <==> (old(self)@.handle is Some),
        ensures
            final(self)@ == report_status_state(old(self)@, probe_opt_v(&probe)),
            st@ == report_status_spec(old(self)@, probe_opt_v(&probe)),
    {
        match probe {
            None => RelayStatus {
                running: false,
                port: self.config.port,
                message: "Stopped".to_owned(),
                data_dir: None,
                config_file: None,
            },
            Some(ProbeOutcome::Responding) => RelayStatus {
                running: true,
                port: self.config.port,
                message: "Running".to_owned(),
                data_dir: Some(self.config.data_directory.clone()),
                config_file: None,
            },
            Some(ProbeOutcome::NotResponding) => {
                self.handle = None;
                RelayStatus {
                    running: false,
                    port: self.config.port,
                    message: "Error - Process not responding".to_owned(),
                    data_dir: None,
                    config_file: None,
                }
            },
            Some(ProbeOutcome::Failed(_)) => RelayStatus {
                running: true,
                port: self.config.port,
                message: "Running (status unknown)".to_owned(),
                data_dir: Some(self.config.data_directory.clone()),
                config_file: None,
            },
        }
    }

    /// An owned copy of the current settings.
    pub fn get_config(&self) -> (c: RelayConfig)
        ensures
            c@ == self@.config,
    {
        self.config.duplicate()
    }

    /// Replaces the settings wholesale and returns what was written.
    pub fn update_config(&mut self, new_config: RelayConfig) -> (c: RelayConfig)
        ensures
            final(self)@ == update_config_spec(old(self)@, new_config@),
            c@ == new_config@,
    {
        let c = new_config.duplicate();
        self.config = new_config;
        c
    }
}

/// Stopping a relay that was never started (or is already stopped) is not an
/// error: the state stays as it is and the report is "Already stopped".
pub proof fn lemma_stop_when_stopped(l: LauncherV)
    requires
        l.handle is None,
    ensures
        stop_take_spec(l) == l,
        stop_status_spec(l.config, false, None) matches Ok(st) && !st.running && st.message
            == "Already stopped"@,
{
    assert(stop_take_spec(l) =~= l);
}

/// Starting twice in sequence spawns no second process: after a successful
/// start, the next start request short-circuits at its first decision with
/// "Already running", before anything would be spawned.
pub proof fn lemma_second_start_short_circuits(
    l: LauncherV,
    pid: u32,
    data_dir: Seq<char>,
    config_file: Seq<char>,
)
    requires
        pid > 0,
    ensures
        ({
            let spawned = record_spawn_spec(l, pid);
            let started = start_conclude_state(spawned, ProbeV::Responding);
            &&& start_conclude_result(spawned, ProbeV::Responding, data_dir, config_file) is Ok
            &&& start_check_spec(started) == Some(already_running_status(l.config))
        }),
{
}

/// After a successful start the launcher reports the relay running, on the
/// very port the settings name — both in the start request's own answer and
/// in a later status request whose probe still sees the relay responding.
pub proof fn lemma_status_after_successful_start(
    l: LauncherV,
    pid: u32,
    data_dir: Seq<char>,
    config_file: Seq<char>,
)
    requires
        pid > 0,
    ensures
        ({
            let started = record_spawn_spec(l, pid);
            let after = start_conclude_state(started, ProbeV::Responding);
            &&& start_conclude_result(started, ProbeV::Responding, data_dir, config_file)
                matches Ok(st) && st.running && st.port == l.config.port
            &&& after.handle is Some
            &&& report_status_spec(after, Some(ProbeV::Responding)).running
            &&& report_status_spec(after, Some(ProbeV::Responding)).port == l.config.port
        }),
{
}

/// If the probe fails after the spawn, the start request returns an error
/// and no handle remains: a later status request, having no handle and hence
/// no probe, reports stopped.
pub proof fn lemma_failed_probe_clears_handle(
    l: LauncherV,
    pid: u32,
    data_dir: Seq<char>,
    config_file: Seq<char>,
)
    ensures
        ({
            let started = record_spawn_spec(l, pid);
            let after = start_conclude_state(started, ProbeV::NotResponding);
            &&& start_conclude_result(started, ProbeV::NotResponding, data_dir, config_file)
                is Err
            &&& after.handle is None
            &&& !report_status_spec(after, None).running
            &&& report_status_spec(after, None).message == "Stopped"@
        }),
{
}

/// Reading the settings right after an update returns exactly the values
/// last written, whatever they replaced.
pub proof fn lemma_update_then_get(l: LauncherV, c: RelayConfigV)
    ensures
        update_config_spec(l, c).config == c,
{
}

} // verus!
