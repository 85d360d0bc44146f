use vstd::prelude::*;
use crate::log_buffer::{bounded_append, LogBuffer};
use crate::text::{dec, owned, push_decimal, push_str};

verus! {

/// How long a stopping process is given to exit after the graceful signal.
pub const GRACEFUL_TIMEOUT_MS: u64 = 1000;

/// Interval between two liveness checks while waiting for a graceful exit.
pub const POLL_INTERVAL_MS: u64 = 50;

/// How a process ended: with an exit code, or without one (ended by a signal).
#[derive(Clone, Copy, Debug, PartialEq, Eq, Structural)]
pub struct ExitInfo {
    pub code: Option<i32>,
}

/// The short-lived status shown while, and right after, a process is stopped.
#[derive(Debug)]
pub enum SpecialStatus {
    Idle,
    Terminating,
    StoppedGracefully,
    ForceKilled,
    KillingByPort,
    KilledPid(String),
}

/// What a stop sequence does after one liveness check.
#[derive(Clone, Copy, Debug, PartialEq, Eq, Structural)]
pub enum StopStep {
    /// The process exited within the grace window.
    Exited,
    /// Still alive and the grace window is open: check again later.
    Wait,
    /// The grace window is over: send the forceful signal.
    ForceKill,
}

/// What the operating system is asked to run when a process starts.
pub struct SpawnRequest {
    pub program: String,
    pub args: Vec<String>,
    pub cwd: Option<String>,
}

/// The lifecycle state of one supervised process. `pid` stands for the
/// handle on the live child; the caller holds the handle itself.
pub struct ManagedProcess {
    pub name: String,
    pub command: Vec<String>,
    pub cwd: Option<String>,
    pub port: Option<u16>,
    pub pid: Option<u32>,
    pub started_at: Option<u64>,
    pub exit_status: Option<ExitInfo>,
    pub special: SpecialStatus,
}

pub open spec fn strings(v: Seq<String>) -> Seq<Seq<char>> {
    v.map_values(|s: String| s@)
}

/// The words of a command separated by single spaces.
pub open spec fn join(words: Seq<Seq<char>>) -> Seq<char>
    decreases words.len(),
{
    if words.len() == 0 {
        Seq::empty()
    } else if words.len() == 1 {
        words[0]
    } else {
        join(words.drop_last()) + " "@ + words.last()
    }
}

/// The text shown for a special status; empty for `Idle`.
pub open spec fn special_text(s: SpecialStatus) -> Seq<char> {
    match s {
        SpecialStatus::Idle => Seq::empty(),
        SpecialStatus::Terminating => "Killing"@,
        SpecialStatus::StoppedGracefully => "Killed Gracefully"@,
        SpecialStatus::ForceKilled => "Force Killed"@,
        SpecialStatus::KillingByPort => "Killing By Port"@,
        SpecialStatus::KilledPid(pid) => "Killed "@ + pid@,
    }
}

pub open spec fn started_line(command: Seq<Seq<char>>) -> Seq<char> {
    "Started: "@ + join(command)
}

pub open spec fn failed_line(error: Seq<char>) -> Seq<char> {
    "Failed to start: "@ + error
}

pub open spec fn port_kill_line(pid: Seq<char>, port: u16) -> Seq<char> {
    "Killed PID "@ + pid + " on port "@ + dec(port as nat)
}

pub open spec fn logged(logs: LogBuffer, line: Seq<char>) -> Seq<Seq<char>> {
    bounded_append(logs.view_lines(), line, logs.capacity())
}

impl ManagedProcess {
    /// A live handle and a start time are held together; a special status
    /// is only ever shown while no handle is held.
    pub open spec fn wf(&self) -> bool {
        &&& self.pid.is_some() == self.started_at.is_some()
        &&& !(self.special is Idle) ==> self.pid.is_none()
    }

    /// The state after a successful spawn of process `pid` at time `now`.
    pub open spec fn spawned(self, pid: u32, now: u64) -> ManagedProcess {
        ManagedProcess {
            pid: Some(pid),
            started_at: Some(now),
            exit_status: None,
            special: SpecialStatus::Idle,
            ..self
        }
    }

    /// Whether a start spawns a process: no handle is held and there is a
    /// command to run.
    pub open spec fn starts_spawn(self) -> bool {
        self.pid.is_none() && self.command@.len() > 0
    }

    /// The state once the port fallback of a stop sequence has begun.
    pub open spec fn after_port_fallback(self) -> ManagedProcess {
        if self.port.is_some() {
            ManagedProcess { special: SpecialStatus::KillingByPort, ..self }
        } else {
            self
        }
    }

    /// The state once a stop sequence has taken the handle.
    pub open spec fn stopping(self) -> ManagedProcess {
        if self.pid.is_some() {
            ManagedProcess {
                pid: None,
                started_at: None,
                special: SpecialStatus::Terminating,
                ..self
            }
        } else {
            self
        }
    }

    /// The state after a status query that saw `polled` as the result of a
    /// non-blocking liveness check of the child.
    pub open spec fn after_status(self, polled: Option<ExitInfo>) -> ManagedProcess {
        if !(self.special is Idle) {
            ManagedProcess { special: SpecialStatus::Idle, ..self }
        } else if self.pid.is_some() && polled.is_some() {
            ManagedProcess { pid: None, started_at: None, exit_status: polled, ..self }
        } else {
            self
        }
    }

    /// The text a status query returns.
    pub open spec fn status_text(self, polled: Option<ExitInfo>) -> Seq<char> {
        if !(self.special is Idle) {
            special_text(self.special)
        } else if self.pid.is_some() && polled.is_none() {
            "Running"@
        } else {
            "Stopped"@
        }
    }

    /// The state after a liveness check made `elapsed_ms` into the grace window.
    pub open spec fn after_poll(self, elapsed_ms: u64, exited: Option<ExitInfo>) -> ManagedProcess {
        if elapsed_ms < GRACEFUL_TIMEOUT_MS && exited.is_some() {
            ManagedProcess {
                exit_status: exited,
                started_at: None,
                special: SpecialStatus::StoppedGracefully,
                ..self
            }
        } else {
            self
        }
    }

    pub open spec fn poll_step(elapsed_ms: u64, exited: Option<ExitInfo>) -> StopStep {
        if elapsed_ms >= GRACEFUL_TIMEOUT_MS {
            StopStep::ForceKill
        } else if exited.is_some() {
            StopStep::Exited
        } else {
            StopStep::Wait
        }
    }

    /// A process that has not been started.
    pub fn new(name: &str, command: Vec<String>, cwd: Option<String>, port: Option<u16>) -> (r:
        ManagedProcess)
        ensures
            r.wf(),
            r.name@ == name@,
            r.command == command,
            r.cwd == cwd,
            r.port == port,
            r.pid.is_none(),
            r.started_at.is_none(),
            r.exit_status.is_none(),
            r.special is Idle,
    {
        ManagedProcess {
            name: owned(name),
            command,
            cwd,
            port,
            pid: None,
            started_at: None,
            exit_status: None,
            special: SpecialStatus::Idle,
        }
    }

    pub fn is_running(&self) -> (r: bool)
        ensures
            r == self.pid.is_some(),
    {
        self.pid.is_some()
    }

    /// What to spawn for a start. No request while a handle is held; none
    /// for an empty command either, which is logged instead.
    pub fn start_request(&self, logs: &mut LogBuffer) -> (r: Option<SpawnRequest>)
        requires
            old(logs).wf(),
        ensures
            final(logs).wf(),
            final(logs).capacity() == old(logs).capacity(),
            r.is_some() == self.starts_spawn(),
            r.is_some() ==> {
                let q = r.unwrap();
                &&& q.program == self.command@[0]
                &&& q.args@ == self.command@.subrange(1, self.command@.len() as int)
                &&& q.cwd == self.cwd
            },
            final(logs).view_lines() == if self.pid.is_none() && self.command@.len() == 0 {
                logged(*old(logs), "Command is empty"@)
            } else {
                old(logs).view_lines()
            },
    {
        if self.pid.is_some() {
            return None;
        }
        if self.command.len() == 0 {
            logs.push(owned("Command is empty"));
            return None;
        }
        let program = self.command[0].clone();
        let mut args: Vec<String> = Vec::new();
        let mut i: usize = 1;
        while i < self.command.len()
            invariant
                1 <= i <= self.command@.len(),
                args@ == self.command@.subrange(1, i as int),
            decreases self.command@.len() - i,
        {
            args.push(self.command[i].clone());
            i = i + 1;
            assert(args@ =~= self.command@.subrange(1, i as int));
        }
        Some(SpawnRequest { program, args, cwd: self.cwd.clone() })
    }

    /// Records a successful spawn of process `pid` at time `now`.
    pub fn on_spawned(&mut self, logs: &mut LogBuffer, pid: u32, now: u64)
        requires
            old(self).wf(),
            old(self).pid.is_none(),
            old(logs).wf(),
        ensures
            final(self).wf(),
            *final(self) == old(self).spawned(pid, now),
            final(logs).wf(),
            final(logs).capacity() == old(logs).capacity(),
            final(logs).view_lines() == logged(*old(logs), started_line(strings(old(self).command@))),
    {
        self.pid = Some(pid);
        self.started_at = Some(now);
        self.exit_status = None;
        self.special = SpecialStatus::Idle;
        let mut line = owned("Started: ");
        let words = join_words(&self.command);
        push_str(&mut line, words.as_str());
        logs.push(line);
    }

    /// Records a failed spawn; the process stays stopped.
    pub fn on_spawn_failed(&self, logs: &mut LogBuffer, error: &str)
        requires
            old(logs).wf(),
        ensures
            final(logs).wf(),
            final(logs).capacity() == old(logs).capacity(),
            final(logs).view_lines() == logged(*old(logs), failed_line(error@)),
    {
        let mut line = owned("Failed to start: ");
        push_str(&mut line, error);
        logs.push(line);
    }

    /// Opens a stop sequence: takes the handle and returns the process id to
    /// send the graceful signal to. Without a handle nothing changes.
    pub fn begin_stop(&mut self) -> (r: Option<u32>)
        requires
            old(self).wf(),
        ensures
            final(self).wf(),
            *final(self) == old(self).stopping(),
            r == old(self).pid,
    {
        let r = self.pid;
        if r.is_some() {
            self.pid = None;
            self.started_at = None;
            self.special = SpecialStatus::Terminating;
        }
        r
    }

    /// One liveness check, `elapsed_ms` after the graceful signal; `exited`
    /// is what the check saw.
    pub fn poll_stop(&mut self, logs: &mut LogBuffer, elapsed_ms: u64, exited: Option<ExitInfo>) -> (r:
        StopStep)
        requires
            old(self).wf(),
            old(self).pid.is_none(),
            old(logs).wf(),
        ensures
            final(self).wf(),
            *final(self) == old(self).after_poll(elapsed_ms, exited),
            r == ManagedProcess::poll_step(elapsed_ms, exited),
            final(logs).wf(),
            final(logs).capacity() == old(logs).capacity(),
            final(logs).view_lines() == if r == StopStep::Exited {
                logged(*old(logs), "Stopped gracefully"@)
            } else {
                old(logs).view_lines()
            },
    {
        if elapsed_ms >= GRACEFUL_TIMEOUT_MS {
            return StopStep::ForceKill;
        }
        match exited {
            Some(e) => {
                self.exit_status = Some(e);
                self.started_at = None;
                self.special = SpecialStatus::StoppedGracefully;
                logs.push(owned("Stopped gracefully"));
                StopStep::Exited
            },
            None => StopStep::Wait,
        }
    }

    /// Records that the forceful signal was sent and the child reaped.
    pub fn on_force_killed(&mut self, logs: &mut LogBuffer)
        requires
            old(self).wf(),
            old(self).pid.is_none(),
            old(logs).wf(),
        ensures
            final(self).wf(),
            *final(self) == (ManagedProcess { special: SpecialStatus::ForceKilled, ..*old(self) }),
            final(logs).wf(),
            final(logs).capacity() == old(logs).capacity(),
            final(logs).view_lines() == logged(*old(logs), "Force killed"@),
    {
        self.special = SpecialStatus::ForceKilled;
        logs.push(owned("Force killed"));
    }

    /// The port whose listener is to be killed as a fallback, if one is configured.
    pub fn port_fallback(&mut self) -> (r: Option<u16>)
        requires
            old(self).wf(),
            old(self).pid.is_none(),
        ensures
            final(self).wf(),
            r == old(self).port,
            *final(self) == old(self).after_port_fallback(),
    {
        if self.port.is_some() {
            self.special = SpecialStatus::KillingByPort;
        }
        self.port
    }

    /// Records that process `pid`, found listening on `port`, was killed.
    pub fn on_port_killed(&mut self, logs: &mut LogBuffer, port: u16, pid: &str)
        requires
            old(self).wf(),
            old(self).pid.is_none(),
            old(logs).wf(),
        ensures
            final(self).wf(),
            final(self).special is KilledPid,
            special_text(final(self).special) == "Killed "@ + pid@,
            *final(self) == (ManagedProcess { special: final(self).special, ..*old(self) }),
            final(logs).wf(),
            final(logs).capacity() == old(logs).capacity(),
            final(logs).view_lines() == logged(*old(logs), port_kill_line(pid@, port)),
    {
        let mut line = owned("Killed PID ");
        push_str(&mut line, pid);
        push_str(&mut line, " on port ");
        push_decimal(&mut line, port as u128);
        logs.push(line);
        self.special = SpecialStatus::KilledPid(owned(pid));
    }

    /// The status shown for the process. `polled` is the result of a
    /// non-blocking liveness check of the child (`None` while it runs).
    /// A special status is shown once and then dropped.
    pub fn status(&mut self, polled: Option<ExitInfo>) -> (r: String)
        requires
            old(self).wf(),
        ensures
            final(self).wf(),
            *final(self) == old(self).after_status(polled),
            r@ == old(self).status_text(polled),
    {
        if !matches!(self.special, SpecialStatus::Idle) {
            let r = special_string(&self.special);
            self.special = SpecialStatus::Idle;
            return r;
        }
        if self.pid.is_some() {
            match polled {
                Some(e) => {
                    self.exit_status = Some(e);
                    self.pid = None;
                    self.started_at = None;
                    return owned("Stopped");
                },
                None => {
                    return owned("Running");
                },
            }
        }
        owned("Stopped")
    }
}

/// A started process reports "Running", and keeps reporting it for as long
/// as the liveness check sees no exit.
pub proof fn lemma_running_after_start(s: ManagedProcess, pid: u32, now: u64)
    requires
        s.wf(),
        s.starts_spawn(),
    ensures
        s.spawned(pid, now).wf(),
        s.spawned(pid, now).status_text(None) == "Running"@,
        s.spawned(pid, now).after_status(None) == s.spawned(pid, now),
{
}

/// A start while a handle is held spawns nothing and leaves the state,
/// start time included, as it was.
pub proof fn lemma_start_is_idempotent(s: ManagedProcess)
    requires
        s.wf(),
        s.pid.is_some(),
    ensures
        !s.starts_spawn(),
{
}

/// A stop of a process that holds no handle leaves the state alone, and
/// still goes on to the port fallback when a port is configured.
pub proof fn lemma_stop_without_handle(s: ManagedProcess)
    requires
        s.wf(),
        s.pid.is_none(),
    ensures
        s.stopping() == s,
        s.port.is_some() ==> s.stopping().after_port_fallback().special is KillingByPort,
        s.port.is_none() ==> s.stopping().after_port_fallback() == s,
{
}

/// An exit seen by a status query is recorded and reported as "Stopped"
/// once: the handle and the start time are cleared, and later queries
/// change nothing.
pub proof fn lemma_exit_observed_once(s: ManagedProcess, e: ExitInfo, later: Option<ExitInfo>)
    requires
        s.wf(),
        s.pid.is_some(),
        s.special is Idle,
    ensures
        s.status_text(Some(e)) == "Stopped"@,
        s.after_status(Some(e)).exit_status == Some(e),
        s.after_status(Some(e)).started_at.is_none(),
        s.after_status(Some(e)).pid.is_none(),
        s.after_status(Some(e)).after_status(later) == s.after_status(Some(e)),
        s.after_status(Some(e)).status_text(later) == "Stopped"@,
{
}

/// A restart takes the handle, so the start that follows spawns again and
/// records the new start time, which is later than the previous one when
/// the clock has advanced.
pub proof fn lemma_restart_fresh_start(s: ManagedProcess, pid: u32, now: u64)
    requires
        s.wf(),
        s.command@.len() > 0,
        s.started_at.is_some(),
        now > s.started_at.unwrap(),
    ensures
        s.stopping().starts_spawn(),
        s.stopping().after_port_fallback().starts_spawn(),
        s.stopping().spawned(pid, now).started_at == Some(now),
        s.stopping().spawned(pid, now).started_at.unwrap() > s.started_at.unwrap(),
{
}

fn special_string(s: &SpecialStatus) -> (r: String)
    ensures
        r@ == special_text(*s),
{
    match s {
        SpecialStatus::Idle => String::new(),
        SpecialStatus::Terminating => owned("Killing"),
        SpecialStatus::StoppedGracefully => owned("Killed Gracefully"),
        SpecialStatus::ForceKilled => owned("Force Killed"),
        SpecialStatus::KillingByPort => owned("Killing By Port"),
        SpecialStatus::KilledPid(pid) => {
            let mut r = owned("Killed ");
            push_str(&mut r, pid.as_str());
            r
        },
    }
}

/// The words of `command` joined by single spaces.
pub fn join_words(command: &Vec<String>) -> (r: String)
    ensures
        r@ == join(strings(command@)),
{
    let mut r = String::new();
    let mut i: usize = 0;
    while i < command.len()
        invariant
            i <= command@.len(),
            r@ == join(strings(command@.subrange(0, i as int))),
        decreases command@.len() - i,
    {
        proof {
            let ghost w = strings(command@.subrange(0, i as int + 1));
            assert(w.drop_last() =~= strings(command@.subrange(0, i as int)));
            assert(w.last() == command@[i as int]@);
        }
        if i > 0 {
            push_str(&mut r, " ");
        }
        push_str(&mut r, command[i].as_str());
        i = i + 1;
        proof {
            if i == 1 {
                assert(r@ =~= command@[0]@);
            }
        }
    }
    assert(command@.subrange(0, command@.len() as int) =~= command@);
    r
}

} // verus!
