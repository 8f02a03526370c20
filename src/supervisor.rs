//! The worker supervisor's decisions: the status a log line signals, the
//! bounded buffer of recent log lines, reconciliation with what the
//! operating system reports about the process, and the stop procedure
//! (graceful termination, then a forced kill after a grace period).
//! Spawning, signalling and waiting happen outside the library.

use crate::primitives::{lower_of, lowercase};
use crate::text::{concat2, contains, owned, seq_contains};
use vstd::prelude::*;

verus! {

/// How many recent log lines are kept.
pub const LOG_CAP: usize = 300;

/// How long a stopping process may take to exit after the graceful
/// termination request before it is killed.
pub const STOP_GRACE_MS: u64 = 5_000;

/// How long a started process may stay silent before it is taken to run.
pub const START_FALLBACK_MS: u64 = 5_000;

/// The worker's status.
#[derive(Clone, Copy, Debug, PartialEq, Eq, Structural)]
pub enum NodeStatus {
    Stopped,
    Starting,
    Running,
    Reconnecting,
    Disconnected,
    Error,
}

/// The wire name of a status.
pub open spec fn node_status_text(s: NodeStatus) -> Seq<char> {
    match s {
        NodeStatus::Stopped => "stopped"@,
        NodeStatus::Starting => "starting"@,
        NodeStatus::Running => "running"@,
        NodeStatus::Reconnecting => "reconnecting"@,
        NodeStatus::Disconnected => "disconnected"@,
        NodeStatus::Error => "error"@,
    }
}

impl NodeStatus {
    /// The wire name of this status.
    pub fn as_str(&self) -> (r: &'static str)
        ensures
            r@ == node_status_text(*self),
    {
        match self {
            NodeStatus::Stopped => "stopped",
            NodeStatus::Starting => "starting",
            NodeStatus::Running => "running",
            NodeStatus::Reconnecting => "reconnecting",
            NodeStatus::Disconnected => "disconnected",
            NodeStatus::Error => "error",
        }
    }
}

/// The status a lower-cased log line signals, if any; earlier keywords
/// win.
pub open spec fn status_signal(lower: Seq<char>) -> Option<NodeStatus> {
    if seq_contains(lower, "connected to gateway"@) || seq_contains(lower, "node is running"@) {
        Some(NodeStatus::Running)
    } else if seq_contains(lower, "reconnecting"@) {
        Some(NodeStatus::Reconnecting)
    } else if seq_contains(lower, "disconnected"@) {
        Some(NodeStatus::Disconnected)
    } else if seq_contains(lower, "error"@) || seq_contains(lower, "fatal"@) || seq_contains(lower, "failed"@) {
        Some(NodeStatus::Error)
    } else {
        None
    }
}

/// The status an already lower-cased log line signals.
pub fn classify_lowered(lower: &str) -> (r: Option<NodeStatus>)
    ensures
        r == status_signal(lower@),
{
    if contains(lower, "connected to gateway") || contains(lower, "node is running") {
        Some(NodeStatus::Running)
    } else if contains(lower, "reconnecting") {
        Some(NodeStatus::Reconnecting)
    } else if contains(lower, "disconnected") {
        Some(NodeStatus::Disconnected)
    } else if contains(lower, "error") || contains(lower, "fatal") || contains(lower, "failed") {
        Some(NodeStatus::Error)
    } else {
        None
    }
}

/// Whether a lower-cased log line shows the gateway refusing the
/// handshake parameters, which usually means an older gateway.
pub fn signals_old_gateway(lower: &str) -> (r: bool)
    ensures
        r == seq_contains(lower@, "invalid connect params"@),
{
    contains(lower, "invalid connect params")
}

/// What a log line of the worker means: the status it signals, and whether
/// to add the hint about an older gateway.
pub fn log_line_effects(line: &str) -> (r: (Option<NodeStatus>, bool))
    ensures
        r.0 == status_signal(lower_of(line@)),
        r.1 == seq_contains(lower_of(line@), "invalid connect params"@),
{
    let lower = lowercase(line);
    (classify_lowered(lower.as_str()), signals_old_gateway(lower.as_str()))
}

/// The hint logged when the gateway refused the handshake parameters.
pub fn old_gateway_hint() -> (r: String)
    ensures
        r@ == "Warning: Gateway rejected connect params — the running gateway may be an older version. Update with: npm install -g openclaw@latest"@,
{
    owned(
        "Warning: Gateway rejected connect params — the running gateway may be an older version. Update with: npm install -g openclaw@latest",
    )
}

/// The prefix a captured log line is stored with: `[stream] line`.
pub fn tagged_line(stream: &str, line: &str) -> (r: String)
    ensures
        r@ == seq!['['] + stream@ + seq![']', ' '] + line@,
{
    proof {
        reveal_strlit("[");
        reveal_strlit("] ");
    }
    let mut s = owned("[");
    s.append(stream);
    s.append("] ");
    s.append(line);
    s
}

/// The texts of a list of strings.
pub open spec fn views(v: Seq<String>) -> Seq<Seq<char>> {
    v.map_values(|s: String| s@)
}

/// The most recent log lines, oldest first, at most `LOG_CAP` of them.
pub struct LogRing {
    lines: Vec<String>,
}

impl View for LogRing {
    type V = Seq<Seq<char>>;

    closed spec fn view(&self) -> Seq<Seq<char>> {
        views(self.lines@)
    }
}

/// The buffer `v` after `line` was appended: the oldest line drops out
/// when the buffer is full.
pub open spec fn ring_push(v: Seq<Seq<char>>, line: Seq<char>) -> Seq<Seq<char>> {
    if v.len() >= LOG_CAP {
        v.drop_first().push(line)
    } else {
        v.push(line)
    }
}

impl LogRing {
    /// An empty buffer.
    pub fn new() -> (r: LogRing)
        ensures
            r@ == Seq::<Seq<char>>::empty(),
    {
        let r = LogRing { lines: Vec::new() };
        assert(r@ =~= Seq::<Seq<char>>::empty());
        r
    }

    /// Appends a line, dropping the oldest one when the buffer is full.
    pub fn push(&mut self, line: String)
        requires
            old(self)@.len() <= LOG_CAP,
        ensures
            final(self)@ == ring_push(old(self)@, line@),
            final(self)@.len() <= LOG_CAP,
    {
        let ghost before = self@;
        if self.lines.len() >= LOG_CAP {
            let ghost pre = self.lines@;
            self.lines.remove(0);
            assert(views(self.lines@) =~= views(pre).drop_first());
        }
        let ghost mid = self.lines@;
        let ghost lv = line@;
        self.lines.push(line);
        assert(views(self.lines@) =~= views(mid).push(lv));
    }

    /// The number of lines held.
    pub fn len(&self) -> (r: usize)
        ensures
            r == self@.len(),
    {
        self.lines.len()
    }

    /// A copy of the lines, oldest first.
    pub fn lines(&self) -> (r: Vec<String>)
        ensures
            views(r@) == self@,
    {
        let out = crate::text::clone_strings(&self.lines);
        out
    }
}

/// What the operating system reports about the worker process.
#[derive(Clone, Debug)]
pub enum ProcessProbe {
    /// It is still running.
    Running,
    /// It exited; `status` describes the exit status.
    Exited { success: bool, status: String },
    /// Asking failed with this reason.
    Failed(String),
}

/// The supervisor's record of the worker.
pub struct RuntimeState {
    /// A worker process is held (spawned and not yet reaped).
    pub has_child: bool,
    pub logs: LogRing,
    pub last_error: Option<String>,
    pub node_status: Option<NodeStatus>,
}

impl RuntimeState {
    /// No worker, no logs, no status yet.
    pub fn new() -> (r: RuntimeState)
        ensures
            !r.has_child,
            r.logs@ == Seq::<Seq<char>>::empty(),
            r.last_error is None,
            r.node_status is None,
    {
        RuntimeState { has_child: false, logs: LogRing::new(), last_error: None, node_status: None }
    }

    /// Brings the record in line with what the operating system reports
    /// about the held process. Returns whether the process still runs, and
    /// the line to log when it turned out to have exited.
    pub fn refresh_process_state(&mut self, probe: &ProcessProbe) -> (r: (bool, Option<String>))
        ensures
            final(self).logs@ == old(self).logs@,
            !old(self).has_child ==> r == (false, None::<String>) && final(self).has_child == old(self).has_child
                && final(self).last_error == old(self).last_error && final(self).node_status == old(self).node_status,
            old(self).has_child && probe is Running ==> r == (true, None::<String>) && final(self).has_child
                && final(self).last_error == old(self).last_error && final(self).node_status == old(self).node_status,
            old(self).has_child && !(probe is Running) ==> !r.0 && !final(self).has_child && r.1 is Some,
            old(self).has_child ==> match *probe {
                ProcessProbe::Running => true,
                ProcessProbe::Exited { success, status } => if success {
                    &&& final(self).node_status == Some(NodeStatus::Stopped)
                    &&& final(self).last_error is None
                    &&& r.1->0@ == "node host exited cleanly"@
                } else {
                    &&& final(self).node_status == Some(NodeStatus::Error)
                    &&& r.1->0@ == "node host exited with status "@ + status@
                    &&& final(self).last_error == r.1
                },
                ProcessProbe::Failed(reason) => {
                    &&& final(self).node_status == Some(NodeStatus::Error)
                    &&& r.1->0@ == "failed to inspect node host process: "@ + reason@
                    &&& final(self).last_error == r.1
                },
            },
    {
        if !self.has_child {
            return (false, None);
        }
        match probe {
            ProcessProbe::Running => (true, None),
            ProcessProbe::Exited { success, status } => {
                self.has_child = false;
                if *success {
                    self.node_status = Some(NodeStatus::Stopped);
                    self.last_error = None;
                    (false, Some(owned("node host exited cleanly")))
                } else {
                    let msg = concat2("node host exited with status ", status.as_str());
                    self.last_error = Some(msg.clone());
                    self.node_status = Some(NodeStatus::Error);
                    (false, Some(msg))
                }
            },
            ProcessProbe::Failed(reason) => {
                let msg = concat2("failed to inspect node host process: ", reason.as_str());
                self.has_child = false;
                self.last_error = Some(msg.clone());
                self.node_status = Some(NodeStatus::Error);
                (false, Some(msg))
            },
        }
    }

    /// A start begins: the status becomes `Starting`.
    pub fn mark_starting(&mut self)
        ensures
            final(self).node_status == Some(NodeStatus::Starting),
            final(self).has_child == old(self).has_child,
            final(self).last_error == old(self).last_error,
            final(self).logs@ == old(self).logs@,
    {
        self.node_status = Some(NodeStatus::Starting);
    }

    /// The worker was spawned.
    pub fn child_started(&mut self)
        ensures
            final(self).has_child,
            final(self).last_error is None,
            final(self).node_status == old(self).node_status,
            final(self).logs@ == old(self).logs@,
    {
        self.has_child = true;
        self.last_error = None;
    }

    /// The start fallback: a worker still alive after the quiet period
    /// while still `Starting` is taken to run. Returns whether the status
    /// changed.
    pub fn promote_if_starting(&mut self, alive: bool) -> (r: bool)
        ensures
            r == (alive && old(self).node_status == Some(NodeStatus::Starting)),
            r ==> final(self).node_status == Some(NodeStatus::Running),
            !r ==> final(self).node_status == old(self).node_status,
            final(self).has_child == old(self).has_child,
            final(self).last_error == old(self).last_error,
            final(self).logs@ == old(self).logs@,
    {
        if alive && self.node_status == Some(NodeStatus::Starting) {
            self.node_status = Some(NodeStatus::Running);
            true
        } else {
            false
        }
    }

    /// A status signalled by the worker's log.
    pub fn apply_signal(&mut self, signal: Option<NodeStatus>)
        ensures
            signal is Some ==> final(self).node_status == signal,
            signal is None ==> final(self).node_status == old(self).node_status,
            final(self).has_child == old(self).has_child,
            final(self).last_error == old(self).last_error,
            final(self).logs@ == old(self).logs@,
    {
        if signal.is_some() {
            self.node_status = signal;
        }
    }

    /// The held process has been handed over to be stopped.
    pub fn release_child(&mut self)
        ensures
            !final(self).has_child,
            final(self).node_status == old(self).node_status,
            final(self).last_error == old(self).last_error,
            final(self).logs@ == old(self).logs@,
    {
        self.has_child = false;
    }

    /// A stop ended, whatever it found: the status is `Stopped`. No error
    /// is recorded.
    pub fn finish_stop(&mut self)
        ensures
            final(self).node_status == Some(NodeStatus::Stopped),
            final(self).has_child == old(self).has_child,
            final(self).last_error == old(self).last_error,
            final(self).logs@ == old(self).logs@,
    {
        self.node_status = Some(NodeStatus::Stopped);
    }

    /// The status to report: the recorded one, else whether the worker runs.
    pub fn reported_status(&self, running: bool) -> (r: NodeStatus)
        ensures
            self.node_status is Some ==> r == self.node_status->0,
            self.node_status is None ==> r == (if running { NodeStatus::Running } else { NodeStatus::Stopped }),
    {
        match self.node_status {
            Some(s) => s,
            None => if running { NodeStatus::Running } else { NodeStatus::Stopped },
        }
    }
}

/// What a stopping process shows at one poll.
#[derive(Clone, Copy, Debug, PartialEq, Eq, Structural)]
pub enum StopProbe {
    Exited,
    Alive,
    /// Asking the operating system failed.
    Failed,
}

/// What the stop procedure does next.
#[derive(Clone, Copy, Debug, PartialEq, Eq, Structural)]
pub enum StopStep {
    /// The process is gone.
    Done,
    /// Poll again shortly.
    Wait,
    /// Kill it and reap it.
    ForceKill,
}

/// The step after a poll `elapsed_ms` after graceful termination was
/// requested: an exited process is done; one still alive when the grace
/// period is over, or one that cannot be asked about, is killed.
pub open spec fn stop_step_spec(elapsed_ms: u64, probe: StopProbe) -> StopStep {
    match probe {
        StopProbe::Exited => StopStep::Done,
        StopProbe::Alive => if elapsed_ms >= STOP_GRACE_MS { StopStep::ForceKill } else { StopStep::Wait },
        StopProbe::Failed => StopStep::ForceKill,
    }
}

/// Decides the next step of the stop procedure.
pub fn stop_poll(elapsed_ms: u64, probe: StopProbe) -> (r: StopStep)
    ensures
        r == stop_step_spec(elapsed_ms, probe),
{
    match probe {
        StopProbe::Exited => StopStep::Done,
        StopProbe::Alive => if elapsed_ms >= STOP_GRACE_MS {
            StopStep::ForceKill
        } else {
            StopStep::Wait
        },
        StopProbe::Failed => StopStep::ForceKill,
    }
}

} // verus!
