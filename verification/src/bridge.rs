//! The bridge call: a state machine that supervises one request/response
//! cycle against an out-of-process worker.
//!
//! The machine makes every decision of the call: what to do when the
//! worker is spawned or cannot be, when the request is written, when an
//! output line arrives, when the channel closes, when the deadline
//! passes, and how the worker is reaped afterwards.  An unverified
//! driver owns the process and the clock: it performs each returned
//! [`Action`] and feeds the next [`Event`] back in, with the current
//! time in ticks.
//!
//! Exactly one outcome is produced per call, and it becomes available
//! only once the machine is `Done` — after the worker has been observed
//! to exit or a forced kill was issued.

use vstd::prelude::*;
use crate::wire::{
    spec_classify, classify_line, LineClass, ProgressUpdate, ProgressUpdateS, PythonResponse,
    PythonResponseS, LineClassS,
};

verus! {

/// Time bounds and knobs of one call.  Times are in abstract ticks; the
/// driver decides what a tick is (the original uses milliseconds).
#[derive(Debug, Clone, Copy, PartialEq, Eq)]
pub struct BridgeConfig {
    /// Budget for the whole call, from start to terminal response.
    pub deadline_ticks: u64,
    /// Grace period for the worker to exit voluntarily after the
    /// outcome is decided, before it is killed.
    pub cleanup_ticks: u64,
    /// How many diagnostic lines are drained after the outcome is
    /// decided.
    pub diag_limit: u64,
    /// Whether progress-shaped lines are recognised and forwarded; when
    /// false, a progress-shaped line is read as a terminal response if
    /// it has the terminal shape.
    pub forward_progress: bool,
}

/// Why a call failed.  Only these four reasons reach the caller; sink
/// failures are swallowed by the driver and never become an outcome.
#[derive(Debug, Clone, Copy, PartialEq, Eq)]
pub enum BridgeError {
    /// The worker could not be created at all.
    LaunchFailure,
    /// The request could not be written to the worker's input channel.
    WriteFailure,
    /// The deadline passed before a terminal response; carries the
    /// elapsed ticks.
    Timeout { elapsed: u64 },
    /// The output channel closed without a terminal response.
    NoResponse,
}

impl BridgeError {
    /// A short human-readable description.
    pub fn describe(&self) -> (r: String)
        ensures
            self is LaunchFailure ==> r@ == "worker could not be started"@,
            self is WriteFailure ==> r@ == "request could not be written to the worker"@,
            self is Timeout ==> r@ == "worker timed out; the input may be very large"@,
            self is NoResponse ==> r@ == "no response from worker; it may have crashed"@,
    {
        match self {
            BridgeError::LaunchFailure => "worker could not be started".to_owned(),
            BridgeError::WriteFailure => "request could not be written to the worker".to_owned(),
            BridgeError::Timeout { .. } => "worker timed out; the input may be very large".to_owned(),
            BridgeError::NoResponse => "no response from worker; it may have crashed".to_owned(),
        }
    }
}

/// Where the call stands.
#[derive(Debug, Clone, Copy, PartialEq, Eq)]
pub enum Phase {
    /// Waiting to hear whether the worker could be created.
    Launching,
    /// Worker exists; waiting to hear whether the request was written.
    Writing,
    /// Consuming output lines under the deadline.
    Reading,
    /// Outcome decided; draining a bounded number of diagnostic lines.
    Draining,
    /// Outcome decided; polling for voluntary exit within the cleanup
    /// window.
    AwaitingExit,
    /// Kill issued during reaping; one final exit check remains.
    KillConfirm,
    /// The call is over; the outcome is available.
    Done,
}

/// What the driver reports to the machine.
#[derive(Debug, Clone, PartialEq, Eq)]
pub enum Event {
    /// The worker was created.
    SpawnOk,
    /// The worker could not be created.
    SpawnFailed,
    /// The framed request was written and the input channel closed.
    WriteOk,
    /// Writing the request failed (the input channel is still closed).
    WriteFailed,
    /// One line of worker output.
    Line(Vec<u8>),
    /// The output channel closed.
    OutputClosed,
    /// No line was available within one poll interval.
    Silence,
    /// One diagnostic line was drained.
    DiagLine,
    /// The diagnostic channel closed.
    DiagClosed,
    /// An exit poll found the worker still running.
    ExitRunning,
    /// An exit poll found the worker exited.
    ExitDone,
}

pub enum EventS {
    SpawnOk,
    SpawnFailed,
    WriteOk,
    WriteFailed,
    Line(Seq<u8>),
    OutputClosed,
    Silence,
    DiagLine,
    DiagClosed,
    ExitRunning,
    ExitDone,
}

impl View for Event {
    type V = EventS;

    open spec fn view(&self) -> EventS {
        match self {
            Event::SpawnOk => EventS::SpawnOk,
            Event::SpawnFailed => EventS::SpawnFailed,
            Event::WriteOk => EventS::WriteOk,
            Event::WriteFailed => EventS::WriteFailed,
            Event::Line(l) => EventS::Line(l@),
            Event::OutputClosed => EventS::OutputClosed,
            Event::Silence => EventS::Silence,
            Event::DiagLine => EventS::DiagLine,
            Event::DiagClosed => EventS::DiagClosed,
            Event::ExitRunning => EventS::ExitRunning,
            Event::ExitDone => EventS::ExitDone,
        }
    }
}

/// What the driver must do next.
#[derive(Debug, Clone, PartialEq, Eq)]
pub enum Action {
    /// Write the framed request, then close the input channel whether or
    /// not the write succeeded; report `WriteOk`/`WriteFailed`.
    SendRequest,
    /// Read the next output line, polling at the configured granularity;
    /// report `Line`, `Silence` or `OutputClosed`.
    AwaitLine,
    /// Push this progress update to the UI sink without waiting for
    /// acknowledgment; a sink failure must be swallowed.  Then read on.
    Forward(ProgressUpdate),
    /// Force-kill the worker now, then start draining diagnostics.
    KillDrain,
    /// Read the next diagnostic line; report `DiagLine` or `DiagClosed`.
    DrainDiag,
    /// Check for process exit; report `ExitRunning` or `ExitDone`.
    PollExit,
    /// Sleep briefly, then check for process exit.
    SleepPoll,
    /// Force-kill the worker, then make one final exit check.
    KillPoll,
    /// The outcome is available; the call returns it.
    Finish,
    /// The event does not apply in this phase; nothing to do.
    Ignore,
}

pub enum ActionS {
    SendRequest,
    AwaitLine,
    Forward(ProgressUpdateS),
    KillDrain,
    DrainDiag,
    PollExit,
    SleepPoll,
    KillPoll,
    Finish,
    Ignore,
}

impl View for Action {
    type V = ActionS;

    open spec fn view(&self) -> ActionS {
        match self {
            Action::SendRequest => ActionS::SendRequest,
            Action::AwaitLine => ActionS::AwaitLine,
            Action::Forward(p) => ActionS::Forward(p@),
            Action::KillDrain => ActionS::KillDrain,
            Action::DrainDiag => ActionS::DrainDiag,
            Action::PollExit => ActionS::PollExit,
            Action::SleepPoll => ActionS::SleepPoll,
            Action::KillPoll => ActionS::KillPoll,
            Action::Finish => ActionS::Finish,
            Action::Ignore => ActionS::Ignore,
        }
    }
}

/// The machine's state, as the contracts see it.
pub struct BridgeModel {
    pub cfg: BridgeConfig,
    pub phase: Phase,
    pub start: u64,
    pub deadline_at: u64,
    pub reap_deadline: u64,
    pub diag_seen: u64,
    pub outcome: Option<Result<PythonResponseS, BridgeError>>,
    pub spawned: bool,
    pub kill_sent: bool,
    pub exit_seen: bool,
    pub forwarded: Seq<ProgressUpdateS>,
}

pub open spec fn sat_add(a: u64, b: u64) -> u64 {
    if a + b > u64::MAX {
        u64::MAX
    } else {
        (a + b) as u64
    }
}

pub open spec fn sat_sub(a: u64, b: u64) -> u64 {
    if a >= b {
        (a - b) as u64
    } else {
        0u64
    }
}

pub open spec fn init_model(cfg: BridgeConfig, now: u64) -> BridgeModel {
    BridgeModel {
        cfg,
        phase: Phase::Launching,
        start: now,
        deadline_at: sat_add(now, cfg.deadline_ticks),
        reap_deadline: 0u64,
        diag_seen: 0u64,
        outcome: None,
        spawned: false,
        kill_sent: false,
        exit_seen: false,
        forwarded: Seq::empty(),
    }
}

/// The deadline has passed.
pub open spec fn expired(m: BridgeModel, now: u64) -> bool {
    now >= m.deadline_at
}

/// Deadline expiry: decide `Timeout`, have the worker killed at once,
/// then drain and reap as on every other path.
pub open spec fn timeout_step(m: BridgeModel, now: u64) -> (BridgeModel, ActionS) {
    (
        BridgeModel {
            phase: Phase::Draining,
            outcome: Some(Err(BridgeError::Timeout { elapsed: sat_sub(now, m.start) })),
            kill_sent: true,
            ..m
        },
        ActionS::KillDrain,
    )
}

/// The transition relation: one event, observed at time `now`, yields
/// the next state and the driver's next action.
pub open spec fn spec_step(m: BridgeModel, now: u64, ev: EventS) -> (BridgeModel, ActionS) {
    match m.phase {
        Phase::Launching => match ev {
            EventS::SpawnOk => (
                BridgeModel { phase: Phase::Writing, spawned: true, ..m },
                ActionS::SendRequest,
            ),
            EventS::SpawnFailed => (
                BridgeModel {
                    phase: Phase::Done,
                    outcome: Some(Err(BridgeError::LaunchFailure)),
                    ..m
                },
                ActionS::Finish,
            ),
            _ => (m, ActionS::Ignore),
        },
        Phase::Writing => match ev {
            EventS::WriteOk => (BridgeModel { phase: Phase::Reading, ..m }, ActionS::AwaitLine),
            EventS::WriteFailed => (
                BridgeModel {
                    phase: Phase::Draining,
                    outcome: Some(Err(BridgeError::WriteFailure)),
                    ..m
                },
                ActionS::DrainDiag,
            ),
            _ => (m, ActionS::Ignore),
        },
        Phase::Reading => match ev {
            EventS::Line(l) => if expired(m, now) {
                timeout_step(m, now)
            } else {
                match spec_classify(l, m.cfg.forward_progress) {
                    LineClassS::Progress(p) => (
                        BridgeModel { forwarded: m.forwarded.push(p), ..m },
                        ActionS::Forward(p),
                    ),
                    LineClassS::Terminal(t) => (
                        BridgeModel { phase: Phase::Draining, outcome: Some(Ok(t)), ..m },
                        ActionS::DrainDiag,
                    ),
                    LineClassS::Noise => (m, ActionS::AwaitLine),
                }
            },
            EventS::Silence => if expired(m, now) {
                timeout_step(m, now)
            } else {
                (m, ActionS::AwaitLine)
            },
            EventS::OutputClosed => if expired(m, now) {
                timeout_step(m, now)
            } else {
                (
                    BridgeModel {
                        phase: Phase::Draining,
                        outcome: Some(Err(BridgeError::NoResponse)),
                        ..m
                    },
                    ActionS::DrainDiag,
                )
            },
            _ => (m, ActionS::Ignore),
        },
        Phase::Draining => match ev {
            EventS::DiagLine => if sat_add(m.diag_seen, 1) < m.cfg.diag_limit {
                (
                    BridgeModel { diag_seen: sat_add(m.diag_seen, 1), ..m },
                    ActionS::DrainDiag,
                )
            } else {
                (
                    BridgeModel {
                        phase: Phase::AwaitingExit,
                        diag_seen: sat_add(m.diag_seen, 1),
                        reap_deadline: sat_add(now, m.cfg.cleanup_ticks),
                        ..m
                    },
                    ActionS::PollExit,
                )
            },
            EventS::DiagClosed => (
                BridgeModel {
                    phase: Phase::AwaitingExit,
                    reap_deadline: sat_add(now, m.cfg.cleanup_ticks),
                    ..m
                },
                ActionS::PollExit,
            ),
            _ => (m, ActionS::Ignore),
        },
        Phase::AwaitingExit => match ev {
            EventS::ExitDone => (
                BridgeModel { phase: Phase::Done, exit_seen: true, ..m },
                ActionS::Finish,
            ),
            EventS::ExitRunning => if now >= m.reap_deadline {
                (
                    BridgeModel { phase: Phase::KillConfirm, kill_sent: true, ..m },
                    ActionS::KillPoll,
                )
            } else {
                (m, ActionS::SleepPoll)
            },
            _ => (m, ActionS::Ignore),
        },
        Phase::KillConfirm => match ev {
            EventS::ExitDone => (
                BridgeModel { phase: Phase::Done, exit_seen: true, ..m },
                ActionS::Finish,
            ),
            EventS::ExitRunning => (BridgeModel { phase: Phase::Done, ..m }, ActionS::Finish),
            _ => (m, ActionS::Ignore),
        },
        Phase::Done => (m, ActionS::Ignore),
    }
}

pub open spec fn outcome_view(o: Option<Result<PythonResponse, BridgeError>>) -> Option<
    Result<PythonResponseS, BridgeError>,
> {
    match o {
        None => None,
        Some(Ok(t)) => Some(Ok(t@)),
        Some(Err(e)) => Some(Err(e)),
    }
}

/// One bridge call.  Owns no process itself: it tells the driver what
/// to do and tracks what the driver reports, including whether the
/// worker was seen to exit or had to be killed.
pub struct Bridge {
    pub cfg: BridgeConfig,
    pub phase: Phase,
    pub start: u64,
    pub deadline_at: u64,
    pub reap_deadline: u64,
    pub diag_seen: u64,
    pub outcome: Option<Result<PythonResponse, BridgeError>>,
    pub spawned: bool,
    pub kill_sent: bool,
    pub exit_seen: bool,
    pub forwarded: Ghost<Seq<ProgressUpdateS>>,
}

impl View for Bridge {
    type V = BridgeModel;

    open spec fn view(&self) -> BridgeModel {
        BridgeModel {
            cfg: self.cfg,
            phase: self.phase,
            start: self.start,
            deadline_at: self.deadline_at,
            reap_deadline: self.reap_deadline,
            diag_seen: self.diag_seen,
            outcome: outcome_view(self.outcome),
            spawned: self.spawned,
            kill_sent: self.kill_sent,
            exit_seen: self.exit_seen,
            forwarded: self.forwarded@,
        }
    }
}

fn sat_add_exec(a: u64, b: u64) -> (r: u64)
    ensures
        r == sat_add(a, b),
{
    if a <= u64::MAX - b {
        a + b
    } else {
        u64::MAX
    }
}

fn sat_sub_exec(a: u64, b: u64) -> (r: u64)
    ensures
        r == sat_sub(a, b),
{
    if a >= b {
        a - b
    } else {
        0
    }
}

impl Bridge {
    /// Starts a fresh call at time `now`.  Nothing is shared with any
    /// other call: the state is a function of the configuration and the
    /// start time alone.
    pub fn new(cfg: BridgeConfig, now: u64) -> (b: Bridge)
        ensures
            b@ == init_model(cfg, now),
    {
        Bridge {
            cfg,
            phase: Phase::Launching,
            start: now,
            deadline_at: sat_add_exec(now, cfg.deadline_ticks),
            reap_deadline: 0,
            diag_seen: 0,
            outcome: None,
            spawned: false,
            kill_sent: false,
            exit_seen: false,
            forwarded: Ghost(Seq::empty()),
        }
    }

    pub fn phase(&self) -> (p: Phase)
        ensures
            p == self@.phase,
    {
        self.phase
    }

    /// The decided outcome; `Some` exactly once the machine is past
    /// `Reading`.
    pub fn outcome(&self) -> (o: &Option<Result<PythonResponse, BridgeError>>)
        ensures
            outcome_view(*o) == self@.outcome,
    {
        &self.outcome
    }

    /// Feeds one event, observed at time `now`, and returns what to do
    /// next.  The new state and the action are exactly those of the
    /// transition relation [`spec_step`].
    pub fn step(&mut self, now: u64, ev: Event) -> (a: Action)
        ensures
            final(self)@ == spec_step(old(self)@, now, ev@).0,
            a@ == spec_step(old(self)@, now, ev@).1,
    {
        match self.phase {
            Phase::Launching => match ev {
                Event::SpawnOk => {
                    self.phase = Phase::Writing;
                    self.spawned = true;
                    Action::SendRequest
                },
                Event::SpawnFailed => {
                    self.phase = Phase::Done;
                    self.outcome = Some(Err(BridgeError::LaunchFailure));
                    Action::Finish
                },
                _ => Action::Ignore,
            },
            Phase::Writing => match ev {
                Event::WriteOk => {
                    self.phase = Phase::Reading;
                    Action::AwaitLine
                },
                Event::WriteFailed => {
                    self.phase = Phase::Draining;
                    self.outcome = Some(Err(BridgeError::WriteFailure));
                    Action::DrainDiag
                },
                _ => Action::Ignore,
            },
            Phase::Reading => match ev {
                Event::Line(l) => {
                    if now >= self.deadline_at {
                        self.phase = Phase::Draining;
                        self.outcome = Some(
                            Err(BridgeError::Timeout { elapsed: sat_sub_exec(now, self.start) }),
                        );
                        self.kill_sent = true;
                        Action::KillDrain
                    } else {
                        match classify_line(&l, self.cfg.forward_progress) {
                            LineClass::Progress(p) => {
                                proof {
                                    self.forwarded@ = self.forwarded@.push(p@);
                                }
                                Action::Forward(p)
                            },
                            LineClass::Terminal(t) => {
                                self.phase = Phase::Draining;
                                self.outcome = Some(Ok(t));
                                Action::DrainDiag
                            },
                            LineClass::Noise => Action::AwaitLine,
                        }
                    }
                },
                Event::Silence => {
                    if now >= self.deadline_at {
                        self.phase = Phase::Draining;
                        self.outcome = Some(
                            Err(BridgeError::Timeout { elapsed: sat_sub_exec(now, self.start) }),
                        );
                        self.kill_sent = true;
                        Action::KillDrain
                    } else {
                        Action::AwaitLine
                    }
                },
                Event::OutputClosed => {
                    if now >= self.deadline_at {
                        self.phase = Phase::Draining;
                        self.outcome = Some(
                            Err(BridgeError::Timeout { elapsed: sat_sub_exec(now, self.start) }),
                        );
                        self.kill_sent = true;
                        Action::KillDrain
                    } else {
                        self.phase = Phase::Draining;
                        self.outcome = Some(Err(BridgeError::NoResponse));
                        Action::DrainDiag
                    }
                },
                _ => Action::Ignore,
            },
            Phase::Draining => match ev {
                Event::DiagLine => {
                    let seen = sat_add_exec(self.diag_seen, 1);
                    self.diag_seen = seen;
                    if seen < self.cfg.diag_limit {
                        Action::DrainDiag
                    } else {
                        self.phase = Phase::AwaitingExit;
                        self.reap_deadline = sat_add_exec(now, self.cfg.cleanup_ticks);
                        Action::PollExit
                    }
                },
                Event::DiagClosed => {
                    self.phase = Phase::AwaitingExit;
                    self.reap_deadline = sat_add_exec(now, self.cfg.cleanup_ticks);
                    Action::PollExit
                },
                _ => Action::Ignore,
            },
            Phase::AwaitingExit => match ev {
                Event::ExitDone => {
                    self.phase = Phase::Done;
                    self.exit_seen = true;
                    Action::Finish
                },
                Event::ExitRunning => {
                    if now >= self.reap_deadline {
                        self.phase = Phase::KillConfirm;
                        self.kill_sent = true;
                        Action::KillPoll
                    } else {
                        Action::SleepPoll
                    }
                },
                _ => Action::Ignore,
            },
            Phase::KillConfirm => match ev {
                Event::ExitDone => {
                    self.phase = Phase::Done;
                    self.exit_seen = true;
                    Action::Finish
                },
                Event::ExitRunning => {
                    self.phase = Phase::Done;
                    Action::Finish
                },
                _ => Action::Ignore,
            },
            Phase::Done => Action::Ignore,
        }
    }
}

} // verus!
