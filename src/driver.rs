//! Drives one request over a callback-based connection to the audio service.
//!
//! The caller owns the connection and its event loop. After each turn of the loop
//! it reports what it saw as an `Observation`; the driver answers with the next
//! `Action`. Every run ends in `Deliver` or `Fail` once the clock passes the
//! stage's time limit, whatever the service does.
use crate::error::AudioError;
use vstd::prelude::*;

verus! {

/// Longest wait, in milliseconds, for the connection to become ready.
pub const CONNECT_LIMIT_MS: u64 = 500;

/// Longest wait, in milliseconds, for an enumeration to complete.
pub const ENUMERATION_LIMIT_MS: u64 = 1200;

/// Longest wait, in milliseconds, for a single query or command.
pub const QUERY_LIMIT_MS: u64 = 1000;

/// The state of the connection, as the client library reports it.
#[derive(Clone, Copy, Debug, PartialEq, Eq, Structural)]
pub enum LinkState {
    /// Not ready yet: unconnected, connecting, authorizing or naming.
    Pending,
    /// Ready for requests.
    Ready,
    /// Failed or terminated.
    Failed,
}

/// The state of the request in flight.
#[derive(Clone, Copy, Debug, PartialEq, Eq, Structural)]
pub enum OpState {
    Running,
    Done,
    Cancelled,
}

/// What the request waits for.
#[derive(Clone, Copy, Debug, PartialEq, Eq, Structural)]
pub enum WaitMode {
    /// One delivered result answers the request (a lookup or a query).
    FirstResult,
    /// Every result until the enumeration completes (a listing).
    AllResults,
    /// Completion of the request with the service reporting success (a command).
    Completion,
}

/// Where a run stands.
#[derive(Clone, Copy, Debug, PartialEq, Eq, Structural)]
pub enum Stage {
    /// Waiting for the connection to become ready.
    Connecting,
    /// The request is in flight.
    Awaiting,
    /// The request ended; one last look at the result channel decides.
    Draining,
    /// The run has ended.
    Finished,
}

/// What the caller saw after one turn of the event loop.
#[derive(Clone, Copy, Debug, PartialEq, Eq, Structural)]
pub struct Observation {
    /// The event loop turned without quitting or failing.
    pub pumped: bool,
    /// The connection's state.
    pub link: LinkState,
    /// The request's state; not looked at before the request is submitted.
    pub op: OpState,
    /// The result channel holds a result.
    pub has_result: bool,
    /// The request's completion callback reported success; looked at only for
    /// a command.
    pub succeeded: bool,
    /// The caller's monotonic clock, in milliseconds.
    pub now_ms: u64,
}

/// What the caller does next.
#[derive(Clone, Copy, Debug, PartialEq, Eq, Structural)]
pub enum Action {
    /// Turn the event loop once more and observe.
    Pump,
    /// Submit the request, then turn the event loop and observe.
    Submit,
    /// Look at the result channel once more without turning the loop, and observe.
    Recheck,
    /// The run succeeded: take what the result channel holds.
    Deliver,
    /// The run failed with this error.
    Fail(AudioError),
}

/// The state of one run.
#[derive(Clone, Copy, Debug, PartialEq, Eq, Structural)]
pub struct Driver {
    pub mode: WaitMode,
    pub stage: Stage,
    /// While draining: whether the request ran out of time rather than ending.
    pub timed_out: bool,
    /// When the current stage began, on the caller's clock.
    pub stage_start_ms: u64,
    pub connect_limit_ms: u64,
    pub request_limit_ms: u64,
}

/// The stage's time limit has passed at `now`.
pub open spec fn expired(start: u64, limit: u64, now: u64) -> bool {
    now - start > limit
}

/// The request has ended, one way or the other.
pub open spec fn op_ended(op: OpState) -> bool {
    op == OpState::Done || op == OpState::Cancelled
}

/// The time limit for a request that waits in `mode`.
pub open spec fn request_limit(mode: WaitMode) -> u64 {
    if mode == WaitMode::AllResults {
        ENUMERATION_LIMIT_MS
    } else {
        QUERY_LIMIT_MS
    }
}

/// One transition of the driver: the next state and what the caller does.
pub open spec fn next_step(d: Driver, o: Observation) -> (Driver, Action) {
    let finish = Driver { stage: Stage::Finished, ..d };
    match d.stage {
        Stage::Connecting => {
            if !o.pumped || o.link == LinkState::Failed {
                (finish, Action::Fail(AudioError::ConnectionError))
            } else if o.link == LinkState::Ready {
                (Driver { stage: Stage::Awaiting, stage_start_ms: o.now_ms, ..d }, Action::Submit)
            } else if expired(d.stage_start_ms, d.connect_limit_ms, o.now_ms) {
                (finish, Action::Fail(AudioError::ConnectionError))
            } else {
                (d, Action::Pump)
            }
        },
        Stage::Awaiting => {
            if !o.pumped {
                (finish, Action::Fail(AudioError::ConnectionError))
            } else if d.mode == WaitMode::FirstResult && o.has_result {
                (finish, Action::Deliver)
            } else if op_ended(o.op) {
                if d.mode == WaitMode::FirstResult {
                    (Driver { stage: Stage::Draining, timed_out: false, ..d }, Action::Recheck)
                } else if o.op == OpState::Done && (d.mode == WaitMode::AllResults || o.succeeded) {
                    (finish, Action::Deliver)
                } else {
                    (finish, Action::Fail(AudioError::ConnectionError))
                }
            } else if expired(d.stage_start_ms, d.request_limit_ms, o.now_ms) {
                match d.mode {
                    WaitMode::FirstResult => (
                        Driver { stage: Stage::Draining, timed_out: true, ..d },
                        Action::Recheck,
                    ),
                    WaitMode::AllResults => (finish, Action::Deliver),
                    WaitMode::Completion => (finish, Action::Fail(AudioError::Timeout)),
                }
            } else {
                (d, Action::Pump)
            }
        },
        Stage::Draining => {
            if o.has_result {
                (finish, Action::Deliver)
            } else if d.timed_out {
                (finish, Action::Fail(AudioError::Timeout))
            } else {
                (finish, Action::Fail(AudioError::NotFound))
            }
        },
        Stage::Finished => (d, Action::Fail(AudioError::ConnectionError)),
    }
}

impl Driver {
    /// A run that waits in `mode`, starting at `now_ms` on the caller's clock.
    pub fn new(mode: WaitMode, now_ms: u64) -> (r: Driver)
        ensures
            r == (Driver {
                mode,
                stage: Stage::Connecting,
                timed_out: false,
                stage_start_ms: now_ms,
                connect_limit_ms: CONNECT_LIMIT_MS,
                request_limit_ms: request_limit(mode),
            }),
    {
        let request_limit_ms = match mode {
            WaitMode::AllResults => ENUMERATION_LIMIT_MS,
            _ => QUERY_LIMIT_MS,
        };
        Driver {
            mode,
            stage: Stage::Connecting,
            timed_out: false,
            stage_start_ms: now_ms,
            connect_limit_ms: CONNECT_LIMIT_MS,
            request_limit_ms,
        }
    }

    /// Whether the stage's time limit has passed at `now_ms`.
    fn is_expired(&self, limit: u64, now_ms: u64) -> (r: bool)
        ensures
            r == expired(self.stage_start_ms, limit, now_ms),
    {
        now_ms > self.stage_start_ms && now_ms - self.stage_start_ms > limit
    }

    /// Takes in one observation and says what the caller does next.
    /// A driver that has finished drives nothing more: it answers
    /// `Fail(ConnectionError)` and stays finished.
    pub fn step(&mut self, o: Observation) -> (r: Action)
        ensures
            (*final(self), r) == next_step(*old(self), o),
    {
        match self.stage {
            Stage::Connecting => {
                if !o.pumped || o.link == LinkState::Failed {
                    self.stage = Stage::Finished;
                    Action::Fail(AudioError::ConnectionError)
                } else if o.link == LinkState::Ready {
                    self.stage = Stage::Awaiting;
                    self.stage_start_ms = o.now_ms;
                    Action::Submit
                } else if self.is_expired(self.connect_limit_ms, o.now_ms) {
                    self.stage = Stage::Finished;
                    Action::Fail(AudioError::ConnectionError)
                } else {
                    Action::Pump
                }
            },
            Stage::Awaiting => {
                if !o.pumped {
                    self.stage = Stage::Finished;
                    Action::Fail(AudioError::ConnectionError)
                } else if self.mode == WaitMode::FirstResult && o.has_result {
                    self.stage = Stage::Finished;
                    Action::Deliver
                } else if o.op == OpState::Done || o.op == OpState::Cancelled {
                    if self.mode == WaitMode::FirstResult {
                        self.stage = Stage::Draining;
                        self.timed_out = false;
                        Action::Recheck
                    } else if o.op == OpState::Done && (self.mode == WaitMode::AllResults
                        || o.succeeded) {
                        self.stage = Stage::Finished;
                        Action::Deliver
                    } else {
                        self.stage = Stage::Finished;
                        Action::Fail(AudioError::ConnectionError)
                    }
                } else if self.is_expired(self.request_limit_ms, o.now_ms) {
                    match self.mode {
                        WaitMode::FirstResult => {
                            self.stage = Stage::Draining;
                            self.timed_out = true;
                            Action::Recheck
                        },
                        WaitMode::AllResults => {
                            self.stage = Stage::Finished;
                            Action::Deliver
                        },
                        WaitMode::Completion => {
                            self.stage = Stage::Finished;
                            Action::Fail(AudioError::Timeout)
                        },
                    }
                } else {
                    Action::Pump
                }
            },
            Stage::Draining => {
                self.stage = Stage::Finished;
                if o.has_result {
                    Action::Deliver
                } else if self.timed_out {
                    Action::Fail(AudioError::Timeout)
                } else {
                    Action::Fail(AudioError::NotFound)
                }
            },
            Stage::Finished => Action::Fail(AudioError::ConnectionError),
        }
    }
}

/// A run never keeps waiting once its stage's time limit has passed: the driver
/// then asks for no further turn of the event loop.
pub proof fn lemma_no_wait_past_limit(d: Driver, o: Observation)
    requires
        d.stage == Stage::Connecting ==> expired(d.stage_start_ms, d.connect_limit_ms, o.now_ms),
        d.stage == Stage::Awaiting ==> expired(d.stage_start_ms, d.request_limit_ms, o.now_ms),
    ensures
        next_step(d, o).1 != Action::Pump,
{
}

/// A last look at the result channel always ends the run.
pub proof fn lemma_draining_ends(d: Driver, o: Observation)
    requires
        d.stage == Stage::Draining,
    ensures
        next_step(d, o).0.stage == Stage::Finished,
        next_step(d, o).1 is Deliver || next_step(d, o).1 is Fail,
{
}

/// With no reachable audio service (the connection fails, the event loop
/// stops, or the connection is still not ready when its time limit has passed)
/// the run fails at once with a connection error.
pub proof fn lemma_unreachable_service_fails(d: Driver, o: Observation)
    requires
        d.stage == Stage::Connecting,
        o.link != LinkState::Ready || !o.pumped,
        o.link == LinkState::Failed || !o.pumped || expired(
            d.stage_start_ms,
            d.connect_limit_ms,
            o.now_ms,
        ),
    ensures
        next_step(d, o).0.stage == Stage::Finished,
        next_step(d, o).1 == Action::Fail(AudioError::ConnectionError),
{
}

/// Nothing is delivered before the request has been submitted.
pub proof fn lemma_no_delivery_while_connecting(d: Driver, o: Observation)
    requires
        d.stage == Stage::Connecting,
    ensures
        next_step(d, o).1 != Action::Deliver,
        next_step(d, o).1 == Action::Submit ==> next_step(d, o).0.stage == Stage::Awaiting
            && next_step(d, o).0.stage_start_ms == o.now_ms,
{
}

/// A command succeeds only when its request completes and the service reports
/// success; a cancelled or rejected command, or a cancelled enumeration, fails
/// with a connection error.
pub proof fn lemma_failed_command_not_delivered(d: Driver, o: Observation)
    requires
        d.stage == Stage::Awaiting,
        d.mode != WaitMode::FirstResult,
        o.pumped,
        o.op == OpState::Cancelled || (o.op == OpState::Done && d.mode == WaitMode::Completion
            && !o.succeeded),
    ensures
        next_step(d, o) == (
            Driver { stage: Stage::Finished, ..d },
            Action::Fail(AudioError::ConnectionError),
        ),
{
}

} // verus!
