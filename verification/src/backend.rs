//! # Supported NAO backends
//!
//! What a backend of the NAO has to know and to decide, apart from the transport itself: the
//! wire codec of `LoLA` in [`lola`], and here the rule by which a connection is tried again.
//!
//! Getting a connection is a walk through [`ConnectionState`]. A backend performs the
//! attempts and the waiting, and asks [`ConnectionState::step`] after each attempt what to do
//! next. The walk makes at most one attempt more than the retries it was granted, waits
//! between two attempts and never after the last one, and ends with the first success or with
//! the failure of the last attempt.

pub mod lola;

pub use lola::{LolaControlMsg, LolaNaoState};

use crate::{Error, HardwareInfo, NaoBackend};
use vstd::prelude::*;

verus! {

/// Trait that introduces [`ReadHardwareInfo::read_hardware_info`] to a type that implements
/// [`NaoBackend`].
pub trait ReadHardwareInfo: NaoBackend {
    /// Reads the [`HardwareInfo`] of the NAO.
    ///
    /// The hardware info includes serial numbers and versions of the physical parts, which can
    /// be useful for finding out which robot you're connected to!
    fn read_hardware_info(&mut self) -> Result<HardwareInfo, Error>;
}

/// How often and how patiently a connection is tried again.
#[derive(Debug, Clone, Copy, PartialEq, Eq)]
pub struct RetryPolicy<D> {
    /// How many attempts may follow the first one.
    pub retry_count: u32,
    /// How long to wait between two attempts. The interval is the same before every retry.
    pub retry_interval: D,
}

/// Where a backend stands on its way to a connection.
#[derive(Debug, Clone, Copy, PartialEq, Eq)]
pub enum ConnectionState {
    /// Nothing has been tried yet.
    Disconnected,
    /// The attempt with the number `attempt` is under way; the first attempt has the number 0.
    Connecting { attempt: u32 },
    /// An attempt has succeeded.
    Connected,
    /// The last attempt that was granted has failed.
    Failed,
}

/// What has happened since the backend last asked.
#[derive(Debug, Clone, Copy, PartialEq, Eq)]
pub enum ConnectEvent {
    /// The caller asks for a connection.
    Start,
    /// The attempt that was under way has got a connection.
    AttemptSucceeded,
    /// The attempt that was under way has failed.
    AttemptFailed,
}

/// What the backend is to do next.
#[derive(Debug, Clone, Copy, PartialEq, Eq)]
pub enum ConnectAction<D> {
    /// Try to connect, at once.
    Attempt,
    /// Wait for the interval that the action carries, then try to connect.
    SleepThenAttempt(D),
    /// Hand the connection of the attempt that has just succeeded to the caller.
    ReturnConnection,
    /// Hand the failure of the attempt that has just failed to the caller.
    ReturnFailure,
    /// Nothing: the event does not belong to the state.
    Stay,
}

impl ConnectionState {
    /// The state that follows `self` on `event` under `policy`, and what the backend is to do
    /// on the way there.
    pub open spec fn spec_step<D>(self, policy: RetryPolicy<D>, event: ConnectEvent) -> (
        ConnectionState,
        ConnectAction<D>,
    ) {
        match (self, event) {
            (ConnectionState::Disconnected, ConnectEvent::Start) => (
                ConnectionState::Connecting { attempt: 0 },
                ConnectAction::Attempt,
            ),
            (ConnectionState::Connecting { .. }, ConnectEvent::AttemptSucceeded) => (
                ConnectionState::Connected,
                ConnectAction::ReturnConnection,
            ),
            (ConnectionState::Connecting { attempt }, ConnectEvent::AttemptFailed) => if attempt
                < policy.retry_count {
                (
                    ConnectionState::Connecting { attempt: (attempt + 1) as u32 },
                    ConnectAction::SleepThenAttempt(policy.retry_interval),
                )
            } else {
                (ConnectionState::Failed, ConnectAction::ReturnFailure)
            },
            _ => (self, ConnectAction::Stay),
        }
    }

    /// Decides what follows on `event`.
    ///
    /// A start leads from [`ConnectionState::Disconnected`] to the first attempt. A success
    /// ends the walk at once. A failure is followed by a wait of the policy's interval and
    /// another attempt while retries are left, and ends the walk, without a wait, when none
    /// is left. An event that does not belong to the state changes nothing.
    pub fn step<D: Copy>(self, policy: &RetryPolicy<D>, event: ConnectEvent) -> (r: (
        ConnectionState,
        ConnectAction<D>,
    ))
        ensures
            r == self.spec_step(*policy, event),
    {
        match (self, event) {
            (ConnectionState::Disconnected, ConnectEvent::Start) => (
                ConnectionState::Connecting { attempt: 0 },
                ConnectAction::Attempt,
            ),
            (ConnectionState::Connecting { .. }, ConnectEvent::AttemptSucceeded) => (
                ConnectionState::Connected,
                ConnectAction::ReturnConnection,
            ),
            (ConnectionState::Connecting { attempt }, ConnectEvent::AttemptFailed) => {
                if attempt < policy.retry_count {
                    (
                        ConnectionState::Connecting { attempt: attempt + 1 },
                        ConnectAction::SleepThenAttempt(policy.retry_interval),
                    )
                } else {
                    (ConnectionState::Failed, ConnectAction::ReturnFailure)
                }
            },
            _ => (self, ConnectAction::Stay),
        }
    }

    /// Whether the walk is over: a connection was got, or the last attempt has failed.
    pub fn is_terminal(self) -> (r: bool)
        ensures
            r == (self is Connected || self is Failed),
    {
        match self {
            ConnectionState::Connected => true,
            ConnectionState::Failed => true,
            _ => false,
        }
    }
}

/// What a walk has done so far: the state it is in, how often the backend has tried to
/// connect, and the intervals it has waited for, in their order.
pub struct ConnectTrace<D> {
    pub state: ConnectionState,
    pub attempts: nat,
    pub sleeps: Seq<D>,
}

impl<D> ConnectTrace<D> {
    /// The trace after the backend has gone to `state` and done `action`.
    pub open spec fn after(self, state: ConnectionState, action: ConnectAction<D>) -> ConnectTrace<
        D,
    > {
        ConnectTrace {
            state,
            attempts: self.attempts + if action is Attempt || action is SleepThenAttempt {
                1nat
            } else {
                0nat
            },
            sleeps: if let ConnectAction::SleepThenAttempt(interval) = action {
                self.sleeps.push(interval)
            } else {
                self.sleeps
            },
        }
    }

    /// The trace of a walk that goes on from `self` while attempts are under way, where the
    /// attempts to come end as `outcomes` says, `true` for a success, in their order.
    pub open spec fn run_on(self, policy: RetryPolicy<D>, outcomes: Seq<bool>) -> ConnectTrace<D>
        decreases outcomes.len(),
    {
        if outcomes.len() == 0 || !(self.state is Connecting) {
            self
        } else {
            let event = if outcomes[0] {
                ConnectEvent::AttemptSucceeded
            } else {
                ConnectEvent::AttemptFailed
            };
            let (state, action) = self.state.spec_step(policy, event);
            self.after(state, action).run_on(policy, outcomes.drop_first())
        }
    }

    /// The trace of a whole walk under `policy`, from the caller's request on, where the
    /// attempts end as `outcomes` says.
    pub open spec fn run(policy: RetryPolicy<D>, outcomes: Seq<bool>) -> ConnectTrace<D> {
        let start = ConnectTrace {
            state: ConnectionState::Disconnected,
            attempts: 0,
            sleeps: Seq::<D>::empty(),
        };
        let (state, action) = start.state.spec_step(policy, ConnectEvent::Start);
        start.after(state, action).run_on(policy, outcomes)
    }

    /// Whether the trace is one that a walk can reach while an attempt is under way: the
    /// attempts made are the one under way and those before it, and each but the first was
    /// waited for, with the policy's interval.
    pub open spec fn on_track(self, policy: RetryPolicy<D>) -> bool {
        &&& self.state matches ConnectionState::Connecting { attempt }
        &&& attempt <= policy.retry_count
        &&& self.attempts == attempt + 1
        &&& self.sleeps == Seq::new(attempt as nat, |i: int| policy.retry_interval)
    }

    /// The trace after the first attempt has been started.
    pub open spec fn first_attempt() -> ConnectTrace<D> {
        ConnectTrace {
            state: ConnectionState::Connecting { attempt: 0 },
            attempts: 1,
            sleeps: Seq::<D>::empty(),
        }
    }
}

/// A walk never makes more than `retry_count + 1` attempts, whatever comes of them. It waits
/// exactly once between two attempts, so that there is no wait before the first attempt and
/// none after the last, and every wait is of the policy's interval.
pub proof fn lemma_retry_bound<D>(policy: RetryPolicy<D>, outcomes: Seq<bool>)
    ensures
        1 <= ConnectTrace::run(policy, outcomes).attempts <= policy.retry_count + 1,
        ConnectTrace::run(policy, outcomes).sleeps == Seq::new(
            (ConnectTrace::run(policy, outcomes).attempts - 1) as nat,
            |i: int| policy.retry_interval,
        ),
{
    assert(ConnectTrace::<D>::first_attempt().sleeps =~= Seq::new(
        0,
        |i: int| policy.retry_interval,
    ));
    lemma_run_on_bound(ConnectTrace::first_attempt(), policy, outcomes);
}

/// Against a transport that always fails, a walk with `retry_count` retries makes exactly
/// `retry_count + 1` attempts, waits `retry_count` times, and ends in failure.
pub proof fn lemma_always_failing<D>(policy: RetryPolicy<D>, outcomes: Seq<bool>)
    requires
        outcomes.len() > policy.retry_count,
        forall|i: int| 0 <= i < outcomes.len() ==> !outcomes[i],
    ensures
        ConnectTrace::run(policy, outcomes).state == ConnectionState::Failed,
        ConnectTrace::run(policy, outcomes).attempts == policy.retry_count + 1,
        ConnectTrace::run(policy, outcomes).sleeps.len() == policy.retry_count,
{
    assert(ConnectTrace::<D>::first_attempt().sleeps =~= Seq::new(
        0,
        |i: int| policy.retry_interval,
    ));
    lemma_run_on_failing(ConnectTrace::first_attempt(), policy, outcomes);
}

/// A walk ends with the first success: where the attempt with the number `first` is the
/// first to succeed and is within the retries granted, the walk makes `first + 1` attempts,
/// waits `first` times, and ends connected.
pub proof fn lemma_first_success<D>(policy: RetryPolicy<D>, outcomes: Seq<bool>, first: int)
    requires
        0 <= first <= policy.retry_count,
        first < outcomes.len(),
        outcomes[first],
        forall|i: int| 0 <= i < first ==> !outcomes[i],
    ensures
        ConnectTrace::run(policy, outcomes).state == ConnectionState::Connected,
        ConnectTrace::run(policy, outcomes).attempts == first + 1,
        ConnectTrace::run(policy, outcomes).sleeps.len() == first,
{
    assert(ConnectTrace::<D>::first_attempt().sleeps =~= Seq::new(
        0,
        |i: int| policy.retry_interval,
    ));
    lemma_run_on_success(ConnectTrace::first_attempt(), policy, outcomes, first);
}

/// The step from one attempt to the next keeps a walk on track.
proof fn lemma_step_on_track<D>(trace: ConnectTrace<D>, policy: RetryPolicy<D>, event: ConnectEvent)
    requires
        trace.on_track(policy),
        event is AttemptSucceeded || event is AttemptFailed,
    ensures
        ({
            let (state, action) = trace.state.spec_step(policy, event);
            let next = trace.after(state, action);
            &&& next.state is Connecting ==> next.on_track(policy)
            &&& !(next.state is Connecting) ==> next.attempts == trace.attempts && next.sleeps
                == trace.sleeps
            &&& next.state is Connecting ==> event is AttemptFailed
            &&& event is AttemptSucceeded ==> next.state is Connected
            &&& event is AttemptFailed && !(next.state is Connecting) ==> next.state is Failed
                && trace.attempts == policy.retry_count + 1
        }),
{
    let (state, action) = trace.state.spec_step(policy, event);
    let next = trace.after(state, action);
    if next.state is Connecting {
        let attempt = trace.state->attempt;
        assert(next.sleeps =~= Seq::new((attempt + 1) as nat, |i: int| policy.retry_interval));
    }
}

proof fn lemma_run_on_bound<D>(trace: ConnectTrace<D>, policy: RetryPolicy<D>, outcomes: Seq<bool>)
    requires
        trace.on_track(policy),
    ensures
        1 <= trace.run_on(policy, outcomes).attempts <= policy.retry_count + 1,
        trace.run_on(policy, outcomes).sleeps == Seq::new(
            (trace.run_on(policy, outcomes).attempts - 1) as nat,
            |i: int| policy.retry_interval,
        ),
    decreases outcomes.len(),
{
    if outcomes.len() > 0 {
        let event = if outcomes[0] {
            ConnectEvent::AttemptSucceeded
        } else {
            ConnectEvent::AttemptFailed
        };
        let (state, action) = trace.state.spec_step(policy, event);
        let next = trace.after(state, action);
        lemma_step_on_track(trace, policy, event);
        if next.state is Connecting {
            lemma_run_on_bound(next, policy, outcomes.drop_first());
        }
    }
}

proof fn lemma_run_on_failing<D>(
    trace: ConnectTrace<D>,
    policy: RetryPolicy<D>,
    outcomes: Seq<bool>,
)
    requires
        trace.on_track(policy),
        outcomes.len() > policy.retry_count - trace.sleeps.len(),
        forall|i: int| 0 <= i < outcomes.len() ==> !outcomes[i],
    ensures
        trace.run_on(policy, outcomes).state == ConnectionState::Failed,
        trace.run_on(policy, outcomes).attempts == policy.retry_count + 1,
        trace.run_on(policy, outcomes).sleeps.len() == policy.retry_count,
    decreases outcomes.len(),
{
    let (state, action) = trace.state.spec_step(policy, ConnectEvent::AttemptFailed);
    let next = trace.after(state, action);
    lemma_step_on_track(trace, policy, ConnectEvent::AttemptFailed);
    if next.state is Connecting {
        lemma_run_on_failing(next, policy, outcomes.drop_first());
    }
}

proof fn lemma_run_on_success<D>(
    trace: ConnectTrace<D>,
    policy: RetryPolicy<D>,
    outcomes: Seq<bool>,
    first: int,
)
    requires
        trace.on_track(policy),
        0 <= first <= policy.retry_count - trace.sleeps.len(),
        first < outcomes.len(),
        outcomes[first],
        forall|i: int| 0 <= i < first ==> !outcomes[i],
    ensures
        trace.run_on(policy, outcomes).state == ConnectionState::Connected,
        trace.run_on(policy, outcomes).attempts == trace.attempts + first,
        trace.run_on(policy, outcomes).sleeps.len() == trace.sleeps.len() + first,
    decreases outcomes.len(),
{
    if first == 0 {
        let (state, action) = trace.state.spec_step(policy, ConnectEvent::AttemptSucceeded);
        assert(trace.after(state, action).run_on(policy, outcomes.drop_first()) == trace.after(
            state,
            action,
        ));
    } else {
        let (state, action) = trace.state.spec_step(policy, ConnectEvent::AttemptFailed);
        lemma_step_on_track(trace, policy, ConnectEvent::AttemptFailed);
        let rest = outcomes.drop_first();
        lemma_run_on_success(trace.after(state, action), policy, rest, first - 1);
    }
}

} // verus!
