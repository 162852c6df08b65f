//! Obtaining streams: the decisions of the listener and of the connector.
//!
//! Both produce one stream at a time. The listener waits for a peer, and ends
//! when accepting one fails. The connector takes a target from its queue and
//! tries until the target answers: a failed attempt is no error of the
//! connector, it is tried again after a fixed delay. Only a queue of targets
//! that has closed ends a connector.

use vstd::prelude::*;

verus! {

/// The delay, in milliseconds, between a failed attempt and the next.
pub const RETRY_DELAY_MS: u64 = 1000;

/// Where an acceptor stands.
#[derive(Clone, Copy, Debug, PartialEq, Eq, Structural)]
pub enum AcceptorState<A> {
    /// No attempt is under way.
    Idle,
    /// An attempt on this target is under way, after this many failures.
    Attempting { target: A, failures: u64 },
    /// A stream is established and waits to be taken.
    Established,
    /// The acceptor has ended: there is nothing more to come.
    Closed,
}

/// What happened to an acceptor.
#[derive(Clone, Copy, Debug, PartialEq, Eq, Structural)]
pub enum AcceptorEvent<A> {
    /// Somebody asked for the next stream, and this target is the next to
    /// try.
    Requested(A),
    /// Somebody asked for the next stream, and the queue of targets has
    /// closed.
    Exhausted,
    /// The attempt under way failed.
    AttemptFailed,
    /// The attempt under way established a stream.
    AttemptSucceeded,
    /// The established stream was taken.
    Taken,
}

/// What is to be done for an acceptor.
#[derive(Clone, Copy, Debug, PartialEq, Eq, Structural)]
pub enum AcceptorAction<A> {
    /// Start an attempt on this target.
    Attempt(A),
    /// Wait for this many milliseconds, then try this target again.
    RetryAfter(u64, A),
    /// Hand the established stream to whoever asked.
    Deliver,
    /// Answer that the acceptor failed.
    Fail,
    /// Answer that the stream ended: no target will come.
    EndOfStream,
    /// Nothing: what is under way goes on.
    Nothing,
}

/// The decision of an acceptor: from the state and what happened to the next
/// state and what to do. `retries` tells the connector, which tries a target
/// again after a failure, from the listener, which a failure ends.
pub open spec fn acceptor_step<A>(
    retries: bool,
    state: AcceptorState<A>,
    event: AcceptorEvent<A>,
) -> (AcceptorState<A>, AcceptorAction<A>) {
    match (state, event) {
        (AcceptorState::Idle, AcceptorEvent::Requested(target)) => (
            AcceptorState::Attempting { target, failures: 0 },
            AcceptorAction::Attempt(target),
        ),
        (AcceptorState::Idle, AcceptorEvent::Exhausted) => (
            AcceptorState::Closed,
            AcceptorAction::EndOfStream,
        ),
        (AcceptorState::Attempting { target, failures }, AcceptorEvent::AttemptFailed) => {
            if retries {
                (
                    AcceptorState::Attempting {
                        target,
                        failures: if failures < u64::MAX {
                            (failures + 1) as u64
                        } else {
                            failures
                        },
                    },
                    AcceptorAction::RetryAfter(RETRY_DELAY_MS, target),
                )
            } else {
                (AcceptorState::Closed, AcceptorAction::Fail)
            }
        },
        (AcceptorState::Attempting { .. }, AcceptorEvent::AttemptSucceeded) => (
            AcceptorState::Established,
            AcceptorAction::Deliver,
        ),
        (AcceptorState::Established, AcceptorEvent::Taken) => (
            AcceptorState::Idle,
            AcceptorAction::Nothing,
        ),
        (AcceptorState::Established, AcceptorEvent::Requested(_)) => (
            AcceptorState::Established,
            AcceptorAction::Deliver,
        ),
        (AcceptorState::Established, AcceptorEvent::Exhausted) => (
            AcceptorState::Established,
            AcceptorAction::Deliver,
        ),
        (AcceptorState::Closed, _) => (AcceptorState::Closed, AcceptorAction::EndOfStream),
        _ => (state, AcceptorAction::Nothing),
    }
}

/// An acceptor: the state of a listener or of a connector. A listener has one
/// target, the address that it listens on.
pub struct Acceptor<A> {
    state: AcceptorState<A>,
    retries: bool,
}

impl<A: Copy> Acceptor<A> {
    pub closed spec fn state(&self) -> AcceptorState<A> {
        self.state
    }

    /// Whether a failed attempt is tried again.
    pub closed spec fn retries(&self) -> bool {
        self.retries
    }

    /// A listener with no attempt under way.
    pub fn listener() -> (acceptor: Self)
        ensures
            acceptor.state() == AcceptorState::<A>::Idle,
            !acceptor.retries(),
    {
        Acceptor { state: AcceptorState::Idle, retries: false }
    }

    /// A connector with no attempt under way.
    pub fn connector() -> (acceptor: Self)
        ensures
            acceptor.state() == AcceptorState::<A>::Idle,
            acceptor.retries(),
    {
        Acceptor { state: AcceptorState::Idle, retries: true }
    }

    /// Whether asking for the next stream needs a target: true of an
    /// acceptor with nothing under way and nothing established.
    pub fn needs_target(&self) -> (needed: bool)
        ensures
            needed == (self.state() is Idle),
    {
        match self.state {
            AcceptorState::Idle => true,
            _ => false,
        }
    }

    /// What the acceptor does with what happened: exactly what
    /// `acceptor_step` says.
    pub fn step(&mut self, event: AcceptorEvent<A>) -> (action: AcceptorAction<A>)
        ensures
            (final(self).state(), action) == acceptor_step(
                old(self).retries(),
                old(self).state(),
                event,
            ),
            final(self).retries() == old(self).retries(),
    {
        let (state, action) = match (self.state, event) {
            (AcceptorState::Idle, AcceptorEvent::Requested(target)) => (
                AcceptorState::Attempting { target, failures: 0 },
                AcceptorAction::Attempt(target),
            ),
            (AcceptorState::Idle, AcceptorEvent::Exhausted) => (
                AcceptorState::Closed,
                AcceptorAction::EndOfStream,
            ),
            (AcceptorState::Attempting { target, failures }, AcceptorEvent::AttemptFailed) => {
                if self.retries {
                    (
                        AcceptorState::Attempting {
                            target,
                            failures: if failures < u64::MAX {
                                failures + 1
                            } else {
                                failures
                            },
                        },
                        AcceptorAction::RetryAfter(RETRY_DELAY_MS, target),
                    )
                } else {
                    (AcceptorState::Closed, AcceptorAction::Fail)
                }
            },
            (AcceptorState::Attempting { .. }, AcceptorEvent::AttemptSucceeded) => (
                AcceptorState::Established,
                AcceptorAction::Deliver,
            ),
            (AcceptorState::Established, AcceptorEvent::Taken) => (
                AcceptorState::Idle,
                AcceptorAction::Nothing,
            ),
            (AcceptorState::Established, AcceptorEvent::Requested(_)) => (
                AcceptorState::Established,
                AcceptorAction::Deliver,
            ),
            (AcceptorState::Established, AcceptorEvent::Exhausted) => (
                AcceptorState::Established,
                AcceptorAction::Deliver,
            ),
            (AcceptorState::Closed, _) => (AcceptorState::Closed, AcceptorAction::EndOfStream),
            (state, _) => (state, AcceptorAction::Nothing),
        };
        self.state = state;
        action
    }
}

/// The state of a connector after `count` failed attempts in a row.
pub open spec fn after_failures<A>(state: AcceptorState<A>, count: nat) -> AcceptorState<A>
    decreases count,
{
    if count == 0 {
        state
    } else {
        after_failures(
            acceptor_step(true, state, AcceptorEvent::AttemptFailed).0,
            (count - 1) as nat,
        )
    }
}

/// A connector never gives a target up: after any number of failed attempts
/// it still tries the same target, each failure is answered by a retry after
/// the fixed delay, and the first success delivers the stream.
pub proof fn lemma_retries_until_connected<A>(target: A, failures: u64, count: nat)
    ensures
        after_failures(AcceptorState::Attempting { target, failures }, count) is Attempting,
        after_failures(AcceptorState::Attempting { target, failures }, count)->target == target,
        acceptor_step(
            true,
            after_failures(AcceptorState::Attempting { target, failures }, count),
            AcceptorEvent::AttemptFailed,
        ).1 == AcceptorAction::RetryAfter(RETRY_DELAY_MS, target),
        acceptor_step(
            true,
            after_failures(AcceptorState::Attempting { target, failures }, count),
            AcceptorEvent::AttemptSucceeded,
        ) == (AcceptorState::<A>::Established, AcceptorAction::<A>::Deliver),
    decreases count,
{
    if count > 0 {
        let next = acceptor_step(
            true,
            AcceptorState::Attempting { target, failures },
            AcceptorEvent::AttemptFailed,
        ).0;
        lemma_retries_until_connected(target, next->failures, (count - 1) as nat);
    }
}

/// One failure ends a listener: it answers with the failure, and with the end
/// of the stream to whatever happens after that.
pub proof fn lemma_listener_ends_on_failure<A>(target: A, failures: u64, later: AcceptorEvent<A>)
    ensures
        acceptor_step(
            false,
            AcceptorState::Attempting { target, failures },
            AcceptorEvent::AttemptFailed,
        ) == (AcceptorState::<A>::Closed, AcceptorAction::<A>::Fail),
        acceptor_step(false, AcceptorState::Closed, later) == (
            AcceptorState::<A>::Closed,
            AcceptorAction::<A>::EndOfStream,
        ),
{
}

} // verus!
