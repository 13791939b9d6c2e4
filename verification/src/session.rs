//! The session supervisor: at most one launch runs at a time.

use tokio::sync::oneshot::{Receiver, Sender};
use vstd::prelude::*;

verus! {

/// What the supervisor's slot holds.
#[derive(Clone, Copy, Debug, PartialEq, Eq, Structural)]
pub enum SessionState {
    /// No launch holds the slot.
    Idle,
    /// One launch holds the slot, from the call that admitted it to the
    /// call that ends it. Asking it to stop does not end it.
    Running,
}

/// A call on the supervisor.
#[derive(Clone, Copy, Debug, PartialEq, Eq, Structural)]
pub enum SessionCall {
    Begin,
    End,
    Cancel,
}

/// Whether a call made in `state` hands out the slot: only a `Begin` on an
/// idle supervisor does.
pub open spec fn grants_slot(state: SessionState, call: SessionCall) -> bool {
    call == SessionCall::Begin && state == SessionState::Idle
}

/// The state a call leaves behind. `Begin` leaves a launch running whether
/// it was granted or refused; `End` empties the slot; `Cancel` leaves the
/// slot with whoever holds it.
pub open spec fn state_after(state: SessionState, call: SessionCall) -> SessionState {
    match call {
        SessionCall::Begin => SessionState::Running,
        SessionCall::End => SessionState::Idle,
        SessionCall::Cancel => state,
    }
}

/// The state after a sequence of calls, made in order.
pub open spec fn state_after_calls(state: SessionState, calls: Seq<SessionCall>) -> SessionState
    decreases calls.len(),
{
    if calls.len() == 0 {
        state
    } else {
        state_after(state_after_calls(state, calls.drop_last()), calls.last())
    }
}

/// How many calls of the sequence were granted the slot.
pub open spec fn grants_among(state: SessionState, calls: Seq<SessionCall>) -> nat
    decreases calls.len(),
{
    if calls.len() == 0 {
        0
    } else {
        let earlier = grants_among(state, calls.drop_last());
        if grants_slot(state_after_calls(state, calls.drop_last()), calls.last()) {
            earlier + 1
        } else {
            earlier
        }
    }
}

/// How many launches the slot can still take: one when idle, none when
/// running.
pub open spec fn free_slots(state: SessionState) -> nat {
    if state == SessionState::Idle {
        1
    } else {
        0
    }
}

/// How many calls of the sequence empty the slot: its `End` calls.
pub open spec fn releases_among(calls: Seq<SessionCall>) -> nat
    decreases calls.len(),
{
    if calls.len() == 0 {
        0
    } else {
        let earlier = releases_among(calls.drop_last());
        if calls.last() == SessionCall::End {
            earlier + 1
        } else {
            earlier
        }
    }
}

/// A launch is already in progress.
#[derive(Clone, Copy, Debug, PartialEq, Eq, Structural)]
pub struct AlreadyRunningError;

/// No launch is in progress. Cancellation treats this as success, so no
/// function of this crate returns it.
#[derive(Clone, Copy, Debug, PartialEq, Eq, Structural)]
pub struct NoActiveSessionError;

/// An in-flight launch: the single-use sender of its cancellation signal,
/// until the signal has been fired.
#[derive(Debug)]
struct RunnerInstance {
    terminator: Option<Sender<()>>,
}

/// The guarded slot for the one launch that may run.
#[derive(Debug)]
pub struct SessionSupervisor {
    runner_instance: Option<RunnerInstance>,
}

impl View for SessionSupervisor {
    type V = SessionState;

    closed spec fn view(&self) -> SessionState {
        if self.runner_instance is Some {
            SessionState::Running
        } else {
            SessionState::Idle
        }
    }
}

impl SessionSupervisor {
    /// Whether the running launch can still be asked to stop: its sender is
    /// in the slot and has not been used.
    pub closed spec fn holds_sender(&self) -> bool {
        self.runner_instance matches Some(instance) && instance.terminator is Some
    }

    /// A sender is held only while a launch runs.
    pub proof fn lemma_sender_only_while_running(&self)
        ensures
            self.holds_sender() ==> self@ == SessionState::Running,
    {
    }

    /// A supervisor with an empty slot.
    pub fn new() -> (supervisor: Self)
        ensures
            supervisor@ == SessionState::Idle,
            !supervisor.holds_sender(),
    {
        SessionSupervisor { runner_instance: None }
    }

    /// Whether a launch holds the slot.
    pub fn is_running(&self) -> (running: bool)
        ensures
            running <==> self@ == SessionState::Running,
    {
        self.runner_instance.is_some()
    }

    /// Whether the running launch has been asked to stop and has not ended
    /// yet.
    pub fn is_cancelled(&self) -> (cancelled: bool)
        ensures
            cancelled <==> self@ == SessionState::Running && !self.holds_sender(),
    {
        match &self.runner_instance {
            Some(instance) => instance.terminator.is_none(),
            None => false,
        }
    }

    /// Claims the slot for a new launch. While a launch holds it, cancelled
    /// or not, the call fails and changes nothing; otherwise a fresh
    /// cancellation channel is made, its sender kept and its receiver
    /// returned.
    pub fn begin_session(&mut self) -> (granted: Result<Receiver<()>, AlreadyRunningError>)
        ensures
            granted is Ok <==> grants_slot(old(self)@, SessionCall::Begin),
            final(self)@ == state_after(old(self)@, SessionCall::Begin),
            granted is Ok ==> final(self).holds_sender(),
            granted is Err ==> *final(self) == *old(self),
    {
        if self.runner_instance.is_some() {
            return Err(AlreadyRunningError);
        }
        let (terminator, cancellation) = tokio::sync::oneshot::channel();
        self.runner_instance = Some(RunnerInstance { terminator: Some(terminator) });
        Ok(cancellation)
    }

    /// Releases the slot, whoever holds it, and with it a sender that was
    /// never used.
    pub fn end_session(&mut self)
        ensures
            final(self)@ == state_after(old(self)@, SessionCall::End),
            !final(self).holds_sender(),
            old(self)@ == SessionState::Idle ==> *final(self) == *old(self),
    {
        self.runner_instance = None;
    }

    /// Fires the running launch's signal, without waiting for the launch to
    /// stop. The sender is used up; the slot stays with the launch until
    /// that launch is ended. With no launch running, or with one that was
    /// asked to stop before, this does nothing. It never fails.
    pub fn request_cancellation(&mut self) -> (outcome: Result<(), NoActiveSessionError>)
        ensures
            outcome is Ok,
            final(self)@ == state_after(old(self)@, SessionCall::Cancel),
            !final(self).holds_sender(),
            !old(self).holds_sender() ==> *final(self) == *old(self),
            old(self)@ == SessionState::Idle ==> *final(self) == *old(self),
    {
        match self.runner_instance.take() {
            Some(instance) => {
                match instance.terminator {
                    Some(sender) => {
                        // A receiver that is gone already makes the signal moot, not wrong.
                        let _ = sender.send(());
                    },
                    None => {},
                }
                self.runner_instance = Some(RunnerInstance { terminator: None });
            },
            None => {},
        }
        Ok(())
    }
}

/// The slot is handed out only when it is free: after any calls, the
/// grants and the slot that is still free together are no more than the
/// releases and the slot that was free at the start. So every grant but the
/// first follows an `End` of its own, and no `Cancel` makes room for one.
pub proof fn lemma_grants_bounded_by_releases(state: SessionState, calls: Seq<SessionCall>)
    ensures
        grants_among(state, calls) + free_slots(state_after_calls(state, calls))
            <= releases_among(calls) + free_slots(state),
    decreases calls.len(),
{
    if calls.len() > 0 {
        lemma_grants_bounded_by_releases(state, calls.drop_last());
    }
}

/// Of any calls with no `End` among them, at most one is granted, and none
/// is while a launch runs: neither a second `Begin` nor a `Cancel` before
/// it lets another launch in.
pub proof fn lemma_begin_granted_at_most_once(state: SessionState, calls: Seq<SessionCall>)
    requires
        forall|i: int| 0 <= i < calls.len() ==> calls[i] != SessionCall::End,
    ensures
        grants_among(state, calls) <= 1,
        state == SessionState::Running ==> grants_among(state, calls) == 0,
{
    lemma_no_end_releases_nothing(calls);
    lemma_grants_bounded_by_releases(state, calls);
}

proof fn lemma_no_end_releases_nothing(calls: Seq<SessionCall>)
    requires
        forall|i: int| 0 <= i < calls.len() ==> calls[i] != SessionCall::End,
    ensures
        releases_among(calls) == 0,
    decreases calls.len(),
{
    if calls.len() > 0 {
        lemma_no_end_releases_nothing(calls.drop_last());
    }
}

/// A launch that was asked to stop keeps the slot: until an `End`, every
/// `Begin` after a granted one is refused, whatever calls lie between.
pub proof fn lemma_cancelled_launch_keeps_slot(state: SessionState, between: Seq<SessionCall>)
    requires
        forall|i: int| 0 <= i < between.len() ==> between[i] != SessionCall::End,
    ensures
        !grants_slot(
            state_after_calls(state_after(state, SessionCall::Begin), between),
            SessionCall::Begin,
        ),
    decreases between.len(),
{
    if between.len() > 0 {
        lemma_cancelled_launch_keeps_slot(state, between.drop_last());
    }
}

/// One `End` restores the idle state after a granted `Begin`, whatever
/// calls were made in between.
pub proof fn lemma_end_restores_idle(state: SessionState, between: Seq<SessionCall>)
    ensures
        state_after(
            state_after_calls(state_after(state, SessionCall::Begin), between),
            SessionCall::End,
        ) == SessionState::Idle,
{
}

/// A `Cancel` changes no state and is granted nothing.
pub proof fn lemma_cancel_keeps_state(state: SessionState)
    ensures
        state_after(state, SessionCall::Cancel) == state,
        !grants_slot(state, SessionCall::Cancel),
{
}

} // verus!
