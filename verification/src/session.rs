//! The session coordinator: three branches — the transmit loop, the
//! receive loop, and the cancellation listener — race to a single
//! terminal outcome. Whichever finishes first decides the session; the
//! other branches are abandoned in place.

use vstd::prelude::*;

verus! {

/// How one branch ended: normally, or with a transport or signal error.
#[derive(Clone, Copy, Debug, PartialEq, Eq)]
pub enum BranchResult {
    Success,
    Failure,
}

/// The first branch to finish, with how it ended.
#[derive(Clone, Copy, Debug, PartialEq, Eq)]
pub enum SessionEvent {
    TransmitEnded(BranchResult),
    ReceiveEnded(BranchResult),
    CancelObserved(BranchResult),
}

/// The terminal outcome of a session.
#[derive(Clone, Copy, Debug, PartialEq, Eq)]
pub enum Outcome {
    TransmitDone,
    TransmitFailed,
    ReceiveDone,
    ReceiveFailed,
    CancelRequested,
    CancelFailed,
}

/// The coordinator's state: running, or terminated with its outcome.
#[derive(Clone, Copy, Debug, PartialEq, Eq)]
pub enum SessionState {
    Running,
    Terminated(Outcome),
}

/// The outcome that corresponds to a given first-finished branch.
pub open spec fn outcome_of(event: SessionEvent) -> Outcome {
    match event {
        SessionEvent::TransmitEnded(BranchResult::Success) => Outcome::TransmitDone,
        SessionEvent::TransmitEnded(BranchResult::Failure) => Outcome::TransmitFailed,
        SessionEvent::ReceiveEnded(BranchResult::Success) => Outcome::ReceiveDone,
        SessionEvent::ReceiveEnded(BranchResult::Failure) => Outcome::ReceiveFailed,
        SessionEvent::CancelObserved(BranchResult::Success) => Outcome::CancelRequested,
        SessionEvent::CancelObserved(BranchResult::Failure) => Outcome::CancelFailed,
    }
}

/// Whether a terminal outcome counts as success: normal loop completion
/// and a requested cancellation do; any failed branch does not.
pub open spec fn spec_outcome_is_success(outcome: Outcome) -> bool {
    match outcome {
        Outcome::TransmitDone => true,
        Outcome::TransmitFailed => false,
        Outcome::ReceiveDone => true,
        Outcome::ReceiveFailed => false,
        Outcome::CancelRequested => true,
        Outcome::CancelFailed => false,
    }
}

/// The coordinator's transition: the first event terminates a running
/// session with the matching outcome; once terminated, the state never
/// changes again, whatever the abandoned branches later report.
#[verifier::when_used_as_spec(settle_spec)]
pub fn settle(state: SessionState, event: SessionEvent) -> (r: SessionState)
    ensures
        r == settle_spec(state, event),
        state is Running ==> r == SessionState::Terminated(outcome_of(event)),
        state is Terminated ==> r == state,
{
    match state {
        SessionState::Running => {
            let outcome = match event {
                SessionEvent::TransmitEnded(BranchResult::Success) => Outcome::TransmitDone,
                SessionEvent::TransmitEnded(BranchResult::Failure) => Outcome::TransmitFailed,
                SessionEvent::ReceiveEnded(BranchResult::Success) => Outcome::ReceiveDone,
                SessionEvent::ReceiveEnded(BranchResult::Failure) => Outcome::ReceiveFailed,
                SessionEvent::CancelObserved(BranchResult::Success) => Outcome::CancelRequested,
                SessionEvent::CancelObserved(BranchResult::Failure) => Outcome::CancelFailed,
            };
            SessionState::Terminated(outcome)
        },
        SessionState::Terminated(outcome) => SessionState::Terminated(outcome),
    }
}

/// Whether the process exits successfully for this outcome.
#[verifier::when_used_as_spec(spec_outcome_is_success)]
pub fn outcome_is_success(outcome: Outcome) -> (r: bool)
    ensures
        r == spec_outcome_is_success(outcome),
{
    match outcome {
        Outcome::TransmitDone => true,
        Outcome::TransmitFailed => false,
        Outcome::ReceiveDone => true,
        Outcome::ReceiveFailed => false,
        Outcome::CancelRequested => true,
        Outcome::CancelFailed => false,
    }
}

/// The coordinator's termination law: whichever branch finishes first
/// drives a running session straight to `Terminated` with that branch's
/// outcome, and anything the two abandoned branches report afterwards
/// leaves the terminal state untouched.
pub proof fn lemma_first_event_decides(first: SessionEvent, later: SessionEvent)
    ensures
        settle_spec(SessionState::Running, first) == SessionState::Terminated(outcome_of(first)),
        settle_spec(settle_spec(SessionState::Running, first), later)
            == SessionState::Terminated(outcome_of(first)),
{
}

/// The transition `settle` computes, as a specification.
pub open spec fn settle_spec(state: SessionState, event: SessionEvent) -> SessionState {
    match state {
        SessionState::Running => SessionState::Terminated(outcome_of(event)),
        SessionState::Terminated(_) => state,
    }
}

} // verus!
