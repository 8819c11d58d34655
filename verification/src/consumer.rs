//! The decisions of one queue consumer.
//!
//! A consumer alternates between work that happens outside this crate (a
//! query, the key store, the proof check, a wait) and the decision what to
//! do next. The decisions are the function [`step`], from the consumer's
//! state and the event that ended the outside work to the next state and the
//! next action. The caller performs the action and reports the event that
//! ends it.

use crate::pipeline::{ProofError, UnusableKeys, Verified};
use vstd::prelude::*;

verus! {

/// Where a consumer stands.
#[derive(Clone, Copy, Debug, PartialEq, Eq, Structural)]
pub enum ConsumerState {
    /// A claim on the oldest pending, unlocked request is under way.
    Claiming,
    /// A request is claimed; its tenant's keys are being resolved.
    ResolvingKeys,
    /// The proof of the claimed request is being checked.
    Verifying,
    /// The verdict is being written and committed.
    Finalizing { verified: bool },
    /// The verdict is committed and is being announced.
    Notifying { verified: bool },
    /// The remaining pending requests are being counted.
    Counting,
    /// Idle until a notification arrives or the idle timeout elapses.
    Waiting,
    /// The consumer has ended.
    Stopped,
}

/// What ended the outside work of a consumer.
#[derive(Clone, Copy, Debug, PartialEq, Eq, Structural)]
pub enum ConsumerEvent {
    /// The claim locked a request.
    Claimed,
    /// No pending request was free to claim.
    NothingClaimed,
    /// The tenant's keys are at hand.
    KeysResolved,
    /// The tenant's keys could not be resolved, or could not be read.
    KeysUnavailable,
    /// The pipeline returned ciphertexts and a digest.
    ProofVerified,
    /// The pipeline refused the payload, the proof or the request.
    ProofRejected,
    /// The proof check did not run to its end.
    VerificationAborted,
    /// The transaction of the claimed request is committed.
    Committed,
    /// The completion notice is published.
    Notified,
    /// The count of pending requests.
    Remaining(i64),
    /// A query or a transaction failed.
    StoreFailed,
    /// A notification arrived while waiting.
    NotificationArrived,
    /// The idle timeout elapsed while waiting.
    TimedOut,
    /// The notification listener lost its connection.
    ListenerLost,
    /// The pool asked the consumer to end.
    Cancelled,
}

/// Why a consumer ended.
#[derive(Clone, Copy, Debug, PartialEq, Eq, Structural)]
pub enum ExitReason {
    /// The pool asked for it.
    Cancelled,
    /// The notification listener lost its connection.
    LostDbConnection,
    /// The pending requests could not be counted.
    StoreFailed,
    /// An event was reported that cannot end the work under way.
    UnexpectedEvent,
}

/// What a consumer does next.
#[derive(Clone, Copy, Debug, PartialEq, Eq, Structural)]
pub enum ConsumerAction {
    /// Record the time as the last sign of life, open a transaction and
    /// claim the oldest pending request that no one has locked.
    Claim,
    /// Resolve the keys of the claimed request's tenant.
    ResolveKeys,
    /// Check the proof of the claimed request, off the I/O scheduler.
    Verify,
    /// Write the verdict, with the ciphertexts of a verified request, in
    /// the claiming transaction, and commit.
    Finalize { verified: bool },
    /// Publish the completion notice.
    Notify { verified: bool },
    /// Count the pending requests.
    CountRemaining,
    /// Wait for a notification or the idle timeout.
    Wait,
    /// Roll back whatever the transaction holds, leaving the request
    /// pending, then wait for a notification or the idle timeout.
    AbandonAndWait,
    /// End the consumer, rolling back an open transaction.
    Exit(ExitReason),
}

/// A decision: the state the consumer enters and the action that takes it
/// there.
#[derive(Clone, Copy, Debug, PartialEq, Eq, Structural)]
pub struct Transition {
    pub next: ConsumerState,
    pub action: ConsumerAction,
}

/// The decision table of a consumer.
pub open spec fn spec_step(state: ConsumerState, event: ConsumerEvent) -> Transition {
    match (state, event) {
        (ConsumerState::Stopped, _) => Transition {
            next: ConsumerState::Stopped,
            action: ConsumerAction::Exit(ExitReason::UnexpectedEvent),
        },
        (_, ConsumerEvent::Cancelled) => Transition {
            next: ConsumerState::Stopped,
            action: ConsumerAction::Exit(ExitReason::Cancelled),
        },
        (ConsumerState::Claiming, ConsumerEvent::Claimed) => Transition {
            next: ConsumerState::ResolvingKeys,
            action: ConsumerAction::ResolveKeys,
        },
        (ConsumerState::Claiming, ConsumerEvent::NothingClaimed) => Transition {
            next: ConsumerState::Counting,
            action: ConsumerAction::CountRemaining,
        },
        (ConsumerState::ResolvingKeys, ConsumerEvent::KeysResolved) => Transition {
            next: ConsumerState::Verifying,
            action: ConsumerAction::Verify,
        },
        (ConsumerState::ResolvingKeys, ConsumerEvent::KeysUnavailable) => Transition {
            next: ConsumerState::Waiting,
            action: ConsumerAction::AbandonAndWait,
        },
        (ConsumerState::Verifying, ConsumerEvent::ProofVerified) => Transition {
            next: ConsumerState::Finalizing { verified: true },
            action: ConsumerAction::Finalize { verified: true },
        },
        (ConsumerState::Verifying, ConsumerEvent::ProofRejected) => Transition {
            next: ConsumerState::Finalizing { verified: false },
            action: ConsumerAction::Finalize { verified: false },
        },
        (ConsumerState::Verifying, ConsumerEvent::KeysUnavailable) => Transition {
            next: ConsumerState::Waiting,
            action: ConsumerAction::AbandonAndWait,
        },
        (ConsumerState::Verifying, ConsumerEvent::VerificationAborted) => Transition {
            next: ConsumerState::Waiting,
            action: ConsumerAction::AbandonAndWait,
        },
        (ConsumerState::Finalizing { verified }, ConsumerEvent::Committed) => Transition {
            next: ConsumerState::Notifying { verified },
            action: ConsumerAction::Notify { verified },
        },
        (ConsumerState::Notifying { .. }, ConsumerEvent::Notified) => Transition {
            next: ConsumerState::Counting,
            action: ConsumerAction::CountRemaining,
        },
        (ConsumerState::Counting, ConsumerEvent::Remaining(count)) => if count > 0 {
            Transition { next: ConsumerState::Claiming, action: ConsumerAction::Claim }
        } else {
            Transition { next: ConsumerState::Waiting, action: ConsumerAction::Wait }
        },
        (ConsumerState::Counting, ConsumerEvent::StoreFailed) => Transition {
            next: ConsumerState::Stopped,
            action: ConsumerAction::Exit(ExitReason::StoreFailed),
        },
        (ConsumerState::Waiting, ConsumerEvent::NotificationArrived) => Transition {
            next: ConsumerState::Claiming,
            action: ConsumerAction::Claim,
        },
        (ConsumerState::Waiting, ConsumerEvent::TimedOut) => Transition {
            next: ConsumerState::Claiming,
            action: ConsumerAction::Claim,
        },
        (ConsumerState::Waiting, ConsumerEvent::ListenerLost) => Transition {
            next: ConsumerState::Stopped,
            action: ConsumerAction::Exit(ExitReason::LostDbConnection),
        },
        (ConsumerState::Waiting, _) => Transition {
            next: ConsumerState::Stopped,
            action: ConsumerAction::Exit(ExitReason::UnexpectedEvent),
        },
        (ConsumerState::Counting, _) => Transition {
            next: ConsumerState::Stopped,
            action: ConsumerAction::Exit(ExitReason::UnexpectedEvent),
        },
        (_, ConsumerEvent::StoreFailed) => Transition {
            next: ConsumerState::Waiting,
            action: ConsumerAction::AbandonAndWait,
        },
        _ => Transition {
            next: ConsumerState::Stopped,
            action: ConsumerAction::Exit(ExitReason::UnexpectedEvent),
        },
    }
}

/// The first decision of a consumer: claim.
pub fn start() -> (first: Transition)
    ensures
        first == (Transition { next: ConsumerState::Claiming, action: ConsumerAction::Claim }),
{
    Transition { next: ConsumerState::Claiming, action: ConsumerAction::Claim }
}

/// Decides what a consumer in `state` does after `event`.
pub fn step(state: ConsumerState, event: ConsumerEvent) -> (decision: Transition)
    ensures
        decision == spec_step(state, event),
{
    let unexpected = Transition {
        next: ConsumerState::Stopped,
        action: ConsumerAction::Exit(ExitReason::UnexpectedEvent),
    };
    let abandon = Transition {
        next: ConsumerState::Waiting,
        action: ConsumerAction::AbandonAndWait,
    };
    let claim = Transition { next: ConsumerState::Claiming, action: ConsumerAction::Claim };
    let count = Transition {
        next: ConsumerState::Counting,
        action: ConsumerAction::CountRemaining,
    };
    if let ConsumerState::Stopped = state {
        return unexpected;
    }
    if let ConsumerEvent::Cancelled = event {
        return Transition {
            next: ConsumerState::Stopped,
            action: ConsumerAction::Exit(ExitReason::Cancelled),
        };
    }
    match state {
        ConsumerState::Claiming => match event {
            ConsumerEvent::Claimed => Transition {
                next: ConsumerState::ResolvingKeys,
                action: ConsumerAction::ResolveKeys,
            },
            ConsumerEvent::NothingClaimed => count,
            ConsumerEvent::StoreFailed => abandon,
            _ => unexpected,
        },
        ConsumerState::ResolvingKeys => match event {
            ConsumerEvent::KeysResolved => Transition {
                next: ConsumerState::Verifying,
                action: ConsumerAction::Verify,
            },
            ConsumerEvent::KeysUnavailable => abandon,
            ConsumerEvent::StoreFailed => abandon,
            _ => unexpected,
        },
        ConsumerState::Verifying => match event {
            ConsumerEvent::ProofVerified => Transition {
                next: ConsumerState::Finalizing { verified: true },
                action: ConsumerAction::Finalize { verified: true },
            },
            ConsumerEvent::ProofRejected => Transition {
                next: ConsumerState::Finalizing { verified: false },
                action: ConsumerAction::Finalize { verified: false },
            },
            ConsumerEvent::KeysUnavailable => abandon,
            ConsumerEvent::VerificationAborted => abandon,
            ConsumerEvent::StoreFailed => abandon,
            _ => unexpected,
        },
        ConsumerState::Finalizing { verified } => match event {
            ConsumerEvent::Committed => Transition {
                next: ConsumerState::Notifying { verified },
                action: ConsumerAction::Notify { verified },
            },
            ConsumerEvent::StoreFailed => abandon,
            _ => unexpected,
        },
        ConsumerState::Notifying { .. } => match event {
            ConsumerEvent::Notified => count,
            ConsumerEvent::StoreFailed => abandon,
            _ => unexpected,
        },
        ConsumerState::Counting => match event {
            ConsumerEvent::Remaining(pending) => if pending > 0 {
                claim
            } else {
                Transition { next: ConsumerState::Waiting, action: ConsumerAction::Wait }
            },
            ConsumerEvent::StoreFailed => Transition {
                next: ConsumerState::Stopped,
                action: ConsumerAction::Exit(ExitReason::StoreFailed),
            },
            _ => unexpected,
        },
        ConsumerState::Waiting => match event {
            ConsumerEvent::NotificationArrived => claim,
            ConsumerEvent::TimedOut => claim,
            ConsumerEvent::ListenerLost => Transition {
                next: ConsumerState::Stopped,
                action: ConsumerAction::Exit(ExitReason::LostDbConnection),
            },
            _ => unexpected,
        },
        ConsumerState::Stopped => unexpected,
    }
}

/// The event that the end of a pipeline run is for a consumer: a verified
/// request, a refused one, or keys that could not be read. The first two
/// are verdicts; the third is a fault of the key store.
pub fn verification_event(
    outcome: &Result<Result<Verified, ProofError>, UnusableKeys>,
) -> (event: ConsumerEvent)
    ensures
        event == match outcome {
            Ok(Ok(_)) => ConsumerEvent::ProofVerified,
            Ok(Err(_)) => ConsumerEvent::ProofRejected,
            Err(_) => ConsumerEvent::KeysUnavailable,
        },
{
    match outcome {
        Ok(Ok(_)) => ConsumerEvent::ProofVerified,
        Ok(Err(_)) => ConsumerEvent::ProofRejected,
        Err(_) => ConsumerEvent::KeysUnavailable,
    }
}

/// Whether a state holds a claimed request whose transaction is open.
pub open spec fn holds_claim(state: ConsumerState) -> bool {
    state is ResolvingKeys || state is Verifying || state is Finalizing
}

/// Wake-up: a waiting consumer goes back to claiming when the idle timeout
/// elapses, whether or not a notification ever arrives, and likewise on a
/// notification.
pub proof fn lemma_wait_resumes(event: ConsumerEvent)
    requires
        event == ConsumerEvent::TimedOut || event == ConsumerEvent::NotificationArrived,
    ensures
        spec_step(ConsumerState::Waiting, event) == (Transition {
            next: ConsumerState::Claiming,
            action: ConsumerAction::Claim,
        }),
{
}

/// A verdict is written only when the pipeline has ended: as true for a
/// verified request, as false for a refused one. Missing keys, an aborted
/// check or a failing store never mark a request; they leave it pending.
pub proof fn lemma_verdict_only_from_pipeline(state: ConsumerState, event: ConsumerEvent)
    ensures
        spec_step(state, event).action matches ConsumerAction::Finalize { verified } ==> state
            == ConsumerState::Verifying && event == (if verified {
            ConsumerEvent::ProofVerified
        } else {
            ConsumerEvent::ProofRejected
        }),
        event == ConsumerEvent::KeysUnavailable && (state == ConsumerState::ResolvingKeys || state
            == ConsumerState::Verifying) ==> spec_step(state, event) == (Transition {
            next: ConsumerState::Waiting,
            action: ConsumerAction::AbandonAndWait,
        }),
        holds_claim(state) && (event == ConsumerEvent::StoreFailed || event
            == ConsumerEvent::VerificationAborted && state == ConsumerState::Verifying)
            ==> spec_step(state, event).action == ConsumerAction::AbandonAndWait,
{
}

/// A completion is announced only after its commit, and with the verdict
/// that was committed.
pub proof fn lemma_notice_follows_commit(state: ConsumerState, event: ConsumerEvent)
    ensures
        spec_step(state, event).action matches ConsumerAction::Notify { verified } ==> state == (
        ConsumerState::Finalizing { verified }) && event == ConsumerEvent::Committed,
{
}

/// One request at a time: a consumer claims only when it holds no request,
/// that is after counting pending work or after waiting.
pub proof fn lemma_claims_one_at_a_time(state: ConsumerState, event: ConsumerEvent)
    ensures
        spec_step(state, event).action == ConsumerAction::Claim ==> !holds_claim(state) && (state
            == ConsumerState::Counting || state == ConsumerState::Waiting),
        spec_step(state, event).action == ConsumerAction::Claim ==> spec_step(state, event).next
            == ConsumerState::Claiming,
{
}

/// Draining: after counting, a consumer claims at once while requests are
/// pending and waits when none is.
pub proof fn lemma_drains_before_waiting(pending: i64)
    ensures
        spec_step(ConsumerState::Counting, ConsumerEvent::Remaining(pending)).action == if pending
            > 0 {
            ConsumerAction::Claim
        } else {
            ConsumerAction::Wait
        },
{
}

/// A consumer that has ended stays ended, and a cancelled consumer ends
/// rather than claim new work.
pub proof fn lemma_stop_is_final(state: ConsumerState, event: ConsumerEvent)
    ensures
        spec_step(ConsumerState::Stopped, event).next == ConsumerState::Stopped,
        spec_step(state, ConsumerEvent::Cancelled).next == ConsumerState::Stopped,
        spec_step(state, event).action is Exit <==> spec_step(state, event).next
            == ConsumerState::Stopped,
{
}

} // verus!
