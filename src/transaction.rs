use vstd::prelude::*;
use crate::likes::{like_decision, unlike_decision};
use crate::models::AuthUser;
use crate::outcome::Outcome;

verus! {

/// Which change to the like relation a transaction makes.
#[derive(Clone, Copy, Debug, PartialEq, Eq, Structural)]
pub enum LikeOp {
    Like,
    Unlike,
}

/// Where a like or unlike transaction against the store stands.
#[derive(Clone, Copy, Debug, PartialEq, Eq, Structural)]
pub enum TxStage {
    /// Nothing done yet.
    Start,
    /// Waiting for the transaction to open.
    Opening,
    /// Waiting for the post and like lookups, made inside the transaction.
    Checking,
    /// Waiting for the like row to be inserted or deleted.
    Writing,
    /// Waiting for the post's counter to change.
    Counting,
    /// Waiting for the commit.
    Committing,
    /// Answered; nothing more happens.
    Finished,
}

/// What the store reported for the last action.
#[derive(Clone, Copy, Debug, PartialEq, Eq, Structural)]
pub enum TxEvent {
    /// No action has run yet.
    Started,
    Opened(bool),
    Checked { post_exists: bool, liked: bool },
    CheckFailed,
    Written,
    /// The like row broke the uniqueness constraint.
    WriteConflict,
    WriteFailed,
    Counted(bool),
    Committed(bool),
}

/// What the caller must do next.
#[derive(Clone, Copy, Debug, PartialEq, Eq, Structural)]
pub enum TxAction {
    /// Open a transaction.
    Begin,
    /// Inside it, look up the post (locking its row) and the caller's like.
    LookUp,
    /// Insert (like) or delete (unlike) the caller's like row.
    Write,
    /// Add `counter_delta` to the post's counter.
    AdjustCounter,
    Commit,
    /// Answer with this outcome; an open, uncommitted transaction is rolled back.
    Finish(Outcome),
    /// Nothing: the transaction has already answered.
    Idle,
}

/// The error a like or unlike decision gives from what the store holds,
/// `None` when it may go ahead.
pub open spec fn tx_decision(op: LikeOp, connected: bool, post_exists: bool, liked: bool) -> Option<Outcome> {
    if !connected {
        Some(Outcome::Unauthorized)
    } else if !post_exists {
        Some(Outcome::NotFound)
    } else {
        match op {
            LikeOp::Like => if liked { Some(Outcome::Conflict) } else { None },
            LikeOp::Unlike => if liked { None } else { Some(Outcome::NotFound) },
        }
    }
}

/// The outcome of a committed transaction.
pub open spec fn tx_success(op: LikeOp) -> Outcome {
    match op {
        LikeOp::Like => Outcome::Created,
        LikeOp::Unlike => Outcome::Success,
    }
}

/// The transition table of a like or unlike transaction: from a stage and
/// what the store reported, the next stage and the next action.
pub open spec fn tx_next(op: LikeOp, connected: bool, stage: TxStage, event: TxEvent) -> (TxStage, TxAction) {
    match (stage, event) {
        (TxStage::Start, _) => if connected {
            (TxStage::Opening, TxAction::Begin)
        } else {
            (TxStage::Finished, TxAction::Finish(Outcome::Unauthorized))
        },
        (TxStage::Opening, TxEvent::Opened(true)) => (TxStage::Checking, TxAction::LookUp),
        (TxStage::Checking, TxEvent::Checked { post_exists, liked }) => match tx_decision(op, connected, post_exists, liked) {
            Some(e) => (TxStage::Finished, TxAction::Finish(e)),
            None => (TxStage::Writing, TxAction::Write),
        },
        (TxStage::Writing, TxEvent::Written) => (TxStage::Counting, TxAction::AdjustCounter),
        (TxStage::Writing, TxEvent::WriteConflict) => (TxStage::Finished, TxAction::Finish(Outcome::Conflict)),
        (TxStage::Counting, TxEvent::Counted(true)) => (TxStage::Committing, TxAction::Commit),
        (TxStage::Committing, TxEvent::Committed(true)) => (TxStage::Finished, TxAction::Finish(tx_success(op))),
        (TxStage::Finished, _) => (TxStage::Finished, TxAction::Idle),
        _ => (TxStage::Finished, TxAction::Finish(Outcome::InternalError)),
    }
}

/// How much a committed transaction moves the post's counter.
pub fn counter_delta(op: LikeOp) -> (r: i32)
    ensures
        op == LikeOp::Like ==> r == 1,
        op == LikeOp::Unlike ==> r == -1,
{
    match op {
        LikeOp::Like => 1,
        LikeOp::Unlike => -1,
    }
}

/// One step of a like or unlike transaction by `user`: the caller performs
/// the returned action and hands back what the store reported.
pub fn like_tx_step(op: LikeOp, user: &AuthUser, stage: TxStage, event: TxEvent) -> (r: (TxStage, TxAction))
    ensures
        r == tx_next(op, user.is_connected, stage, event),
{
    match (stage, event) {
        (TxStage::Start, _) => if user.is_connected {
            (TxStage::Opening, TxAction::Begin)
        } else {
            (TxStage::Finished, TxAction::Finish(Outcome::Unauthorized))
        },
        (TxStage::Opening, TxEvent::Opened(true)) => (TxStage::Checking, TxAction::LookUp),
        (TxStage::Checking, TxEvent::Checked { post_exists, liked }) => {
            let decided = match op {
                LikeOp::Like => like_decision(user, post_exists, liked),
                LikeOp::Unlike => unlike_decision(user, post_exists, liked),
            };
            match decided {
                Err(e) => (TxStage::Finished, TxAction::Finish(e)),
                Ok(()) => (TxStage::Writing, TxAction::Write),
            }
        },
        (TxStage::Writing, TxEvent::Written) => (TxStage::Counting, TxAction::AdjustCounter),
        (TxStage::Writing, TxEvent::WriteConflict) => (TxStage::Finished, TxAction::Finish(Outcome::Conflict)),
        (TxStage::Counting, TxEvent::Counted(true)) => (TxStage::Committing, TxAction::Commit),
        (TxStage::Committing, TxEvent::Committed(true)) => {
            let done = match op {
                LikeOp::Like => Outcome::Created,
                LikeOp::Unlike => Outcome::Success,
            };
            (TxStage::Finished, TxAction::Finish(done))
        },
        (TxStage::Finished, _) => (TxStage::Finished, TxAction::Idle),
        _ => (TxStage::Finished, TxAction::Finish(Outcome::InternalError)),
    }
}

/// A transaction answers with success only on a successful commit, it
/// commits only after the counter changed, changes the counter only after the
/// like row was written, and writes only what the decision allowed; every
/// other failure answers without committing. So the like row and the counter
/// change are seen together or not at all.
pub proof fn lemma_success_only_after_all_effects(op: LikeOp, connected: bool, stage: TxStage, event: TxEvent)
    ensures
        tx_next(op, connected, stage, event).1 matches TxAction::Finish(o) && o.spec_is_success()
            ==> stage == TxStage::Committing && event == TxEvent::Committed(true),
        tx_next(op, connected, stage, event).1 == TxAction::Commit
            ==> stage == TxStage::Counting && event == TxEvent::Counted(true),
        tx_next(op, connected, stage, event).1 == TxAction::AdjustCounter
            ==> stage == TxStage::Writing && event == TxEvent::Written,
        tx_next(op, connected, stage, event).1 == TxAction::Write
            ==> stage == TxStage::Checking && (event matches TxEvent::Checked { post_exists, liked }
                && tx_decision(op, connected, post_exists, liked) is None),
        stage == TxStage::Finished ==> tx_next(op, connected, stage, event) == (TxStage::Finished, TxAction::Idle),
{
}

/// An anonymous caller is refused before anything touches the store.
pub proof fn lemma_anonymous_refused_first(op: LikeOp, event: TxEvent)
    ensures
        tx_next(op, false, TxStage::Start, event) == (TxStage::Finished, TxAction::Finish(Outcome::Unauthorized)),
{
}

} // verus!
