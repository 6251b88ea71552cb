use backend::{counter_delta, like_tx_step, AuthUser, LikeOp, Outcome, TxAction, TxEvent, TxStage};

fn member(id: i32) -> AuthUser {
    AuthUser::authenticated(id, format!("user{}", id), false)
}

/// Runs the step machine over the store's answers, returning the actions asked for.
fn run(op: LikeOp, user: &AuthUser, answers: &[TxEvent]) -> Vec<TxAction> {
    let mut stage = TxStage::Start;
    let mut event = TxEvent::Started;
    let mut actions = Vec::new();
    let mut answers = answers.iter();
    loop {
        let (next, action) = like_tx_step(op, user, stage, event);
        stage = next;
        actions.push(action);
        if let TxAction::Finish(_) | TxAction::Idle = action {
            return actions;
        }
        event = *answers.next().expect("the machine asked for more than the test answered");
    }
}

fn happy(op: LikeOp) -> Vec<TxEvent> {
    vec![
        TxEvent::Opened(true),
        TxEvent::Checked { post_exists: true, liked: op == LikeOp::Unlike },
        TxEvent::Written,
        TxEvent::Counted(true),
        TxEvent::Committed(true),
    ]
}

#[test]
fn like_commits_write_and_counter_together() {
    let actions = run(LikeOp::Like, &member(1), &happy(LikeOp::Like));
    assert_eq!(
        actions,
        vec![
            TxAction::Begin,
            TxAction::LookUp,
            TxAction::Write,
            TxAction::AdjustCounter,
            TxAction::Commit,
            TxAction::Finish(Outcome::Created),
        ]
    );
}

#[test]
fn unlike_commits_write_and_counter_together() {
    let actions = run(LikeOp::Unlike, &member(1), &happy(LikeOp::Unlike));
    assert_eq!(actions.last(), Some(&TxAction::Finish(Outcome::Success)));
    assert_eq!(actions.len(), 6);
}

#[test]
fn anonymous_is_refused_before_the_store() {
    assert_eq!(run(LikeOp::Like, &AuthUser::anonymous(), &[]), vec![TxAction::Finish(Outcome::Unauthorized)]);
    assert_eq!(run(LikeOp::Unlike, &AuthUser::anonymous(), &[]), vec![TxAction::Finish(Outcome::Unauthorized)]);
}

#[test]
fn decisions_inside_the_transaction() {
    let missing = [TxEvent::Opened(true), TxEvent::Checked { post_exists: false, liked: false }];
    assert_eq!(run(LikeOp::Like, &member(1), &missing).last(), Some(&TxAction::Finish(Outcome::NotFound)));
    let repeated = [TxEvent::Opened(true), TxEvent::Checked { post_exists: true, liked: true }];
    assert_eq!(run(LikeOp::Like, &member(1), &repeated).last(), Some(&TxAction::Finish(Outcome::Conflict)));
    let not_liked = [TxEvent::Opened(true), TxEvent::Checked { post_exists: true, liked: false }];
    assert_eq!(run(LikeOp::Unlike, &member(1), &not_liked).last(), Some(&TxAction::Finish(Outcome::NotFound)));
}

#[test]
fn a_racing_duplicate_insert_is_a_conflict() {
    let answers = [TxEvent::Opened(true), TxEvent::Checked { post_exists: true, liked: false }, TxEvent::WriteConflict];
    let actions = run(LikeOp::Like, &member(1), &answers);
    assert_eq!(actions.last(), Some(&TxAction::Finish(Outcome::Conflict)));
    assert!(!actions.contains(&TxAction::Commit));
}

#[test]
fn any_store_failure_answers_without_commit() {
    let failures: Vec<Vec<TxEvent>> = vec![
        vec![TxEvent::Opened(false)],
        vec![TxEvent::Opened(true), TxEvent::CheckFailed],
        vec![TxEvent::Opened(true), TxEvent::Checked { post_exists: true, liked: false }, TxEvent::WriteFailed],
        vec![
            TxEvent::Opened(true),
            TxEvent::Checked { post_exists: true, liked: false },
            TxEvent::Written,
            TxEvent::Counted(false),
        ],
    ];
    for answers in failures {
        let actions = run(LikeOp::Like, &member(1), &answers);
        assert_eq!(actions.last(), Some(&TxAction::Finish(Outcome::InternalError)));
        assert!(!actions.contains(&TxAction::Commit));
    }
    let mut commit_fails = happy(LikeOp::Like);
    commit_fails[4] = TxEvent::Committed(false);
    let actions = run(LikeOp::Like, &member(1), &commit_fails);
    assert_eq!(actions.last(), Some(&TxAction::Finish(Outcome::InternalError)));
}

#[test]
fn finished_transaction_stays_idle() {
    let (stage, action) = like_tx_step(LikeOp::Like, &member(1), TxStage::Finished, TxEvent::Committed(true));
    assert_eq!(stage, TxStage::Finished);
    assert_eq!(action, TxAction::Idle);
}

#[test]
fn counter_deltas() {
    assert_eq!(counter_delta(LikeOp::Like), 1);
    assert_eq!(counter_delta(LikeOp::Unlike), -1);
}
