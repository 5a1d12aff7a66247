use cert_issuer::registration::{FailureReason, State};
use cert_issuer::work::{
    AcmeOrderState, Action, Budget, DispenseError, PeekError, ProcessError, RenewalDecision,
    StepOutcome, action_for_state, backoff_secs, classify_order_state, dispense_backoff_secs,
    peek_backoff_secs, post_state, process_transition, renewal_decision, requeue_at,
    retry_delay_secs, state_after_error,
};

const NANOS_PER_SEC: u64 = 1_000_000_000;
const DAY_NS: u64 = 24 * 3600 * NANOS_PER_SEC;

#[test]
fn delay_table_exact_values() {
    assert_eq!(retry_delay_secs(&ProcessError::AwaitingDnsPropagation, 0), 60);
    assert_eq!(retry_delay_secs(&ProcessError::AwaitingAcmeOrderReady, 0), 60);
    assert_eq!(retry_delay_secs(&ProcessError::OrderExpired, 5), 0);
    assert_eq!(retry_delay_secs(&ProcessError::RateLimited, 5), 3600);
    assert_eq!(retry_delay_secs(&ProcessError::MissingOwnership, 0), 600);
    assert_eq!(retry_delay_secs(&ProcessError::UnexpectedError, 0), 600);
}

#[test]
fn backoff_never_decreases_and_caps() {
    let mut previous: u64 = 0;
    for failures in 0..200u64 {
        let delay = backoff_secs(failures);
        assert!(delay >= previous);
        assert!(delay <= 24 * 3600);
        previous = delay;
    }
    assert_eq!(backoff_secs(0), 600);
    assert_eq!(backoff_secs(1), 1200);
    assert_eq!(backoff_secs(143), 24 * 3600);
    assert_eq!(backoff_secs(10_000), 24 * 3600);
}

#[test]
fn error_state_table() {
    let current = State::PendingAcmeApproval;
    assert_eq!(
        state_after_error(&ProcessError::AwaitingDnsPropagation, &current),
        State::PendingChallengeResponse
    );
    assert_eq!(
        state_after_error(&ProcessError::AwaitingAcmeOrderReady, &current),
        State::PendingAcmeApproval
    );
    assert_eq!(
        state_after_error(&ProcessError::MissingOwnership, &current),
        State::Failed(FailureReason::NotOwner)
    );
    assert_eq!(state_after_error(&ProcessError::OrderExpired, &current), State::PendingOrder);
    assert_eq!(state_after_error(&ProcessError::RateLimited, &current), current);
    assert_eq!(
        state_after_error(&ProcessError::UnexpectedError, &current),
        State::Failed(FailureReason::Custom)
    );
}

#[test]
fn pipeline_steps_forward() {
    let r = process_transition(&State::PendingOrder, &Action::Order, &StepOutcome::Completed);
    assert_eq!(r, Err(ProcessError::AwaitingDnsPropagation));
    assert_eq!(post_state(&State::PendingOrder, &r), State::PendingChallengeResponse);

    let r = process_transition(
        &State::PendingChallengeResponse,
        &Action::Ready,
        &StepOutcome::Completed,
    );
    assert_eq!(r, Err(ProcessError::AwaitingAcmeOrderReady));
    assert_eq!(post_state(&State::PendingChallengeResponse, &r), State::PendingAcmeApproval);

    let r = process_transition(&State::PendingAcmeApproval, &Action::Finalize, &StepOutcome::Completed);
    assert_eq!(r, Ok(()));
    assert_eq!(post_state(&State::PendingAcmeApproval, &r), State::Available);
}

#[test]
fn mismatched_action_is_unexpected() {
    let r = process_transition(&State::PendingOrder, &Action::Finalize, &StepOutcome::Completed);
    assert_eq!(r, Err(ProcessError::UnexpectedError));
    let r = process_transition(
        &State::Failed(FailureReason::Custom),
        &Action::Order,
        &StepOutcome::Completed,
    );
    assert_eq!(r, Err(ProcessError::UnexpectedError));
}

#[test]
fn ownership_lost_mid_flight() {
    // After `PendingAcmeApproval`, the defensive check fails: the state
    // becomes terminal failure and the retry is scheduled ten minutes out.
    let r = process_transition(
        &State::PendingAcmeApproval,
        &Action::Finalize,
        &StepOutcome::OwnershipLost,
    );
    assert_eq!(r, Err(ProcessError::MissingOwnership));
    assert_eq!(
        post_state(&State::PendingAcmeApproval, &r),
        State::Failed(FailureReason::NotOwner)
    );
    let now: u64 = 1_700_000_000 * NANOS_PER_SEC;
    assert_eq!(requeue_at(now, &r, 0), now + 600 * NANOS_PER_SEC);
}

#[test]
fn order_expired_resets_pipeline() {
    // ACME reports the order expired at the `Ready` step: back to the
    // start, re-queued immediately.
    let r = process_transition(
        &State::PendingChallengeResponse,
        &Action::Ready,
        &StepOutcome::Expired,
    );
    assert_eq!(r, Err(ProcessError::OrderExpired));
    assert_eq!(post_state(&State::PendingChallengeResponse, &r), State::PendingOrder);
    let now: u64 = 42;
    assert_eq!(requeue_at(now, &r, 3), now);
}

#[test]
fn renewal_fires_early_is_noop() {
    // The renewal task fires while the certificate keeps 31 days of
    // validity: skip, re-queued for the remaining one day.
    let now: u64 = 1_700_000_000 * NANOS_PER_SEC;
    let not_after = now + 31 * DAY_NS;
    match renewal_decision(now, &Some(not_after)) {
        RenewalDecision::Skip { requeue_at } => assert_eq!(requeue_at, now + DAY_NS),
        RenewalDecision::Proceed => panic!("expected a skip"),
    }
}

#[test]
fn renewal_due_proceeds() {
    let now: u64 = 1_700_000_000 * NANOS_PER_SEC;
    assert_eq!(renewal_decision(now, &Some(now + 29 * DAY_NS)), RenewalDecision::Proceed);
    assert_eq!(renewal_decision(now, &Some(now - 1)), RenewalDecision::Proceed);
    assert_eq!(renewal_decision(now, &None), RenewalDecision::Proceed);
}

#[test]
fn success_schedules_renewal() {
    let now: u64 = 1_700_000_000 * NANOS_PER_SEC;
    let t = requeue_at(now, &Ok(()), 0);
    assert_eq!(t, now + 60 * DAY_NS);
}

#[test]
fn action_follows_state() {
    assert_eq!(action_for_state(&State::PendingOrder), Some(Action::Order));
    assert_eq!(action_for_state(&State::PendingChallengeResponse), Some(Action::Ready));
    assert_eq!(action_for_state(&State::PendingAcmeApproval), Some(Action::Finalize));
    assert_eq!(action_for_state(&State::Available), Some(Action::Renew));
    assert_eq!(action_for_state(&State::Failed(FailureReason::NotOwner)), None);
}

#[test]
fn loop_backoff_choices() {
    assert_eq!(peek_backoff_secs(&PeekError::NoTasksAvailable, 60), 60);
    assert_eq!(peek_backoff_secs(&PeekError::UnexpectedError, 60), 10);
    assert_eq!(dispense_backoff_secs(&DispenseError::NoTasksAvailable, 45), 45);
    assert_eq!(dispense_backoff_secs(&DispenseError::UnexpectedError, 45), 10);
}

#[test]
fn acme_order_state_classification() {
    assert_eq!(classify_order_state(&AcmeOrderState::Pending), StepOutcome::OrderNotReady);
    assert_eq!(classify_order_state(&AcmeOrderState::Processing), StepOutcome::OrderNotReady);
    assert_eq!(classify_order_state(&AcmeOrderState::Ready), StepOutcome::Completed);
    assert_eq!(classify_order_state(&AcmeOrderState::Valid), StepOutcome::Completed);
    assert_eq!(classify_order_state(&AcmeOrderState::Invalid), StepOutcome::Errored);
    // An invalid order at the finalize step is terminal failure.
    let r = process_transition(
        &State::PendingAcmeApproval,
        &Action::Finalize,
        &classify_order_state(&AcmeOrderState::Invalid),
    );
    assert_eq!(r, Err(ProcessError::UnexpectedError));
    assert_eq!(
        post_state(&State::PendingAcmeApproval, &r),
        State::Failed(FailureReason::Custom)
    );
}

#[test]
fn budget_bounds_concurrency() {
    // One hundred ready tasks against a budget of ten permits: at most
    // ten units of work ever run at once, and all hundred finish.
    let mut budget = Budget::new(10);
    let mut waiting: u64 = 100;
    let mut active: u64 = 0;
    let mut max_active: u64 = 0;
    let mut done: u64 = 0;
    while done < 100 {
        while waiting > 0 && budget.try_acquire() {
            waiting -= 1;
            active += 1;
            if active > max_active {
                max_active = active;
            }
        }
        // One unit of work finishes and returns its permit.
        assert!(active > 0);
        active -= 1;
        done += 1;
        budget.release();
    }
    assert_eq!(max_active, 10);
    assert_eq!(done, 100);
    assert_eq!(active, 0);
}

#[test]
fn budget_refuses_past_limit() {
    let mut budget = Budget::new(2);
    assert!(budget.try_acquire());
    assert!(budget.try_acquire());
    assert!(!budget.try_acquire());
    budget.release();
    assert!(budget.try_acquire());
}
