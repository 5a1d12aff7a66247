//! The work engine: the resumable issuance pipeline as a flat transition
//! table, the error-to-delay table with capped backoff, renewal
//! detection, the work-loop backoff decisions, and the concurrency
//! budget.

use vstd::prelude::*;

use crate::registration::{FailureReason, State, pipeline_index};

verus! {

/// Delay before retrying after DNS propagation or ACME readiness waits.
pub const DELAY_WAIT_SECS: u64 = 60;

/// First retry delay after an unexpected or ownership failure.
pub const DELAY_RETRY_BASE_SECS: u64 = 600;

/// Ceiling on the growing retry delay.
pub const DELAY_RETRY_CAP_SECS: u64 = 24 * 3600;

/// Delay after the provider signalled rate limiting.
pub const DELAY_RATE_LIMITED_SECS: u64 = 3600;

/// Delay before renewing a freshly issued certificate.
pub const RENEW_AFTER_SECS: u64 = 60 * 24 * 3600;

/// How much validity must remain before renewal work is worthwhile.
pub const RENEW_MARGIN_NS: u64 = 30 * 24 * 3600 * 1000000000;

pub const NANOS_PER_SEC: u64 = 1000000000;

/// Failure count at which the growing retry delay reaches its ceiling.
pub const BACKOFF_CEILING_STEP: u64 = 143;

/// The next unit of work for a registration.
#[derive(Clone, Copy, PartialEq, Eq, Structural, Debug)]
pub enum Action {
    Order,
    Ready,
    Finalize,
    Renew,
}

/// A scheduled unit of work. It is visible to dispense at time `t` iff
/// `t >= not_before` (nanoseconds since epoch).
#[derive(Clone, Copy, PartialEq, Eq, Structural, Debug)]
pub struct Task {
    pub action: Action,
    pub not_before: u64,
}

/// The error taxonomy surfaced by one processing step.
#[derive(Clone, Copy, PartialEq, Eq, Structural, Debug)]
pub enum ProcessError {
    /// The challenge TXT record is not yet visible to the public resolver.
    AwaitingDnsPropagation,
    /// The ACME order is not yet ready or valid.
    AwaitingAcmeOrderReady,
    /// The checker no longer confirms ownership of the domain.
    MissingOwnership,
    /// The ACME order expired before it could be completed.
    OrderExpired,
    /// The provider signalled rate limiting.
    RateLimited,
    /// Anything else.
    UnexpectedError,
}

/// What the outside work of one step reported back to the engine.
#[derive(Clone, Copy, PartialEq, Eq, Structural, Debug)]
pub enum StepOutcome {
    /// Every call of the step succeeded.
    Completed,
    /// The challenge TXT record was not visible yet.
    TxtNotVisible,
    /// The ACME order was not in a ready or valid state yet.
    OrderNotReady,
    /// The defensive ownership check failed.
    OwnershipLost,
    /// The ACME order had expired.
    Expired,
    /// A provider answered with a rate limit.
    Throttled,
    /// Any other failure.
    Errored,
}

/// The ACME order lifecycle, as the provider reports it.
#[derive(Clone, Copy, PartialEq, Eq, Structural, Debug)]
pub enum AcmeOrderState {
    Pending,
    Ready,
    Processing,
    Valid,
    Invalid,
}

/// What a poll of the ACME order means for the step driving it: not
/// yet (retry after the wait delay), done, or unrecoverable.
pub fn classify_order_state(s: &AcmeOrderState) -> (r: StepOutcome)
    ensures
        (*s == AcmeOrderState::Pending || *s == AcmeOrderState::Processing) ==> r
            == StepOutcome::OrderNotReady,
        (*s == AcmeOrderState::Ready || *s == AcmeOrderState::Valid) ==> r
            == StepOutcome::Completed,
        *s == AcmeOrderState::Invalid ==> r == StepOutcome::Errored,
{
    match s {
        AcmeOrderState::Pending => StepOutcome::OrderNotReady,
        AcmeOrderState::Processing => StepOutcome::OrderNotReady,
        AcmeOrderState::Ready => StepOutcome::Completed,
        AcmeOrderState::Valid => StepOutcome::Completed,
        AcmeOrderState::Invalid => StepOutcome::Errored,
    }
}

/// The action a task dispensed for a registration in state `s` performs.
pub open spec fn spec_action_for_state(s: State) -> Option<Action> {
    match s {
        State::PendingOrder => Some(Action::Order),
        State::PendingChallengeResponse => Some(Action::Ready),
        State::PendingAcmeApproval => Some(Action::Finalize),
        State::Available => Some(Action::Renew),
        State::Failed(_) => None,
    }
}

/// Decides [`spec_action_for_state`]: which action serves a registration
/// in state `s`; a failed registration gets none until external repair.
pub fn action_for_state(s: &State) -> (r: Option<Action>)
    ensures
        r == spec_action_for_state(*s),
{
    match s {
        State::PendingOrder => Some(Action::Order),
        State::PendingChallengeResponse => Some(Action::Ready),
        State::PendingAcmeApproval => Some(Action::Finalize),
        State::Available => Some(Action::Renew),
        State::Failed(_) => None,
    }
}

/// The growing, capped retry delay: it starts at the base, grows linearly
/// with the number of past failures, and stops at the ceiling.
pub open spec fn spec_backoff_secs(failures: u64) -> int {
    if failures >= BACKOFF_CEILING_STEP {
        DELAY_RETRY_CAP_SECS as int
    } else {
        DELAY_RETRY_BASE_SECS * (failures + 1)
    }
}

/// The retry delay owed to an error, given how often work on this
/// registration has already failed with a growing-delay error.
pub open spec fn spec_retry_delay_secs(e: ProcessError, failures: u64) -> int {
    match e {
        ProcessError::AwaitingDnsPropagation => DELAY_WAIT_SECS as int,
        ProcessError::AwaitingAcmeOrderReady => DELAY_WAIT_SECS as int,
        ProcessError::MissingOwnership => spec_backoff_secs(failures),
        ProcessError::OrderExpired => 0,
        ProcessError::RateLimited => DELAY_RATE_LIMITED_SECS as int,
        ProcessError::UnexpectedError => spec_backoff_secs(failures),
    }
}

/// Decides [`spec_retry_delay_secs`]: the delay table of the engine.
pub fn retry_delay_secs(e: &ProcessError, failures: u64) -> (r: u64)
    ensures
        r == spec_retry_delay_secs(*e, failures),
{
    match e {
        ProcessError::AwaitingDnsPropagation => DELAY_WAIT_SECS,
        ProcessError::AwaitingAcmeOrderReady => DELAY_WAIT_SECS,
        ProcessError::MissingOwnership => backoff_secs(failures),
        ProcessError::OrderExpired => 0,
        ProcessError::RateLimited => DELAY_RATE_LIMITED_SECS,
        ProcessError::UnexpectedError => backoff_secs(failures),
    }
}

/// Decides [`spec_backoff_secs`].
pub fn backoff_secs(failures: u64) -> (r: u64)
    ensures
        r == spec_backoff_secs(failures),
{
    if failures >= BACKOFF_CEILING_STEP {
        DELAY_RETRY_CAP_SECS
    } else {
        DELAY_RETRY_BASE_SECS * (failures + 1)
    }
}

/// Law: the retry delay of a growing-delay error never decreases across
/// successive failures of the same registration, and never exceeds the
/// ceiling.
pub proof fn lemma_backoff_monotone(e: ProcessError, f1: u64, f2: u64)
    requires
        e is MissingOwnership || e is UnexpectedError,
        f1 <= f2,
    ensures
        spec_retry_delay_secs(e, f1) <= spec_retry_delay_secs(e, f2),
        spec_retry_delay_secs(e, f2) <= DELAY_RETRY_CAP_SECS,
{
}

/// The registration state recorded after a step failed with `e`, per the
/// error table: waits park the registration at the step being awaited, an
/// expired order resets the pipeline, rate limiting leaves the state
/// alone, and the rest is terminal failure.
pub open spec fn spec_state_after_error(e: ProcessError, current: State) -> State {
    match e {
        ProcessError::AwaitingDnsPropagation => State::PendingChallengeResponse,
        ProcessError::AwaitingAcmeOrderReady => State::PendingAcmeApproval,
        ProcessError::MissingOwnership => State::Failed(FailureReason::NotOwner),
        ProcessError::OrderExpired => State::PendingOrder,
        ProcessError::RateLimited => current,
        ProcessError::UnexpectedError => State::Failed(FailureReason::Custom),
    }
}

/// Decides [`spec_state_after_error`].
pub fn state_after_error(e: &ProcessError, current: &State) -> (r: State)
    ensures
        r == spec_state_after_error(*e, *current),
{
    match e {
        ProcessError::AwaitingDnsPropagation => State::PendingChallengeResponse,
        ProcessError::AwaitingAcmeOrderReady => State::PendingAcmeApproval,
        ProcessError::MissingOwnership => State::Failed(FailureReason::NotOwner),
        ProcessError::OrderExpired => State::PendingOrder,
        ProcessError::RateLimited => *current,
        ProcessError::UnexpectedError => State::Failed(FailureReason::Custom),
    }
}

/// One forward transition of the pipeline, as a value: given the current
/// state, the dispensed action and what the step's outside work reported,
/// either the certificate is now available (`Ok`) or the step ends in one
/// of the tabulated errors, which in turn fixes the recorded state and
/// the retry delay. A mismatched action is unexpected; a completed
/// intermediate step parks the registration awaiting the next one.
pub open spec fn spec_process_transition(s: State, a: Action, o: StepOutcome) -> Result<
    (),
    ProcessError,
> {
    if spec_action_for_state(s) != Some(a) {
        Err(ProcessError::UnexpectedError)
    } else {
        match o {
            StepOutcome::OwnershipLost => Err(ProcessError::MissingOwnership),
            StepOutcome::Expired => Err(ProcessError::OrderExpired),
            StepOutcome::Throttled => Err(ProcessError::RateLimited),
            StepOutcome::Errored => Err(ProcessError::UnexpectedError),
            StepOutcome::TxtNotVisible => if a == Action::Ready {
                Err(ProcessError::AwaitingDnsPropagation)
            } else {
                Err(ProcessError::UnexpectedError)
            },
            StepOutcome::OrderNotReady => if a == Action::Finalize {
                Err(ProcessError::AwaitingAcmeOrderReady)
            } else {
                Err(ProcessError::UnexpectedError)
            },
            StepOutcome::Completed => match a {
                Action::Order => Err(ProcessError::AwaitingDnsPropagation),
                Action::Ready => Err(ProcessError::AwaitingAcmeOrderReady),
                Action::Finalize => Ok(()),
                Action::Renew => Err(ProcessError::AwaitingDnsPropagation),
            },
        }
    }
}

/// Decides [`spec_process_transition`]: the pipeline's transition table.
pub fn process_transition(s: &State, a: &Action, o: &StepOutcome) -> (r: Result<
    (),
    ProcessError,
>)
    ensures
        r == spec_process_transition(*s, *a, *o),
{
    let expected = action_for_state(s);
    let matched = match expected {
        Some(x) => x == *a,
        None => false,
    };
    if !matched {
        return Err(ProcessError::UnexpectedError);
    }
    match o {
        StepOutcome::OwnershipLost => Err(ProcessError::MissingOwnership),
        StepOutcome::Expired => Err(ProcessError::OrderExpired),
        StepOutcome::Throttled => Err(ProcessError::RateLimited),
        StepOutcome::Errored => Err(ProcessError::UnexpectedError),
        StepOutcome::TxtNotVisible => if *a == Action::Ready {
            Err(ProcessError::AwaitingDnsPropagation)
        } else {
            Err(ProcessError::UnexpectedError)
        },
        StepOutcome::OrderNotReady => if *a == Action::Finalize {
            Err(ProcessError::AwaitingAcmeOrderReady)
        } else {
            Err(ProcessError::UnexpectedError)
        },
        StepOutcome::Completed => match a {
            Action::Order => Err(ProcessError::AwaitingDnsPropagation),
            Action::Ready => Err(ProcessError::AwaitingAcmeOrderReady),
            Action::Finalize => Ok(()),
            Action::Renew => Err(ProcessError::AwaitingDnsPropagation),
        },
    }
}

/// The state the loop records after a step: `Available` on success, else
/// what the error table dictates.
pub open spec fn spec_post_state(current: State, r: Result<(), ProcessError>) -> State {
    match r {
        Ok(_) => State::Available,
        Err(e) => spec_state_after_error(e, current),
    }
}

/// Decides [`spec_post_state`].
pub fn post_state(current: &State, r: &Result<(), ProcessError>) -> (s: State)
    ensures
        s == spec_post_state(*current, *r),
{
    match r {
        Ok(_) => State::Available,
        Err(e) => state_after_error(e, current),
    }
}

/// Law: the pipeline is resumable and makes forward progress. From any
/// state short of `Available`, completing the step whose action serves
/// that state advances the recorded state by exactly one pipeline
/// position, so a step repeated after an interruption (the state already
/// written, the re-queue lost) continues where the pipeline stood.
pub proof fn lemma_pipeline_progress(s: State, a: Action)
    requires
        spec_action_for_state(s) == Some(a),
        pipeline_index(s) < 3,
    ensures
        pipeline_index(
            spec_post_state(s, spec_process_transition(s, a, StepOutcome::Completed)),
        ) == pipeline_index(s) + 1,
{
}

/// When to renew the certificate: the time at which the loop should
/// re-queue a renewal that fired while plenty of validity remained.
#[derive(Clone, Copy, PartialEq, Eq, Structural, Debug)]
pub enum RenewalDecision {
    /// The certificate is still fresh: acknowledge the task as a no-op
    /// and re-queue it for the remaining interval.
    Skip { requeue_at: u64 },
    /// Renewal work is due now.
    Proceed,
}

/// A renewal task is a no-op while the stored certificate keeps more
/// than the renewal margin of validity; it is then re-queued for the
/// moment the margin is reached.
pub open spec fn spec_renewal_decision(now_ns: u64, not_after_ns: Option<u64>) -> RenewalDecision {
    match not_after_ns {
        Some(na) => if na - now_ns > RENEW_MARGIN_NS {
            RenewalDecision::Skip { requeue_at: (na - RENEW_MARGIN_NS) as u64 }
        } else {
            RenewalDecision::Proceed
        },
        None => RenewalDecision::Proceed,
    }
}

/// Decides [`spec_renewal_decision`] from the stored certificate's
/// expiry, if one exists.
pub fn renewal_decision(now_ns: u64, not_after_ns: &Option<u64>) -> (r: RenewalDecision)
    ensures
        r == spec_renewal_decision(now_ns, *not_after_ns),
{
    match not_after_ns {
        Some(na) => {
            if *na > now_ns && *na - now_ns > RENEW_MARGIN_NS {
                RenewalDecision::Skip { requeue_at: *na - RENEW_MARGIN_NS }
            } else {
                RenewalDecision::Proceed
            }
        },
        None => RenewalDecision::Proceed,
    }
}

/// The time at which the loop re-queues the registration's task: after
/// success, the renewal interval; after an error, the delay the table
/// owes it. Saturates at the largest timestamp.
pub open spec fn spec_requeue_at(now_ns: u64, r: Result<(), ProcessError>, failures: u64) -> int {
    let delay_ns = match r {
        Ok(_) => RENEW_AFTER_SECS * NANOS_PER_SEC,
        Err(e) => spec_retry_delay_secs(e, failures) * NANOS_PER_SEC,
    };
    if now_ns + delay_ns > u64::MAX {
        u64::MAX as int
    } else {
        now_ns + delay_ns
    }
}

/// Decides [`spec_requeue_at`].
pub fn requeue_at(now_ns: u64, r: &Result<(), ProcessError>, failures: u64) -> (t: u64)
    ensures
        t == spec_requeue_at(now_ns, *r, failures),
{
    let delay_secs = match r {
        Ok(_) => RENEW_AFTER_SECS,
        Err(e) => retry_delay_secs(e, failures),
    };
    assert(delay_secs <= RENEW_AFTER_SECS);
    let delay_ns = delay_secs * NANOS_PER_SEC;
    if now_ns > u64::MAX - delay_ns {
        u64::MAX
    } else {
        now_ns + delay_ns
    }
}

/// Errors of the cheap "is work visible" query.
#[derive(Clone, Copy, PartialEq, Eq, Structural, Debug)]
pub enum PeekError {
    NoTasksAvailable,
    UnexpectedError,
}

/// Errors of the atomic task reservation.
#[derive(Clone, Copy, PartialEq, Eq, Structural, Debug)]
pub enum DispenseError {
    NoTasksAvailable,
    UnexpectedError,
}

/// How long the loop sleeps after a failed peek: the configured idle
/// sleep when nothing is queued, a short pause on a transient error.
pub fn peek_backoff_secs(e: &PeekError, peek_sleep_sec: u64) -> (r: u64)
    ensures
        e is NoTasksAvailable ==> r == peek_sleep_sec,
        e is UnexpectedError ==> r == 10,
{
    match e {
        PeekError::NoTasksAvailable => peek_sleep_sec,
        PeekError::UnexpectedError => 10,
    }
}

/// How long the loop sleeps after a failed dispense; same policy as for
/// a failed peek.
pub fn dispense_backoff_secs(e: &DispenseError, peek_sleep_sec: u64) -> (r: u64)
    ensures
        e is NoTasksAvailable ==> r == peek_sleep_sec,
        e is UnexpectedError ==> r == 10,
{
    match e {
        DispenseError::NoTasksAvailable => peek_sleep_sec,
        DispenseError::UnexpectedError => 10,
    }
}

/// The concurrency budget of the work loop: a counting semaphore. The
/// number of permits out at once never exceeds the limit.
pub struct Budget {
    available: u64,
    limit: u64,
}

impl Budget {
    /// The budget never hands out more permits than its limit.
    pub closed spec fn wf(&self) -> bool {
        self.available <= self.limit
    }

    pub closed spec fn limit(&self) -> u64 {
        self.limit
    }

    pub closed spec fn available(&self) -> u64 {
        self.available
    }

    /// How many units of work hold a permit right now.
    pub open spec fn in_flight(&self) -> int {
        self.limit() - self.available()
    }

    pub fn new(limit: u64) -> (b: Budget)
        ensures
            b.wf(),
            b.limit() == limit,
            b.available() == limit,
    {
        Budget { available: limit, limit }
    }

    /// Takes a permit if one is free.
    pub fn try_acquire(&mut self) -> (r: bool)
        requires
            old(self).wf(),
        ensures
            final(self).wf(),
            final(self).limit() == old(self).limit(),
            r == (old(self).available() > 0),
            final(self).in_flight() == if r {
                old(self).in_flight() + 1
            } else {
                old(self).in_flight()
            },
    {
        if self.available > 0 {
            self.available = self.available - 1;
            true
        } else {
            false
        }
    }

    /// Returns a permit when a unit of work ends, success or failure.
    pub fn release(&mut self)
        requires
            old(self).wf(),
            old(self).in_flight() > 0,
        ensures
            final(self).wf(),
            final(self).limit() == old(self).limit(),
            final(self).in_flight() == old(self).in_flight() - 1,
    {
        self.available = self.available + 1;
    }
}

/// Law: work in flight never exceeds the budget's limit.
pub proof fn lemma_budget_bounded(b: Budget)
    requires
        b.wf(),
    ensures
        0 <= b.in_flight() <= b.limit(),
{
}

} // verus!
