//! Decisions of the HTTP layer: mapping checker failures to status
//! codes, admission of a new registration, and the update and removal
//! rules. The HTTP server itself lives outside the library and hands
//! these functions plain values.

use vstd::prelude::*;

use crate::check::CheckError;
use crate::registration::{Registration, State, UpdateType, apply_update, external_update_allowed};
use crate::work::Action;

verus! {

/// Failures of the HTTP layer, each mapped to one status code.
#[derive(Clone, Copy, PartialEq, Eq, Structural, Debug)]
pub enum ApiError {
    /// The request is invalid as stated.
    Validation,
    /// The caller does not own the domain.
    Forbidden,
    /// No such registration.
    NotFound,
    /// The requested state transition is illegal.
    Conflict,
    /// The orchestrator or a lookup it needs is unavailable.
    Unavailable,
    /// Anything else.
    Internal,
}

/// The status code of each failure.
pub open spec fn spec_http_status(e: ApiError) -> u16 {
    match e {
        ApiError::Validation => 400,
        ApiError::Forbidden => 403,
        ApiError::NotFound => 404,
        ApiError::Conflict => 409,
        ApiError::Unavailable => 503,
        ApiError::Internal => 500,
    }
}

/// Decides [`spec_http_status`].
pub fn http_status(e: &ApiError) -> (r: u16)
    ensures
        r == spec_http_status(*e),
{
    match e {
        ApiError::Validation => 400,
        ApiError::Forbidden => 403,
        ApiError::NotFound => 404,
        ApiError::Conflict => 409,
        ApiError::Unavailable => 503,
        ApiError::Internal => 500,
    }
}

/// How each checker failure surfaces over HTTP: validation failures are
/// the caller's to fix (400), ownership failures are forbidden (403),
/// and an unavailable lookup is the service's fault (503).
pub open spec fn spec_api_error_of_check(e: CheckError) -> ApiError {
    match e {
        CheckError::InvalidName => ApiError::Validation,
        CheckError::MissingDnsCname => ApiError::Validation,
        CheckError::InvalidDnsCnameTarget => ApiError::Validation,
        CheckError::KnownDomainsUnavailable => ApiError::Unavailable,
        CheckError::MissingOwner => ApiError::Forbidden,
        CheckError::NotOwner => ApiError::Forbidden,
    }
}

/// Decides [`spec_api_error_of_check`].
pub fn api_error_of_check(e: &CheckError) -> (r: ApiError)
    ensures
        r == spec_api_error_of_check(*e),
{
    match e {
        CheckError::InvalidName => ApiError::Validation,
        CheckError::MissingDnsCname => ApiError::Validation,
        CheckError::InvalidDnsCnameTarget => ApiError::Validation,
        CheckError::KnownDomainsUnavailable => ApiError::Unavailable,
        CheckError::MissingOwner => ApiError::Forbidden,
        CheckError::NotOwner => ApiError::Forbidden,
    }
}

/// What admission of a new registration commits to: the stored state
/// and the first queued task.
#[derive(Clone, Copy, PartialEq, Eq, Structural, Debug)]
pub struct CreatePlan {
    pub initial_state: State,
    pub task_action: Action,
    pub task_not_before: u64,
}

/// Admission of a new registration: iff the checker passed, the
/// registration starts at the head of the pipeline and its first
/// `Order` task is queued immediately; otherwise nothing is enqueued
/// and the checker's failure is surfaced.
pub fn create_decision(check: &Result<(), CheckError>, now_ns: u64) -> (r: Result<
    CreatePlan,
    ApiError,
>)
    ensures
        check is Ok <==> r is Ok,
        r is Ok ==> r->Ok_0 == (CreatePlan {
            initial_state: State::PendingOrder,
            task_action: Action::Order,
            task_not_before: now_ns,
        }),
        check is Err ==> r is Err && r->Err_0 == spec_api_error_of_check(check->Err_0),
{
    match check {
        Ok(_) => Ok(
            CreatePlan {
                initial_state: State::PendingOrder,
                task_action: Action::Order,
                task_not_before: now_ns,
            },
        ),
        Err(e) => Err(api_error_of_check(e)),
    }
}

/// An update to a registration: the checker must pass, and a state
/// update must be an allowed external transition, else the request
/// conflicts. On success the updated registration is returned.
pub fn update_decision(
    current: &Registration,
    check: &Result<(), CheckError>,
    upd: &UpdateType,
) -> (r: Result<Registration, ApiError>)
    ensures
        check is Err ==> r is Err && r->Err_0 == spec_api_error_of_check(check->Err_0),
        check is Ok ==> match *upd {
            UpdateType::State(s) => if external_update_allowed(current.state, s) {
                r is Ok && r->Ok_0.state == s && r->Ok_0.name@ == current.name@
                    && r->Ok_0.canister@ == current.canister@
            } else {
                r is Err && r->Err_0 == ApiError::Conflict
            },
            UpdateType::Canister(ref c) => r is Ok && r->Ok_0.canister@ == c@ && r->Ok_0.name@
                == current.name@ && r->Ok_0.state == current.state,
        },
{
    if let Err(e) = check {
        return Err(api_error_of_check(e));
    }
    match upd {
        UpdateType::State(s) => {
            if !crate::registration::update_allowed(&current.state, s) {
                return Err(ApiError::Conflict);
            }
        },
        UpdateType::Canister(_) => {},
    }
    Ok(apply_update(current, upd))
}

/// Removal of a registration: allowed iff the checker confirms the
/// caller still owns the domain.
pub fn remove_decision(check: &Result<(), CheckError>) -> (r: Result<(), ApiError>)
    ensures
        check is Ok <==> r is Ok,
        check is Err ==> r is Err && r->Err_0 == spec_api_error_of_check(check->Err_0),
{
    match check {
        Ok(_) => Ok(()),
        Err(e) => Err(api_error_of_check(e)),
    }
}

} // verus!
