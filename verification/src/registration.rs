//! Registrations: a domain name bound to its owning canister and the
//! current position in the issuance pipeline.

use vstd::prelude::*;

verus! {

/// Why a registration is parked in `State::Failed`.
#[derive(Clone, Copy, PartialEq, Eq, Structural, Debug)]
pub enum FailureReason {
    /// The canister no longer owns the domain.
    NotOwner,
    /// Any other unrecoverable processing error.
    Custom,
}

/// Pipeline position of a registration. It advances monotonically along
/// the issuance pipeline; `Failed` is terminal until an external update.
#[derive(Clone, Copy, PartialEq, Eq, Structural, Debug)]
pub enum State {
    PendingOrder,
    PendingChallengeResponse,
    PendingAcmeApproval,
    Available,
    Failed(FailureReason),
}

/// Position of a state along the pipeline, used to express progress.
pub open spec fn pipeline_index(s: State) -> int {
    match s {
        State::PendingOrder => 0,
        State::PendingChallengeResponse => 1,
        State::PendingAcmeApproval => 2,
        State::Available => 3,
        State::Failed(_) => 4,
    }
}

/// A registered domain. `name` is held canonical (lowercase, no trailing
/// dot); `canister` is the textual principal of the owner.
#[derive(Debug)]
pub struct Registration {
    pub name: Vec<u8>,
    pub canister: Vec<u8>,
    pub state: State,
}

/// A partial update to a registration, as accepted by the API and issued
/// by the processor.
pub enum UpdateType {
    State(State),
    Canister(Vec<u8>),
}

/// Which state changes an external (API) update may make: a no-op, a
/// reset to the start of the pipeline, or parking the registration as
/// failed. `Available` and the intermediate states are reachable only
/// through the pipeline itself, so that `Available` always means a
/// certificate was stored.
pub open spec fn external_update_allowed(cur: State, new: State) -> bool {
    ||| new == cur
    ||| new == State::PendingOrder
    ||| new is Failed
}

/// Decides [`external_update_allowed`] for an API state update.
pub fn update_allowed(cur: &State, new: &State) -> (r: bool)
    ensures
        r == external_update_allowed(*cur, *new),
{
    if *new == *cur {
        return true;
    }
    match new {
        State::PendingOrder => true,
        State::Failed(_) => true,
        _ => false,
    }
}

/// Applies a partial update, leaving the other fields untouched.
pub fn apply_update(reg: &Registration, upd: &UpdateType) -> (r: Registration)
    ensures
        r.name@ == reg.name@,
        match *upd {
            UpdateType::State(s) => r.state == s && r.canister@ == reg.canister@,
            UpdateType::Canister(ref c) => r.canister@ == c@ && r.state == reg.state,
        },
{
    match upd {
        UpdateType::State(s) => Registration {
            name: reg.name.clone(),
            canister: reg.canister.clone(),
            state: *s,
        },
        UpdateType::Canister(c) => Registration {
            name: reg.name.clone(),
            canister: c.clone(),
            state: reg.state,
        },
    }
}

} // verus!
