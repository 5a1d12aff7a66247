//! The persisted event stream the certificate verifier attests against:
//! an append-only sequence of typed events stamped with a monotonic
//! canister timestamp, opened by an initialization event.

use vstd::prelude::*;

verus! {

/// The event describing one state transition of the minter behind the
/// event log. Payloads the core never inspects are carried as opaque
/// bytes; hashes are transaction hashes, indices are ledger or log
/// positions.
pub enum EventType {
    /// The initialization event; must be the first event in the log.
    Init(Vec<u8>),
    /// An upgrade with the given encoded arguments.
    Upgrade(Vec<u8>),
    /// A deposit discovered in the helper contract logs.
    AcceptedDeposit(Vec<u8>),
    /// An invalid deposit and the reason it was rejected.
    InvalidDeposit { txhash: Vec<u8>, log_index: u64, reason: Vec<u8> },
    /// Tokens minted in response to a deposit.
    MintedCkEth { txhash: Vec<u8>, log_index: u64, mint_block_index: u64 },
    /// The helper contract logs were processed up to this block.
    SyncedToBlock { block_number: u64 },
    /// A new withdrawal request was accepted.
    AcceptedEthWithdrawalRequest(Vec<u8>),
    /// A transaction was signed for a withdrawal.
    SignedTx { withdrawal_id: u64, tx: Vec<u8> },
    /// The signed transaction was sent out.
    SentTransaction { withdrawal_id: u64, txhash: Vec<u8> },
    /// The transaction was observed in a finalized block.
    FinalizedTransaction { withdrawal_id: u64, txhash: Vec<u8> },
}

/// One entry of the event stream.
pub struct Event {
    /// The canister time at which the event was generated.
    pub timestamp: u64,
    /// The event type.
    pub event_type: EventType,
}

/// Whether an event is the initialization event.
pub open spec fn is_init(e: Event) -> bool {
    e.event_type is Init
}

/// A well-formed log: non-empty, opened by the initialization event,
/// with no second initialization and nondecreasing timestamps.
pub open spec fn log_well_formed(s: Seq<Event>) -> bool {
    &&& s.len() >= 1
    &&& is_init(s[0])
    &&& forall|i: int| 0 < i < s.len() ==> !is_init(#[trigger] s[i])
    &&& forall|i: int| 0 < i < s.len() ==> (#[trigger] s[i]).timestamp >= s[i - 1].timestamp
}

/// Decides [`log_well_formed`].
pub fn validate_log(events: &Vec<Event>) -> (r: bool)
    ensures
        r == log_well_formed(events@),
{
    if events.len() == 0 {
        return false;
    }
    let head_is_init = match &events[0].event_type {
        EventType::Init(_) => true,
        _ => false,
    };
    if !head_is_init {
        return false;
    }
    let mut i: usize = 1;
    while i < events.len()
        invariant
            1 <= i <= events@.len(),
            forall|j: int| 0 < j < i ==> !is_init(#[trigger] events@[j]),
            forall|j: int| 0 < j < i ==> (#[trigger] events@[j]).timestamp >= events@[j
                - 1].timestamp,
        decreases events@.len() - i,
    {
        let here_is_init = match &events[i].event_type {
            EventType::Init(_) => true,
            _ => false,
        };
        if here_is_init {
            assert(is_init(events@[i as int]));
            return false;
        }
        if events[i].timestamp < events[i - 1].timestamp {
            return false;
        }
        i += 1;
    }
    true
}

} // verus!
