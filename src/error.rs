//! The ways a call can fail.
use vstd::prelude::*;

verus! {

/// Why a call failed. A failed call leaves the stored state as it was.
#[derive(Clone, Copy, Debug, PartialEq, Eq)]
pub enum ContractError {
    /// The instruction payload is empty, truncated or has an unknown tag.
    Decode,
    /// A cancellation names an index past the end of the queue.
    Range,
    /// A cancellation comes from neither the initiator nor the action's delegate.
    Authorization,
    /// The stored bytes are no state, or the new state does not fit the account.
    Storage,
}

} // verus!
