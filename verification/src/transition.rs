//! The transition record: the diff artifact every mutating engine operation
//! emits, consumed by a downstream aggregator.

use vstd::prelude::*;

use crate::account::AccountInfo;
use crate::status::AccountStatus;
use crate::storage::StorageWithOriginalValues;

verus! {

/// The minimal before/after summary of one account's change within a batch.
/// Each transition is self-sufficient: it carries the previous status and
/// metadata and, per touched slot, the value the slot held before this batch's
/// first touch, so the aggregator never needs to re-query storage.
#[derive(Clone, Debug, PartialEq, Eq)]
pub struct TransitionAccount {
    /// Metadata after the operation, absent where the record is absent.
    pub info: Option<AccountInfo>,
    /// Status after the operation.
    pub status: AccountStatus,
    /// Metadata before the operation, absent where the record was absent.
    pub previous_info: Option<AccountInfo>,
    /// Status before the operation.
    pub previous_status: AccountStatus,
    /// The slots this operation touched, never a full snapshot.
    pub storage: StorageWithOriginalValues,
}

} // verus!
