//! The account cache entry: an optional account record paired with its status,
//! mutated in place by every engine operation, each of which returns (or
//! withholds) a transition record for the downstream aggregator.

use vstd::prelude::*;

use crate::account::{
    AccountInfo, AccountInfoV, PlainAccount, balance_of, empty_info, had_empty_code, info_of,
    info_or_default, opt_info_view, storage_of,
};
use crate::replay::{EngineOp, EngineState, emitted, emitted_of, next_state};
use crate::status::AccountStatus;
use crate::storage::{
    PlainStorage, SlotMap, StorageSlot, StorageWithOriginalValues, cleared_diff, cleared_map,
    present_map, present_values,
};
use crate::transition::TransitionAccount;
use crate::u256::{U256, keccak_empty, u128_bound, u256_bound};

verus! {

/// One account's cache entry for the lifetime of one batch: created on first
/// touch by a loaded-state constructor, mutated by every subsequent operation
/// on that account, and consumed at batch end.
#[derive(Clone, Debug, PartialEq, Eq)]
pub struct CacheAccount {
    pub account: Option<PlainAccount>,
    pub status: AccountStatus,
}

impl CacheAccount {
    /// The record/status pairing invariant: the record is absent exactly when
    /// the status is `LoadedNotExisting`, `Destroyed` or `DestroyedAgain`; and
    /// a present record's storage has distinct keys. Every constructor
    /// establishes it and every operation preserves it by construction.
    pub open spec fn wf(self) -> bool {
        &&& (self.account is Some) == !self.status.record_is_absent()
        &&& (match self.account {
            Some(a) => a.storage.wf(),
            None => true,
        })
    }

    /// The abstraction the replay law (`crate::replay`) speaks of: the entry's
    /// status and the view of its live storage.
    pub open spec fn model(self) -> EngineState {
        EngineState { status: self.status, store: storage_of(self.account) }
    }

    /// An account fetched from persistent storage with its real metadata.
    pub fn new_loaded(info: AccountInfo, storage: PlainStorage) -> (r: CacheAccount)
        requires
            storage.wf(),
        ensures
            r.wf(),
            r.status == AccountStatus::Loaded,
            r.account == Some((PlainAccount { info, storage })),
    {
        CacheAccount { account: Some(PlainAccount { info, storage }), status: AccountStatus::Loaded }
    }

    /// An account whose persistent record is empty but which still carries
    /// pre-existing storage slots (pre state-clearing chains).
    pub fn new_loaded_empty_eip161(storage: PlainStorage) -> (r: CacheAccount)
        requires
            storage.wf(),
        ensures
            r.wf(),
            r.status == AccountStatus::LoadedEmptyEIP161,
            info_of(r.account) == Some(empty_info()),
            storage_of(r.account) == storage@,
    {
        CacheAccount {
            account: Some(PlainAccount::new_empty_with_storage(storage)),
            status: AccountStatus::LoadedEmptyEIP161,
        }
    }

    /// A confirmed negative lookup: no record.
    pub fn new_loaded_not_existing() -> (r: CacheAccount)
        ensures
            r.wf(),
            r.status == AccountStatus::LoadedNotExisting,
            r.account is None,
    {
        CacheAccount { account: None, status: AccountStatus::LoadedNotExisting }
    }

    /// An account created purely within this batch.
    pub fn new_newly_created(info: AccountInfo, storage: PlainStorage) -> (r: CacheAccount)
        requires
            storage.wf(),
        ensures
            r.wf(),
            r.status == AccountStatus::InMemoryChange,
            r.account == Some((PlainAccount { info, storage })),
    {
        CacheAccount {
            account: Some(PlainAccount { info, storage }),
            status: AccountStatus::InMemoryChange,
        }
    }

    /// A destroyed account: no record.
    pub fn new_destroyed() -> (r: CacheAccount)
        ensures
            r.wf(),
            r.status == AccountStatus::Destroyed,
            r.account is None,
    {
        CacheAccount { account: None, status: AccountStatus::Destroyed }
    }

    /// A changed account.
    pub fn new_changed(info: AccountInfo, storage: PlainStorage) -> (r: CacheAccount)
        requires
            storage.wf(),
        ensures
            r.wf(),
            r.status == AccountStatus::Changed,
            r.account == Some((PlainAccount { info, storage })),
    {
        CacheAccount { account: Some(PlainAccount { info, storage }), status: AccountStatus::Changed }
    }

    /// True exactly when the caller may treat the entry as a live account,
    /// i.e. when the record is present.
    pub fn is_some(&self) -> (r: bool)
        ensures
            r == !self.status.record_is_absent(),
    {
        matches!(
            self.status,
            AccountStatus::Changed
                | AccountStatus::InMemoryChange
                | AccountStatus::DestroyedChanged
                | AccountStatus::Loaded
                | AccountStatus::LoadedEmptyEIP161
        )
    }

    /// The slot's current value, or `None` if the record is absent or the slot
    /// untouched.
    pub fn storage_slot(&self, slot: U256) -> (r: Option<U256>)
        requires
            self.wf(),
        ensures
            r == if storage_of(self.account).contains_key(slot) {
                Some(storage_of(self.account)[slot])
            } else {
                None::<U256>
            },
    {
        match &self.account {
            Some(a) => a.storage.get(slot),
            None => None,
        }
    }

    /// A copy of the current metadata, or `None` if the record is absent.
    pub fn account_info(&self) -> (r: Option<AccountInfo>)
        ensures
            opt_info_view(r) == info_of(self.account),
            r is Some <==> self.account is Some,
    {
        match &self.account {
            Some(a) => Some(a.info.duplicate()),
            None => None,
        }
    }

    /// Consumes the entry into its components, for batch finalization.
    pub fn into_components(self) -> (r: (Option<(AccountInfo, PlainStorage)>, AccountStatus))
        ensures
            r.1 == self.status,
            match self.account {
                Some(a) => r.0 == Some((a.info, a.storage)),
                None => r.0 is None,
            },
    {
        let inner = match self.account {
            Some(a) => Some(a.into_components()),
            None => None,
        };
        (inner, self.status)
    }

    /// EIP-161 state clearing: the account was observed empty and must be
    /// purged. Every current storage slot becomes a diff entry that deletes it
    /// (present value zero, original value the slot's prior value) and the
    /// record is set absent. Returns `None` — nothing the aggregator needs to
    /// know — exactly when the record was already absent.
    pub fn touch_empty(&mut self) -> (t: Option<TransitionAccount>)
        requires
            old(self).wf(),
            old(self).status.touch_empty_allowed(),
        ensures
            final(self).wf(),
            final(self).account is None,
            final(self).status == old(self).status.touch_empty_next(),
            t is Some <==> !old(self).status.record_is_absent(),
            t matches Some(tr) ==> {
                &&& tr.previous_status == old(self).status
                &&& tr.status == final(self).status
                &&& tr.info is None
                &&& opt_info_view(tr.previous_info) == info_of(old(self).account)
                &&& tr.storage.wf()
                &&& tr.storage@ == cleared_map(storage_of(old(self).account))
            },
            final(self).model() == next_state(old(self).model(), EngineOp::TouchEmpty),
            emitted_of(t) == emitted(old(self).model(), EngineOp::TouchEmpty),
    {
        let previous_status = self.status;
        let taken = self.account.take();
        let (previous_info, storage) = match taken {
            Some(acc) => {
                let d = cleared_diff(&acc.storage);
                (Some(acc.info), d)
            },
            None => (None, SlotMap::new()),
        };
        self.status = previous_status.on_touch_empty();
        if previous_status.record_absent() {
            None
        } else {
            Some(TransitionAccount {
                info: None,
                status: self.status,
                previous_info,
                previous_status,
                storage,
            })
        }
    }

    /// Unconditionally clears the record; the storage is not enumerated into
    /// the diff (a destroyed account's untouched slots are implicitly cleared
    /// at the persistence layer). Returns `None` exactly when the account was
    /// loaded as not existing, even though the status still advances.
    pub fn selfdestruct(&mut self) -> (t: Option<TransitionAccount>)
        requires
            old(self).wf(),
        ensures
            final(self).wf(),
            final(self).account is None,
            final(self).status == old(self).status.selfdestruct_next(),
            t is Some <==> !(old(self).status is LoadedNotExisting),
            t matches Some(tr) ==> {
                &&& tr.previous_status == old(self).status
                &&& tr.status == final(self).status
                &&& tr.info is None
                &&& opt_info_view(tr.previous_info) == info_of(old(self).account)
                &&& tr.storage.wf()
                &&& tr.storage@ == Map::<U256, StorageSlot>::empty()
            },
            final(self).model() == next_state(old(self).model(), EngineOp::Selfdestruct),
            emitted_of(t) == emitted(old(self).model(), EngineOp::Selfdestruct),
    {
        let previous_status = self.status;
        let taken = self.account.take();
        let previous_info = match taken {
            Some(a) => Some(a.info),
            None => None,
        };
        self.status = previous_status.on_selfdestruct();
        if matches!(previous_status, AccountStatus::LoadedNotExisting) {
            None
        } else {
            Some(TransitionAccount {
                info: None,
                status: self.status,
                previous_info,
                previous_status,
                storage: SlotMap::new(),
            })
        }
    }

    /// The account is (re)created in-batch. All pre-existing storage becomes
    /// cleared-value diff entries, the caller-supplied diff is overlaid on top
    /// (new entries win), and the record's live storage becomes exactly the
    /// new diff's present values.
    pub fn newly_created(
        &mut self,
        new_info: AccountInfo,
        new_storage: StorageWithOriginalValues,
    ) -> (t: TransitionAccount)
        requires
            old(self).wf(),
            new_storage.wf(),
        ensures
            final(self).wf(),
            final(self).status == old(self).status.newly_created_next(),
            final(self).account is Some,
            info_of(final(self).account) == Some(new_info@),
            storage_of(final(self).account) == present_map(new_storage@),
            t.previous_status == old(self).status,
            t.status == final(self).status,
            opt_info_view(t.info) == Some(new_info@),
            opt_info_view(t.previous_info) == info_of(old(self).account),
            t.storage.wf(),
            t.storage@ == cleared_map(storage_of(old(self).account)).union_prefer_right(
                new_storage@,
            ),
            final(self).model() == next_state(
                old(self).model(),
                (EngineOp::NewlyCreated { diff: new_storage@ }),
            ),
            emitted(old(self).model(), (EngineOp::NewlyCreated { diff: new_storage@ })) == Some(
                (t.status, t.storage@),
            ),
    {
        let previous_status = self.status;
        let taken = self.account.take();
        let (previous_info, mut storage_diff) = match taken {
            Some(a) => {
                let d = cleared_diff(&a.storage);
                (Some(a.info), d)
            },
            None => (None, SlotMap::new()),
        };
        storage_diff.extend(&new_storage);
        let new_bundle_storage = present_values(&new_storage);
        self.status = previous_status.on_newly_created();
        let transition = TransitionAccount {
            info: Some(new_info.duplicate()),
            status: self.status,
            previous_status,
            previous_info,
            storage: storage_diff,
        };
        self.account = Some(PlainAccount { info: new_info, storage: new_bundle_storage });
        transition
    }

    /// The metadata-only change primitive: replaces the metadata (constructing
    /// a zero-valued default in place where the record was absent), keeps the
    /// storage, and emits a transition with an empty storage diff.
    fn account_info_change(&mut self, new_info: AccountInfo) -> (t: TransitionAccount)
        requires
            old(self).wf(),
        ensures
            final(self).wf(),
            final(self).status == old(self).status.change_next(had_empty_code(old(self).account)),
            final(self).account is Some,
            info_of(final(self).account) == Some(new_info@),
            storage_of(final(self).account) == storage_of(old(self).account),
            t.previous_status == old(self).status,
            t.status == final(self).status,
            opt_info_view(t.info) == Some(new_info@),
            opt_info_view(t.previous_info) == info_of(old(self).account),
            t.storage.wf(),
            t.storage@ == Map::<U256, StorageSlot>::empty(),
            final(self).model() == next_state(
                old(self).model(),
                (EngineOp::InfoChange { code_was_empty: had_empty_code(old(self).account) }),
            ),
            emitted(
                old(self).model(),
                (EngineOp::InfoChange { code_was_empty: had_empty_code(old(self).account) }),
            ) == Some((t.status, t.storage@)),
    {
        let previous_status = self.status;
        let taken = self.account.take();
        let was_empty_code = match &taken {
            Some(a) => a.info.code_hash == keccak_empty(),
            None => false,
        };
        let (previous_info, storage) = match taken {
            Some(a) => (Some(a.info), a.storage),
            None => (None, SlotMap::new()),
        };
        self.status = previous_status.on_change(was_empty_code);
        let transition = TransitionAccount {
            info: Some(new_info.duplicate()),
            status: self.status,
            previous_info,
            previous_status,
            storage: SlotMap::new(),
        };
        self.account = Some(PlainAccount { info: new_info, storage });
        transition
    }

    /// Adds `balance` to the account's balance. The caller guarantees the
    /// amount is non-zero (zero increments are pre-filtered by the execution
    /// layer) and that the balance does not overflow.
    pub fn increment_balance(&mut self, balance: u128) -> (t: TransitionAccount)
        requires
            old(self).wf(),
            balance != 0,
            balance_of(old(self).account) + balance < u256_bound(),
        ensures
            final(self).wf(),
            final(self).status == old(self).status.change_next(had_empty_code(old(self).account)),
            final(self).account is Some,
            info_of(final(self).account) == Some(
                (AccountInfoV {
                    balance: (balance_of(old(self).account) + balance) as nat,
                    ..info_or_default(old(self).account)
                }),
            ),
            storage_of(final(self).account) == storage_of(old(self).account),
            t.previous_status == old(self).status,
            t.status == final(self).status,
            opt_info_view(t.info) == info_of(final(self).account),
            opt_info_view(t.previous_info) == info_of(old(self).account),
            t.storage.wf(),
            t.storage@ == Map::<U256, StorageSlot>::empty(),
            final(self).model() == next_state(
                old(self).model(),
                (EngineOp::InfoChange { code_was_empty: had_empty_code(old(self).account) }),
            ),
    {
        let base = match &self.account {
            Some(a) => a.info.duplicate(),
            None => AccountInfo::default(),
        };
        let sum = base.balance.plus(U256::from_u128(balance));
        let new_info = AccountInfo {
            balance: sum,
            nonce: base.nonce,
            code_hash: base.code_hash,
            code: base.code,
        };
        self.account_info_change(new_info)
    }

    /// Zeroes the account's balance and returns the drained amount, for
    /// one-time balance-migration events. The caller guarantees the balance
    /// fits the drained amount's range.
    pub fn drain_balance(&mut self) -> (r: (u128, TransitionAccount))
        requires
            old(self).wf(),
            balance_of(old(self).account) < u128_bound(),
        ensures
            final(self).wf(),
            final(self).status == old(self).status.change_next(had_empty_code(old(self).account)),
            final(self).account is Some,
            r.0 == balance_of(old(self).account),
            info_of(final(self).account) == Some(
                (AccountInfoV { balance: 0, ..info_or_default(old(self).account) }),
            ),
            storage_of(final(self).account) == storage_of(old(self).account),
            r.1.previous_status == old(self).status,
            r.1.status == final(self).status,
            opt_info_view(r.1.info) == info_of(final(self).account),
            opt_info_view(r.1.previous_info) == info_of(old(self).account),
            r.1.storage.wf(),
            r.1.storage@ == Map::<U256, StorageSlot>::empty(),
            final(self).model() == next_state(
                old(self).model(),
                (EngineOp::InfoChange { code_was_empty: had_empty_code(old(self).account) }),
            ),
    {
        let base = match &self.account {
            Some(a) => a.info.duplicate(),
            None => AccountInfo::default(),
        };
        let drained = base.balance.to_u128();
        let new_info = AccountInfo {
            balance: U256::zero(),
            nonce: base.nonce,
            code_hash: base.code_hash,
            code: base.code,
        };
        let t = self.account_info_change(new_info);
        (drained, t)
    }

    /// General metadata-plus-storage mutation: replaces the metadata, overlays
    /// the diff's present values onto the live storage, and returns a
    /// transition carrying the input diff verbatim.
    pub fn change(&mut self, new: AccountInfo, storage: StorageWithOriginalValues) -> (t:
        TransitionAccount)
        requires
            old(self).wf(),
            storage.wf(),
        ensures
            final(self).wf(),
            final(self).status == old(self).status.change_next(had_empty_code(old(self).account)),
            final(self).account is Some,
            info_of(final(self).account) == Some(new@),
            storage_of(final(self).account) == storage_of(old(self).account).union_prefer_right(
                present_map(storage@),
            ),
            t.previous_status == old(self).status,
            t.status == final(self).status,
            opt_info_view(t.info) == Some(new@),
            opt_info_view(t.previous_info) == info_of(old(self).account),
            t.storage == storage,
            final(self).model() == next_state(
                old(self).model(),
                (EngineOp::Change {
                    diff: storage@,
                    code_was_empty: had_empty_code(old(self).account),
                }),
            ),
            emitted(
                old(self).model(),
                (EngineOp::Change {
                    diff: storage@,
                    code_was_empty: had_empty_code(old(self).account),
                }),
            ) == Some((t.status, t.storage@)),
    {
        let previous_status = self.status;
        let taken = self.account.take();
        let was_empty_code = match &taken {
            Some(a) => a.info.code_hash == keccak_empty(),
            None => false,
        };
        let (previous_info, mut this_storage) = match taken {
            Some(a) => (Some(a.info), a.storage),
            None => (None, SlotMap::new()),
        };
        let p = present_values(&storage);
        this_storage.extend(&p);
        self.status = previous_status.on_change(was_empty_code);
        self.account = Some(PlainAccount { info: new.duplicate(), storage: this_storage });
        TransitionAccount {
            info: Some(new),
            status: self.status,
            previous_info,
            previous_status,
            storage,
        }
    }
}

} // verus!
