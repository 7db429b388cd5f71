//! Transition completeness: replaying the storage diffs of the transition
//! records an entry emits reconstructs the entry's final live storage.
//!
//! The step function [`next_state`] and the emitted-record function
//! [`emitted`] below describe what one engine operation does to the entry's
//! status and live storage and what transition record it returns. The contracts
//! of `touch_empty`, `selfdestruct`, `newly_created`, `change` and the
//! metadata-change operations each ensure, through
//! `crate::cache_account::CacheAccount::model` and [`emitted_of`], that the
//! call agrees with these two functions, so the replay law at the bottom is a
//! statement about the operations themselves.

use vstd::prelude::*;

use crate::status::AccountStatus;
use crate::storage::{StorageSlot, cleared_map, present_map};
use crate::transition::TransitionAccount;
use crate::u256::U256;

verus! {

/// A slot's value under total-map semantics: an absent slot reads as zero.
pub open spec fn read_slot(m: Map<U256, U256>, k: U256) -> U256 {
    if m.contains_key(k) {
        m[k]
    } else {
        U256::spec_zero()
    }
}

/// Two storage maps agree slot for slot, an absent slot reading as zero.
pub open spec fn same_store(a: Map<U256, U256>, b: Map<U256, U256>) -> bool {
    forall|k: U256| read_slot(a, k) == read_slot(b, k)
}

/// Overlays a diff's present values onto a storage map.
pub open spec fn apply_diff(base: Map<U256, U256>, d: Map<U256, StorageSlot>) -> Map<U256, U256> {
    base.union_prefer_right(present_map(d))
}

/// One engine operation, reduced to what decides the entry's status and
/// storage: the caller-supplied diff, and — for the change operations — whether
/// the previous code hash was the canonical empty-code hash. Metadata-only
/// operations (balance increment, balance drain) are one case: they never touch
/// storage.
pub ghost enum EngineOp {
    TouchEmpty,
    Selfdestruct,
    NewlyCreated { diff: Map<U256, StorageSlot> },
    Change { diff: Map<U256, StorageSlot>, code_was_empty: bool },
    InfoChange { code_was_empty: bool },
}

/// The part of a cache entry the replay law speaks of: its status and the view
/// of its live storage (empty where the record is absent).
pub ghost struct EngineState {
    pub status: AccountStatus,
    pub store: Map<U256, U256>,
}

/// What the entry invariant `CacheAccount::wf` yields here: an absent record
/// holds no storage.
pub open spec fn state_wf(s: EngineState) -> bool {
    s.status.record_is_absent() ==> s.store == Map::<U256, U256>::empty()
}

/// Which operations an entry's contract admits: all of them, except
/// `touch_empty` from the two statuses it rules out.
pub open spec fn op_allowed(s: EngineState, op: EngineOp) -> bool {
    match op {
        EngineOp::TouchEmpty => s.status.touch_empty_allowed(),
        _ => true,
    }
}

/// Status and live storage after one operation, as the operations' contracts
/// state them.
pub open spec fn next_state(s: EngineState, op: EngineOp) -> EngineState {
    match op {
        EngineOp::TouchEmpty => EngineState {
            status: s.status.touch_empty_next(),
            store: Map::empty(),
        },
        EngineOp::Selfdestruct => EngineState {
            status: s.status.selfdestruct_next(),
            store: Map::empty(),
        },
        EngineOp::NewlyCreated { diff } => EngineState {
            status: s.status.newly_created_next(),
            store: present_map(diff),
        },
        EngineOp::Change { diff, code_was_empty } => EngineState {
            status: s.status.change_next(code_was_empty),
            store: apply_diff(s.store, diff),
        },
        EngineOp::InfoChange { code_was_empty } => EngineState {
            status: s.status.change_next(code_was_empty),
            store: s.store,
        },
    }
}

/// The transition record one operation emits — its new status and its storage
/// diff — or `None` where the operation withholds one, as the operations'
/// contracts state it.
pub open spec fn emitted(s: EngineState, op: EngineOp) -> Option<
    (AccountStatus, Map<U256, StorageSlot>),
> {
    match op {
        EngineOp::TouchEmpty => if s.status.record_is_absent() {
            None
        } else {
            Some((s.status.touch_empty_next(), cleared_map(s.store)))
        },
        EngineOp::Selfdestruct => if s.status is LoadedNotExisting {
            None
        } else {
            Some((s.status.selfdestruct_next(), Map::empty()))
        },
        EngineOp::NewlyCreated { diff } => Some(
            (s.status.newly_created_next(), cleared_map(s.store).union_prefer_right(diff)),
        ),
        EngineOp::Change { diff, code_was_empty } => Some((s.status.change_next(code_was_empty), diff)),
        EngineOp::InfoChange { code_was_empty } => Some(
            (s.status.change_next(code_was_empty), Map::empty()),
        ),
    }
}

/// What the replay law reads off a returned transition record: its new status
/// and the view of its storage diff.
pub open spec fn emitted_of(t: Option<TransitionAccount>) -> Option<
    (AccountStatus, Map<U256, StorageSlot>),
> {
    match t {
        Some(tr) => Some((tr.status, tr.storage@)),
        None => None,
    }
}

/// How the aggregator replays one emitted record over its reconstruction: a
/// withheld record changes nothing; a record whose status pairs with an absent
/// account wipes the reconstruction; any other record has its present values
/// overlaid.
pub open spec fn replay_one(
    rep: Map<U256, U256>,
    e: Option<(AccountStatus, Map<U256, StorageSlot>)>,
) -> Map<U256, U256> {
    match e {
        None => rep,
        Some(t) => if t.0.record_is_absent() {
            Map::empty()
        } else {
            apply_diff(rep, t.1)
        },
    }
}

/// The entry's state after a sequence of operations.
pub open spec fn run(s: EngineState, ops: Seq<EngineOp>) -> EngineState
    decreases ops.len(),
{
    if ops.len() == 0 {
        s
    } else {
        run(next_state(s, ops[0]), ops.drop_first())
    }
}

/// The aggregator's reconstruction after replaying the records the sequence
/// emits.
pub open spec fn replay_run(s: EngineState, rep: Map<U256, U256>, ops: Seq<EngineOp>) -> Map<
    U256,
    U256,
>
    decreases ops.len(),
{
    if ops.len() == 0 {
        rep
    } else {
        replay_run(next_state(s, ops[0]), replay_one(rep, emitted(s, ops[0])), ops.drop_first())
    }
}

/// Every operation of the sequence is admitted in the state it meets.
pub open spec fn ops_allowed(s: EngineState, ops: Seq<EngineOp>) -> bool
    decreases ops.len(),
{
    ops.len() == 0 || (op_allowed(s, ops[0]) && ops_allowed(next_state(s, ops[0]), ops.drop_first()))
}

/// One operation preserves the replay agreement: if the reconstruction agrees
/// with the live storage slot for slot, it still does after the operation and
/// the replay of whatever record the operation emitted.
pub proof fn lemma_replay_step(s: EngineState, rep: Map<U256, U256>, op: EngineOp)
    requires
        state_wf(s),
        op_allowed(s, op),
        same_store(rep, s.store),
    ensures
        state_wf(next_state(s, op)),
        same_store(replay_one(rep, emitted(s, op)), next_state(s, op).store),
{
    let s1 = next_state(s, op);
    let rep1 = replay_one(rep, emitted(s, op));
    match op {
        EngineOp::TouchEmpty => {
            // An emitting touch always lands on an absent-record status, so the
            // replay wipes; a withheld record means the store was empty already.
            assert(same_store(rep1, s1.store)) by {
                if s.status.record_is_absent() {
                    assert(forall|k: U256| read_slot(rep, k) == read_slot(s.store, k));
                }
            }
        },
        EngineOp::Selfdestruct => {
            assert(same_store(rep1, s1.store)) by {
                if s.status is LoadedNotExisting {
                    assert(forall|k: U256| read_slot(rep, k) == read_slot(s.store, k));
                }
            }
        },
        EngineOp::NewlyCreated { diff } => {
            let d = cleared_map(s.store).union_prefer_right(diff);
            assert forall|k: U256| read_slot(rep1, k) == read_slot(s1.store, k) by {
                if diff.contains_key(k) {
                    assert(present_map(d)[k] == diff[k].present_value);
                } else if s.store.contains_key(k) {
                    assert(present_map(d)[k] == U256::spec_zero());
                } else {
                    assert(!present_map(d).contains_key(k));
                    assert(read_slot(rep, k) == read_slot(s.store, k));
                }
            }
        },
        EngineOp::Change { diff, code_was_empty } => {
            assert forall|k: U256| read_slot(rep1, k) == read_slot(s1.store, k) by {
                if !present_map(diff).contains_key(k) {
                    assert(read_slot(rep, k) == read_slot(s.store, k));
                }
            }
        },
        EngineOp::InfoChange { code_was_empty } => {
            assert forall|k: U256| read_slot(rep1, k) == read_slot(s1.store, k) by {
                assert(!present_map(Map::<U256, StorageSlot>::empty()).contains_key(k));
                assert(read_slot(rep, k) == read_slot(s.store, k));
            }
        },
    }
}

/// Transition completeness. For any admitted sequence of operations on one
/// entry starting from a well-formed state — every loaded-state constructor
/// establishes one — replaying the emitted transition records over a
/// reconstruction that starts out agreeing with the loaded storage yields
/// exactly the entry's final live storage, slot for slot, an absent slot
/// reading as zero.
pub proof fn lemma_transition_completeness(
    s: EngineState,
    rep: Map<U256, U256>,
    ops: Seq<EngineOp>,
)
    requires
        state_wf(s),
        ops_allowed(s, ops),
        same_store(rep, s.store),
    ensures
        same_store(replay_run(s, rep, ops), run(s, ops).store),
    decreases ops.len(),
{
    if ops.len() > 0 {
        lemma_replay_step(s, rep, ops[0]);
        lemma_transition_completeness(
            next_state(s, ops[0]),
            replay_one(rep, emitted(s, ops[0])),
            ops.drop_first(),
        );
    }
}

} // verus!
