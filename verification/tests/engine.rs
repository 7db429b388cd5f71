use account_cache::account::AccountInfo;
use account_cache::cache_account::CacheAccount;
use account_cache::status::AccountStatus;
use account_cache::storage::{PlainStorage, SlotMap, StorageSlot, StorageWithOriginalValues};
use account_cache::transition::TransitionAccount;
use account_cache::u256::{B256, U256, keccak_empty};

fn u(x: u128) -> U256 {
    U256::from_u128(x)
}

fn info_with(balance: u128, code_hash: B256) -> AccountInfo {
    AccountInfo { balance: u(balance), nonce: 0, code_hash, code: None }
}

fn contract_hash() -> B256 {
    B256 { lo: 7, hi: 7 }
}

fn all_statuses() -> Vec<AccountStatus> {
    vec![
        AccountStatus::Loaded,
        AccountStatus::LoadedEmptyEIP161,
        AccountStatus::LoadedNotExisting,
        AccountStatus::InMemoryChange,
        AccountStatus::Changed,
        AccountStatus::Destroyed,
        AccountStatus::DestroyedChanged,
        AccountStatus::DestroyedAgain,
    ]
}

/// Builds an entry sitting at the given status, through the public API alone.
fn entry_with_status(status: AccountStatus) -> CacheAccount {
    let e = match status {
        AccountStatus::Loaded => CacheAccount::new_loaded(info_with(1, contract_hash()), SlotMap::new()),
        AccountStatus::LoadedEmptyEIP161 => CacheAccount::new_loaded_empty_eip161(SlotMap::new()),
        AccountStatus::LoadedNotExisting => CacheAccount::new_loaded_not_existing(),
        AccountStatus::InMemoryChange => {
            CacheAccount::new_newly_created(info_with(1, keccak_empty()), SlotMap::new())
        }
        AccountStatus::Changed => CacheAccount::new_changed(info_with(1, contract_hash()), SlotMap::new()),
        AccountStatus::Destroyed => CacheAccount::new_destroyed(),
        AccountStatus::DestroyedChanged => {
            let mut e = CacheAccount::new_destroyed();
            let _ = e.newly_created(info_with(1, keccak_empty()), SlotMap::new());
            e
        }
        AccountStatus::DestroyedAgain => {
            let mut e = CacheAccount::new_destroyed();
            let _ = e.selfdestruct();
            e
        }
    };
    assert_eq!(e.status, status);
    e
}

/// The record/status pairing invariant: record absent iff status is
/// LoadedNotExisting, Destroyed or DestroyedAgain.
fn assert_pairing(e: &CacheAccount) {
    let absent = matches!(
        e.status,
        AccountStatus::LoadedNotExisting | AccountStatus::Destroyed | AccountStatus::DestroyedAgain
    );
    assert_eq!(e.account.is_none(), absent);
    assert_eq!(e.is_some(), !absent);
}

#[test]
fn constructors_establish_pairing() {
    for s in all_statuses() {
        assert_pairing(&entry_with_status(s));
    }
}

#[test]
fn touch_empty_total_over_allowed_statuses() {
    let cases = vec![
        (AccountStatus::DestroyedChanged, AccountStatus::DestroyedAgain, true),
        (AccountStatus::InMemoryChange, AccountStatus::Destroyed, true),
        (AccountStatus::LoadedNotExisting, AccountStatus::LoadedNotExisting, false),
        (AccountStatus::Destroyed, AccountStatus::Destroyed, false),
        (AccountStatus::DestroyedAgain, AccountStatus::DestroyedAgain, false),
        (AccountStatus::LoadedEmptyEIP161, AccountStatus::Destroyed, true),
    ];
    for (from, to, emits) in cases {
        let mut e = entry_with_status(from);
        let t = e.touch_empty();
        assert_eq!(e.status, to);
        assert_eq!(t.is_some(), emits);
        assert!(e.account.is_none());
        assert_pairing(&e);
        if let Some(tr) = t {
            assert_eq!(tr.previous_status, from);
            assert_eq!(tr.status, to);
            assert!(tr.info.is_none());
        }
    }
}

#[test]
fn selfdestruct_total_over_all_statuses() {
    for from in all_statuses() {
        let mut e = entry_with_status(from);
        let t = e.selfdestruct();
        let expect = match from {
            AccountStatus::DestroyedChanged
            | AccountStatus::DestroyedAgain
            | AccountStatus::Destroyed => AccountStatus::DestroyedAgain,
            _ => AccountStatus::Destroyed,
        };
        assert_eq!(e.status, expect);
        assert!(e.account.is_none());
        assert_pairing(&e);
        assert_eq!(t.is_some(), from != AccountStatus::LoadedNotExisting);
    }
}

#[test]
fn newly_created_total_over_all_statuses() {
    for from in all_statuses() {
        let mut e = entry_with_status(from);
        let t = e.newly_created(info_with(2, keccak_empty()), SlotMap::new());
        let expect = match from {
            AccountStatus::DestroyedAgain
            | AccountStatus::Destroyed
            | AccountStatus::DestroyedChanged => AccountStatus::DestroyedChanged,
            _ => AccountStatus::InMemoryChange,
        };
        assert_eq!(e.status, expect);
        assert_eq!(t.previous_status, from);
        assert_eq!(t.status, expect);
        assert_pairing(&e);
    }
}

#[test]
fn change_total_over_all_statuses() {
    for from in all_statuses() {
        let mut e = entry_with_status(from);
        let had_empty_code = match &e.account {
            Some(a) => a.info.code_hash == keccak_empty(),
            None => false,
        };
        let t = e.change(info_with(2, contract_hash()), SlotMap::new());
        let expect = match from {
            AccountStatus::Loaded => {
                if had_empty_code {
                    AccountStatus::InMemoryChange
                } else {
                    AccountStatus::Changed
                }
            }
            AccountStatus::Changed => AccountStatus::Changed,
            AccountStatus::InMemoryChange => AccountStatus::InMemoryChange,
            AccountStatus::DestroyedChanged => AccountStatus::DestroyedChanged,
            AccountStatus::LoadedEmptyEIP161 => AccountStatus::InMemoryChange,
            AccountStatus::LoadedNotExisting => AccountStatus::InMemoryChange,
            AccountStatus::Destroyed | AccountStatus::DestroyedAgain => {
                AccountStatus::DestroyedChanged
            }
        };
        assert_eq!(e.status, expect);
        assert_eq!(t.previous_status, from);
        assert_pairing(&e);
    }
}

#[test]
fn balance_ops_total_over_all_statuses() {
    for from in all_statuses() {
        let mut e = entry_with_status(from);
        let _ = e.increment_balance(3);
        assert_pairing(&e);
        let mut e = entry_with_status(from);
        let (_amount, _t) = e.drain_balance();
        assert_pairing(&e);
        assert_eq!(e.account_info().unwrap().balance, u(0));
    }
}

#[test]
fn touch_empty_noop_is_idempotent() {
    for from in vec![
        AccountStatus::LoadedNotExisting,
        AccountStatus::Destroyed,
        AccountStatus::DestroyedAgain,
    ] {
        let mut e = entry_with_status(from);
        let t1 = e.touch_empty();
        assert_eq!(e.status, from);
        assert!(t1.is_none());
        let t2 = e.touch_empty();
        assert_eq!(e.status, from);
        assert!(t2.is_none());
    }
}

#[test]
fn scenario_simple_load_and_change() {
    let mut e = CacheAccount::new_loaded(info_with(100, keccak_empty()), SlotMap::new());
    let new_info = AccountInfo { balance: u(150), nonce: 1, code_hash: keccak_empty(), code: None };
    let t = e.change(new_info, SlotMap::new());
    assert_eq!(e.status, AccountStatus::InMemoryChange);
    assert_eq!(t.previous_status, AccountStatus::Loaded);
    assert_eq!(t.previous_info.unwrap().balance, u(100));
    assert_eq!(t.info.unwrap().balance, u(150));
}

#[test]
fn scenario_destroy_then_recreate_in_same_batch() {
    let mut storage: PlainStorage = SlotMap::new();
    storage.insert(u(1), u(5));
    let mut e = CacheAccount::new_loaded(info_with(10, contract_hash()), storage);
    let t1 = e.selfdestruct().unwrap();
    assert_eq!(e.status, AccountStatus::Destroyed);
    assert!(t1.info.is_none());
    assert_eq!(t1.previous_info.unwrap().balance, u(10));

    // selfdestruct dropped the storage without enumerating it, so the recreate
    // diff holds exactly the new storage.
    let mut new_storage: StorageWithOriginalValues = SlotMap::new();
    new_storage.insert(u(2), StorageSlot { present_value: u(9), original_value: u(0) });
    let t2 = e.newly_created(info_with(1, keccak_empty()), new_storage);
    assert_eq!(e.status, AccountStatus::DestroyedChanged);
    assert_eq!(t2.storage.entries.len(), 1);
    assert_eq!(
        t2.storage.get(u(2)),
        Some(StorageSlot { present_value: u(9), original_value: u(0) })
    );
    assert_eq!(e.storage_slot(u(2)), Some(u(9)));
    assert_eq!(e.storage_slot(u(1)), None);
}

#[test]
fn recreate_clears_old_slots_and_overlays_new() {
    // newly_created on an entry that still holds live storage: the old slots
    // appear in the diff as cleared, the new diff wins on key collisions.
    let mut storage: PlainStorage = SlotMap::new();
    storage.insert(u(1), u(5));
    storage.insert(u(2), u(6));
    let mut e = CacheAccount::new_loaded(info_with(10, contract_hash()), storage);
    let mut new_storage: StorageWithOriginalValues = SlotMap::new();
    new_storage.insert(u(2), StorageSlot { present_value: u(9), original_value: u(6) });
    let t = e.newly_created(info_with(1, keccak_empty()), new_storage);
    assert_eq!(e.status, AccountStatus::InMemoryChange);
    assert_eq!(
        t.storage.get(u(1)),
        Some(StorageSlot { present_value: u(0), original_value: u(5) })
    );
    assert_eq!(
        t.storage.get(u(2)),
        Some(StorageSlot { present_value: u(9), original_value: u(6) })
    );
    // live storage is exactly the new present values
    assert_eq!(e.storage_slot(u(1)), None);
    assert_eq!(e.storage_slot(u(2)), Some(u(9)));
}

#[test]
fn scenario_touch_empty_on_pre_state_clearing_load() {
    let mut storage: PlainStorage = SlotMap::new();
    storage.insert(u(1), u(5));
    let mut e = CacheAccount::new_loaded_empty_eip161(storage);
    let t = e.touch_empty().unwrap();
    assert_eq!(e.status, AccountStatus::Destroyed);
    assert!(t.info.is_none());
    assert_eq!(t.previous_status, AccountStatus::LoadedEmptyEIP161);
    assert_eq!(t.storage.entries.len(), 1);
    assert_eq!(
        t.storage.get(u(1)),
        Some(StorageSlot { present_value: u(0), original_value: u(5) })
    );
}

#[test]
fn scenario_balance_drain() {
    let mut e = CacheAccount::new_loaded(info_with(42, contract_hash()), SlotMap::new());
    let (amount, t) = e.drain_balance();
    assert_eq!(amount, 42);
    assert_eq!(e.status, AccountStatus::Changed);
    assert_eq!(e.account_info().unwrap().balance, u(0));
    assert_eq!(t.previous_info.unwrap().balance, u(42));

    let mut e = CacheAccount::new_loaded(info_with(42, keccak_empty()), SlotMap::new());
    let (amount, _t) = e.drain_balance();
    assert_eq!(amount, 42);
    assert_eq!(e.status, AccountStatus::InMemoryChange);
}

#[test]
fn scenario_selfdestruct_of_never_existing_account() {
    let mut e = CacheAccount::new_loaded_not_existing();
    let t = e.selfdestruct();
    assert!(t.is_none());
    assert_eq!(e.status, AccountStatus::Destroyed);
}

#[test]
fn increment_balance_adds_and_promotes_status() {
    let mut e = CacheAccount::new_loaded(info_with(100, contract_hash()), SlotMap::new());
    let t = e.increment_balance(11);
    assert_eq!(e.status, AccountStatus::Changed);
    assert_eq!(e.account_info().unwrap().balance, u(111));
    assert_eq!(t.previous_info.unwrap().balance, u(100));
    assert_eq!(t.info.unwrap().balance, u(111));
    assert!(t.storage.entries.is_empty());

    // an absent record gets a zero-valued default in place
    let mut e = CacheAccount::new_loaded_not_existing();
    let t = e.increment_balance(9);
    assert_eq!(e.status, AccountStatus::InMemoryChange);
    assert_eq!(t.info.unwrap().balance, u(9));
    assert!(t.previous_info.is_none());
}

#[test]
fn accessors_read_the_entry() {
    let mut storage: PlainStorage = SlotMap::new();
    storage.insert(u(1), u(5));
    let e = CacheAccount::new_loaded(info_with(3, contract_hash()), storage);
    assert!(e.is_some());
    assert_eq!(e.storage_slot(u(1)), Some(u(5)));
    assert_eq!(e.storage_slot(u(2)), None);
    let info = e.account_info().unwrap();
    assert_eq!(info.balance, u(3));
    let (components, status) = e.into_components();
    assert_eq!(status, AccountStatus::Loaded);
    let (info, storage) = components.unwrap();
    assert_eq!(info.balance, u(3));
    assert_eq!(storage.get(u(1)), Some(u(5)));

    let e = CacheAccount::new_loaded_not_existing();
    assert!(!e.is_some());
    assert_eq!(e.storage_slot(u(1)), None);
    assert!(e.account_info().is_none());
    let (components, status) = e.into_components();
    assert!(components.is_none());
    assert_eq!(status, AccountStatus::LoadedNotExisting);
}

/// Replays one emitted transition over a reconstruction, as the aggregator
/// would: a record whose status pairs with an absent account wipes the
/// reconstruction; any other record has its present values overlaid.
fn replay(rep: &mut PlainStorage, t: &Option<TransitionAccount>) {
    if let Some(tr) = t {
        let absent = matches!(
            tr.status,
            AccountStatus::LoadedNotExisting
                | AccountStatus::Destroyed
                | AccountStatus::DestroyedAgain
        );
        if absent {
            *rep = SlotMap::new();
        } else {
            for (k, slot) in tr.storage.entries.iter() {
                rep.insert(*k, slot.present_value);
            }
        }
    }
}

/// Slot-for-slot agreement, an absent slot reading as zero.
fn same_store(a: &PlainStorage, b: &PlainStorage) -> bool {
    let zero = U256::zero();
    a.entries
        .iter()
        .all(|(k, v)| b.get(*k).unwrap_or(zero) == *v)
        && b.entries
            .iter()
            .all(|(k, v)| a.get(*k).unwrap_or(zero) == *v)
}

#[test]
fn replaying_transitions_reconstructs_final_storage() {
    let mut loaded: PlainStorage = SlotMap::new();
    loaded.insert(u(1), u(5));
    loaded.insert(u(2), u(6));
    let mut e = CacheAccount::new_loaded(info_with(10, contract_hash()), loaded.clone());
    let mut rep = loaded;

    let mut diff: StorageWithOriginalValues = SlotMap::new();
    diff.insert(u(2), StorageSlot { present_value: u(7), original_value: u(6) });
    diff.insert(u(3), StorageSlot { present_value: u(8), original_value: u(0) });
    let t = Some(e.change(info_with(11, contract_hash()), diff));
    replay(&mut rep, &t);

    let t = e.selfdestruct();
    replay(&mut rep, &t);

    let mut new_storage: StorageWithOriginalValues = SlotMap::new();
    new_storage.insert(u(4), StorageSlot { present_value: u(9), original_value: u(0) });
    let t = Some(e.newly_created(info_with(1, keccak_empty()), new_storage));
    replay(&mut rep, &t);

    let t = Some(e.increment_balance(2));
    replay(&mut rep, &t);

    let t = e.touch_empty();
    replay(&mut rep, &t);
    assert_eq!(e.status, AccountStatus::DestroyedAgain);

    let live = match e.into_components().0 {
        Some((_info, storage)) => storage,
        None => SlotMap::new(),
    };
    assert!(same_store(&rep, &live));
}
