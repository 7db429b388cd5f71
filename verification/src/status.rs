//! The status lattice: a closed set of named states describing an account's
//! provenance and mutation history within one batch, together with the
//! transition rules that every engine operation follows.

use vstd::prelude::*;

verus! {

/// Cache status of one account within a batch. No other values are valid.
#[derive(Clone, Copy, Debug, PartialEq, Eq, Structural, Hash)]
pub enum AccountStatus {
    /// Loaded from persistent storage with its real metadata.
    Loaded,
    /// Loaded with empty metadata but possibly pre-existing storage slots
    /// (pre state-clearing chains).
    LoadedEmptyEIP161,
    /// Confirmed negative lookup: the account does not exist.
    LoadedNotExisting,
    /// Created, or first materialized, purely within this batch.
    InMemoryChange,
    /// A persisted account whose metadata or storage changed in this batch.
    Changed,
    /// Destroyed in this batch.
    Destroyed,
    /// Destroyed and then recreated in the same batch.
    DestroyedChanged,
    /// Destroyed again after a destroy-recreate cycle in the same batch.
    DestroyedAgain,
}

impl AccountStatus {
    /// The statuses that pair with an absent record; all others pair with a
    /// present record. Every transition enforces this pairing by construction.
    pub open spec fn record_is_absent(self) -> bool {
        match self {
            AccountStatus::LoadedNotExisting => true,
            AccountStatus::Destroyed => true,
            AccountStatus::DestroyedAgain => true,
            _ => false,
        }
    }

    /// `touch_empty` is defined on every status except `Loaded` and `Changed`:
    /// observing emptiness on an account the engine believes still has
    /// non-trivial persisted state is a caller sequencing violation.
    pub open spec fn touch_empty_allowed(self) -> bool {
        !(self is Loaded || self is Changed)
    }

    /// Status after `touch_empty`. Unspecified on the two statuses that
    /// `touch_empty_allowed` rules out.
    pub open spec fn touch_empty_next(self) -> AccountStatus {
        match self {
            AccountStatus::DestroyedChanged => AccountStatus::DestroyedAgain,
            AccountStatus::InMemoryChange => AccountStatus::Destroyed,
            AccountStatus::LoadedNotExisting => AccountStatus::LoadedNotExisting,
            AccountStatus::Destroyed => AccountStatus::Destroyed,
            AccountStatus::DestroyedAgain => AccountStatus::DestroyedAgain,
            AccountStatus::LoadedEmptyEIP161 => AccountStatus::Destroyed,
            _ => arbitrary(),
        }
    }

    /// Status after `selfdestruct`: destroyed once, or again.
    pub open spec fn selfdestruct_next(self) -> AccountStatus {
        match self {
            AccountStatus::DestroyedChanged => AccountStatus::DestroyedAgain,
            AccountStatus::DestroyedAgain => AccountStatus::DestroyedAgain,
            AccountStatus::Destroyed => AccountStatus::DestroyedAgain,
            _ => AccountStatus::Destroyed,
        }
    }

    /// Status after `newly_created`: recreation after a destroy stays in the
    /// destroyed family; otherwise the account is an in-memory creation.
    pub open spec fn newly_created_next(self) -> AccountStatus {
        match self {
            AccountStatus::DestroyedAgain => AccountStatus::DestroyedChanged,
            AccountStatus::Destroyed => AccountStatus::DestroyedChanged,
            AccountStatus::DestroyedChanged => AccountStatus::DestroyedChanged,
            _ => AccountStatus::InMemoryChange,
        }
    }

    /// Status after a metadata or storage change. `had_empty_code` tells
    /// whether the account's previous code hash was the canonical empty-code
    /// hash; it only matters from `Loaded`.
    pub open spec fn change_next(self, had_empty_code: bool) -> AccountStatus {
        match self {
            AccountStatus::Loaded => if had_empty_code {
                AccountStatus::InMemoryChange
            } else {
                AccountStatus::Changed
            },
            AccountStatus::Changed => AccountStatus::Changed,
            AccountStatus::InMemoryChange => AccountStatus::InMemoryChange,
            AccountStatus::DestroyedChanged => AccountStatus::DestroyedChanged,
            AccountStatus::LoadedEmptyEIP161 => AccountStatus::InMemoryChange,
            AccountStatus::LoadedNotExisting => AccountStatus::InMemoryChange,
            AccountStatus::Destroyed => AccountStatus::DestroyedChanged,
            AccountStatus::DestroyedAgain => AccountStatus::DestroyedChanged,
        }
    }

    pub fn record_absent(self) -> (r: bool)
        ensures
            r == self.record_is_absent(),
    {
        matches!(
            self,
            AccountStatus::LoadedNotExisting
                | AccountStatus::Destroyed
                | AccountStatus::DestroyedAgain
        )
    }

    pub fn on_touch_empty(self) -> (r: AccountStatus)
        requires
            self.touch_empty_allowed(),
        ensures
            r == self.touch_empty_next(),
    {
        match self {
            AccountStatus::DestroyedChanged => AccountStatus::DestroyedAgain,
            AccountStatus::InMemoryChange => AccountStatus::Destroyed,
            AccountStatus::LoadedNotExisting => AccountStatus::LoadedNotExisting,
            AccountStatus::Destroyed => AccountStatus::Destroyed,
            AccountStatus::DestroyedAgain => AccountStatus::DestroyedAgain,
            AccountStatus::LoadedEmptyEIP161 => AccountStatus::Destroyed,
            AccountStatus::Loaded => vstd::pervasive::unreached(),
            AccountStatus::Changed => vstd::pervasive::unreached(),
        }
    }

    pub fn on_selfdestruct(self) -> (r: AccountStatus)
        ensures
            r == self.selfdestruct_next(),
    {
        match self {
            AccountStatus::DestroyedChanged
            | AccountStatus::DestroyedAgain
            | AccountStatus::Destroyed => AccountStatus::DestroyedAgain,
            _ => AccountStatus::Destroyed,
        }
    }

    pub fn on_newly_created(self) -> (r: AccountStatus)
        ensures
            r == self.newly_created_next(),
    {
        match self {
            AccountStatus::DestroyedAgain
            | AccountStatus::Destroyed
            | AccountStatus::DestroyedChanged => AccountStatus::DestroyedChanged,
            _ => AccountStatus::InMemoryChange,
        }
    }

    pub fn on_change(self, had_empty_code: bool) -> (r: AccountStatus)
        ensures
            r == self.change_next(had_empty_code),
    {
        match self {
            AccountStatus::Loaded => if had_empty_code {
                AccountStatus::InMemoryChange
            } else {
                AccountStatus::Changed
            },
            AccountStatus::Changed => AccountStatus::Changed,
            AccountStatus::InMemoryChange => AccountStatus::InMemoryChange,
            AccountStatus::DestroyedChanged => AccountStatus::DestroyedChanged,
            AccountStatus::LoadedEmptyEIP161 => AccountStatus::InMemoryChange,
            AccountStatus::LoadedNotExisting => AccountStatus::InMemoryChange,
            AccountStatus::Destroyed => AccountStatus::DestroyedChanged,
            AccountStatus::DestroyedAgain => AccountStatus::DestroyedChanged,
        }
    }
}

/// Touching an empty entry whose record is already absent is an idempotent
/// no-op: the status is unchanged, once and twice over, and stays in the
/// absent family (so, by `touch_empty`'s contract, no transition record is
/// emitted either time).
pub proof fn lemma_touch_empty_noop_idempotent(s: AccountStatus)
    requires
        s.record_is_absent(),
    ensures
        s.touch_empty_next() == s,
        s.touch_empty_next().touch_empty_next() == s,
        s.touch_empty_next().record_is_absent(),
{
}

} // verus!
