//! Account records: metadata (balance, nonce, code reference) plus live
//! storage. A non-existent account is the absence of a record, never a record
//! with zeroed fields.

use vstd::prelude::*;

use crate::storage::PlainStorage;
use crate::u256::{B256, U256, spec_keccak_empty};

verus! {

/// Mathematical model of account metadata: the balance as an unbounded
/// natural, the nonce, the code hash, and the code bytes if loaded.
pub ghost struct AccountInfoV {
    pub balance: nat,
    pub nonce: nat,
    pub code_hash: B256,
    pub code: Option<Seq<u8>>,
}

/// Account metadata.
#[derive(Clone, Debug, PartialEq, Eq)]
pub struct AccountInfo {
    pub balance: U256,
    pub nonce: u64,
    pub code_hash: B256,
    pub code: Option<Vec<u8>>,
}

impl View for AccountInfo {
    type V = AccountInfoV;

    open spec fn view(&self) -> AccountInfoV {
        AccountInfoV {
            balance: self.balance.as_nat(),
            nonce: self.nonce as nat,
            code_hash: self.code_hash,
            code: match self.code {
                Some(c) => Some(c@),
                None => None,
            },
        }
    }
}

/// The model of zero/empty metadata: zero balance, zero nonce, the canonical
/// empty-code hash, no code.
pub open spec fn empty_info() -> AccountInfoV {
    AccountInfoV { balance: 0, nonce: 0, code_hash: spec_keccak_empty(), code: None }
}

impl AccountInfo {
    /// A faithful copy: same balance, nonce, code hash and code bytes.
    pub fn duplicate(&self) -> (r: AccountInfo)
        ensures
            r@ == self@,
    {
        let code: Option<Vec<u8>> = match &self.code {
            Some(c) => {
                let d = c.clone();
                proof {
                    assert(d@ =~= c@);
                }
                Some(d)
            },
            None => None,
        };
        AccountInfo { balance: self.balance, nonce: self.nonce, code_hash: self.code_hash, code }
    }
}

impl Default for AccountInfo {
    /// Zero/empty metadata.
    fn default() -> (r: AccountInfo)
        ensures
            r@ == empty_info(),
    {
        AccountInfo {
            balance: U256::zero(),
            nonce: 0,
            code_hash: crate::u256::keccak_empty(),
            code: None,
        }
    }
}

/// An account record: metadata plus live storage.
#[derive(Clone, Debug, PartialEq, Eq)]
pub struct PlainAccount {
    pub info: AccountInfo,
    pub storage: PlainStorage,
}

impl PlainAccount {
    /// A record whose metadata is zero/empty but which still carries
    /// pre-existing storage slots.
    pub fn new_empty_with_storage(storage: PlainStorage) -> (r: PlainAccount)
        ensures
            r.info@ == empty_info(),
            r.storage == storage,
    {
        PlainAccount { info: AccountInfo::default(), storage }
    }

    /// Splits the record into metadata and storage.
    pub fn into_components(self) -> (r: (AccountInfo, PlainStorage))
        ensures
            r.0 == self.info,
            r.1 == self.storage,
    {
        (self.info, self.storage)
    }
}

/// The metadata view of an optional account record.
pub open spec fn info_of(acc: Option<PlainAccount>) -> Option<AccountInfoV> {
    match acc {
        Some(a) => Some(a.info@),
        None => None,
    }
}

/// The metadata view of an optional metadata value.
pub open spec fn opt_info_view(o: Option<AccountInfo>) -> Option<AccountInfoV> {
    match o {
        Some(i) => Some(i@),
        None => None,
    }
}

/// The live storage of an optional account record; an absent record holds no
/// slots.
pub open spec fn storage_of(acc: Option<PlainAccount>) -> Map<U256, U256> {
    match acc {
        Some(a) => a.storage@,
        None => Map::empty(),
    }
}

/// The metadata of an optional record, defaulting to zero/empty metadata where
/// the record is absent (the default the metadata-change primitive constructs
/// in place).
pub open spec fn info_or_default(acc: Option<PlainAccount>) -> AccountInfoV {
    match acc {
        Some(a) => a.info@,
        None => empty_info(),
    }
}

/// The balance of an optional record; an absent record has balance zero.
pub open spec fn balance_of(acc: Option<PlainAccount>) -> nat {
    info_or_default(acc).balance
}

/// Whether a record is present and its code hash is the canonical empty-code
/// hash. Decides `Loaded`'s successor under a change.
pub open spec fn had_empty_code(acc: Option<PlainAccount>) -> bool {
    match acc {
        Some(a) => a.info.code_hash == spec_keccak_empty(),
        None => false,
    }
}

} // verus!
