//! The persisted entities: the contract-wide counter and per-account records.
use std::collections::HashMap;
use vstd::prelude::*;

use crate::codec::{
    account_decoded, account_record_bytes, base58_text, decode_account, decode_u128, encodable_record, encode_account,
    encode_u128, pubkey_text, raw_keys, u128_le_bytes,
};
use crate::ids::AccountId;
use crate::ledger::LedgerError;
use vstd::string::StringExecFns;

verus! {

broadcast use vstd::std_specs::hash::group_hash_axioms;

/// The contract-wide record: how many token ids have been allocated.
#[derive(Debug, Clone, Copy)]
pub struct Contract {
    pub token_count: u128,
}

/// One account's record: the operators it has approved and its balances.
#[derive(Debug, Clone)]
pub struct Account {
    pub approvals: Vec<AccountId>,
    pub balances: HashMap<u128, u128>,
}

/// The meaning of an account record: a set of operators and a balance map.
pub ghost struct AccountView {
    pub approvals: Set<AccountId>,
    pub balances: Map<u128, u128>,
}

impl View for Account {
    type V = AccountView;

    open spec fn view(&self) -> AccountView {
        AccountView { approvals: self.approvals@.to_set(), balances: self.balances@ }
    }
}

/// The balance that `m` records for `id`; an absent entry counts as zero.
pub open spec fn balance_in(m: Map<u128, u128>, id: u128) -> u128 {
    if m.contains_key(id) {
        m[id]
    } else {
        0
    }
}

/// Reads a balance with the absent-means-zero default, without creating an entry.
pub fn lookup_balance(m: &HashMap<u128, u128>, id: u128) -> (r: u128)
    ensures
        r == balance_in(m@, id),
{
    match m.get(&id) {
        Some(v) => *v,
        None => 0,
    }
}

/// The store key of the contract record.
pub fn contract_key() -> (r: String)
    ensures
        r@ == "contract"@,
{
    String::from_str("contract")
}

/// The store key of an account's record: `account-` and the account's text.
pub fn account_key(id: &AccountId) -> (r: String)
    ensures
        r@ == "account-"@ + base58_text(id.bytes@),
{
    let text = pubkey_text(id);
    String::from_str("account-").concat(text.as_str())
}

impl Contract {
    /// The record of a store in which no token has been created yet.
    pub fn new() -> (r: Contract)
        ensures
            r.token_count == 0,
    {
        Contract { token_count: 0 }
    }

    /// The contract record held by the stored bytes, if any: an absent record
    /// is the zero record, and bytes that do not decode are an error.
    pub fn from_record(stored: Option<&[u8]>) -> (r: Result<Contract, LedgerError>)
        ensures
            stored is None ==> (r matches Ok(c) && c.token_count == 0),
            stored matches Some(b) ==> {
                &&& r is Ok <==> b@.len() == 16
                &&& r matches Ok(c) ==> u128_le_bytes(c.token_count) == b@
                &&& r is Err ==> r == Err::<Contract, LedgerError>(LedgerError::CorruptRecord)
                &&& forall|v: u128|
                    b@ == #[trigger] u128_le_bytes(v) ==> (r matches Ok(c) && c.token_count == v)
            },
    {
        match stored {
            None => Ok(Contract::new()),
            Some(b) => match decode_u128(b) {
                Some(v) => Ok(Contract { token_count: v }),
                None => Err(LedgerError::CorruptRecord),
            },
        }
    }

    /// The bytes under which this record is stored.
    pub fn to_record(&self) -> (r: Result<Vec<u8>, LedgerError>)
        ensures
            r matches Ok(b) && b@ == u128_le_bytes(self.token_count),
    {
        match encode_u128(self.token_count) {
            Some(b) => Ok(b),
            None => Err(LedgerError::EncodingFailed),
        }
    }
}

impl Account {
    /// The record of an account that has never been touched.
    pub fn new() -> (r: Account)
        ensures
            r@.approvals == Set::<AccountId>::empty(),
            r@.balances == Map::<u128, u128>::empty(),
    {
        let r = Account { approvals: Vec::new(), balances: HashMap::new() };
        proof {
            assert(r.approvals@.to_set() =~= Set::<AccountId>::empty());
        }
        r
    }

    /// The account record held by the stored bytes, if any: an absent record
    /// is the empty record, and bytes that do not decode are an error.
    pub fn from_record(stored: Option<&[u8]>) -> (r: Result<Account, LedgerError>)
        ensures
            stored is None ==> (r matches Ok(a) && a@.approvals == Set::<AccountId>::empty()
                && a@.balances == Map::<u128, u128>::empty()),
            stored matches Some(b) ==> {
                &&& account_decoded(b@) is None ==> r == Err::<Account, LedgerError>(
                    LedgerError::CorruptRecord,
                )
                &&& account_decoded(b@) matches Some(d) ==> (r matches Ok(a) && raw_keys(
                    a.approvals@,
                ) == d.0 && a.balances@ == d.1)
                &&& forall|keys: Seq<[u8; 32]>, m: Map<u128, u128>|
                    encodable_record(keys, m) && b@ == #[trigger] account_record_bytes(keys, m) ==> (r matches Ok(
                        a,
                    ) && raw_keys(a.approvals@) == keys && a.balances@ == m)
            },
    {
        match stored {
            None => Ok(Account::new()),
            Some(b) => match decode_account(b) {
                Some(p) => Ok(Account { approvals: p.0, balances: p.1 }),
                None => Err(LedgerError::CorruptRecord),
            },
        }
    }

    /// The bytes under which this record is stored.
    pub fn to_record(&self) -> (r: Result<Vec<u8>, LedgerError>)
        ensures
            r is Ok <==> encodable_record(raw_keys(self.approvals@), self.balances@),
            r matches Ok(b) ==> b@ == account_record_bytes(raw_keys(self.approvals@), self.balances@),
            r is Err ==> r == Err::<Vec<u8>, LedgerError>(LedgerError::EncodingFailed),
    {
        match encode_account(&self.approvals, &self.balances) {
            Some(b) => Ok(b),
            None => Err(LedgerError::EncodingFailed),
        }
    }
}

} // verus!
