use std::collections::HashMap;

use erc1155::ids::AccountId;
use erc1155::ledger::{ERC1155Implementation, LedgerError, ERC1155};
use erc1155::state::{account_key, contract_key, Account, Contract};

/// An in-memory byte store laid out as the ledger's persisted keys.
struct MemStore {
    records: HashMap<String, Vec<u8>>,
}

impl MemStore {
    fn new() -> MemStore {
        MemStore { records: HashMap::new() }
    }

    fn load_contract(&self) -> Contract {
        Contract::from_record(self.records.get(&contract_key()).map(|v| v.as_slice())).unwrap()
    }

    fn load_account(&self, id: &AccountId) -> Account {
        Account::from_record(self.records.get(&account_key(id)).map(|v| v.as_slice())).unwrap()
    }

    fn store_account(&mut self, id: &AccountId, a: &Account) {
        self.records.insert(account_key(id), a.to_record().unwrap());
    }

    fn create_token(&mut self, caller: AccountId, supply: u128) -> Result<(), LedgerError> {
        let engine = ERC1155Implementation::new(caller);
        let mut contract = self.load_contract();
        let mut state = self.load_account(&caller);
        engine.create_token(&mut contract, &mut state, supply)?;
        self.store_account(&caller, &state);
        self.records.insert(contract_key(), contract.to_record().unwrap());
        Ok(())
    }

    fn transfer(
        &mut self,
        caller: AccountId,
        from: AccountId,
        to: AccountId,
        ids: Vec<u128>,
        values: Vec<u128>,
    ) -> Result<(), LedgerError> {
        let engine = ERC1155Implementation::new(caller);
        let mut from_state = self.load_account(&from);
        let mut to_state = self.load_account(&to);
        engine.safe_batch_transfer_from(
            from,
            to,
            &mut from_state,
            &mut to_state,
            &ids,
            &values,
            &vec![],
        )?;
        self.store_account(&from, &from_state);
        self.store_account(&to, &to_state);
        Ok(())
    }

    fn balances(&self, owners: &[AccountId], ids: Vec<u128>) -> Result<Vec<u128>, LedgerError> {
        let states: Vec<Account> = owners.iter().map(|o| self.load_account(o)).collect();
        ERC1155Implementation::new(owners[0]).balance_of_batch(&states, &ids)
    }

    fn set_approval(&mut self, caller: AccountId, operator: AccountId, approved: bool) {
        let mut state = self.load_account(&caller);
        ERC1155Implementation::new(caller).set_approval_for_all(&mut state, operator, approved);
        self.store_account(&caller, &state);
    }

    fn is_approved(&self, owner: AccountId, operator: AccountId) -> bool {
        let state = self.load_account(&owner);
        ERC1155Implementation::new(owner).is_approved_for_all(&state, operator)
    }
}

fn id(b: u8) -> AccountId {
    AccountId::from_bytes([b; 32])
}

#[test]
fn scenario_create_transfer_then_insufficient() {
    let (a, b) = (id(1), id(2));
    let mut store = MemStore::new();
    store.create_token(a, 100000).unwrap();
    assert_eq!(store.balances(&[a], vec![1]).unwrap(), vec![100000]);
    store.transfer(a, a, b, vec![1], vec![400]).unwrap();
    assert_eq!(store.balances(&[a, b], vec![1, 1]).unwrap(), vec![99600, 400]);
    let r = store.transfer(a, a, b, vec![1], vec![999999]);
    assert_eq!(r, Err(LedgerError::InsufficientBalance { token_id: 1 }));
    assert_eq!(store.balances(&[a, b], vec![1, 1]).unwrap(), vec![99600, 400]);
}

#[test]
fn scenario_stranger_refused_then_approved() {
    let (a, b, c) = (id(1), id(2), id(3));
    let mut store = MemStore::new();
    store.create_token(a, 100000).unwrap();
    let r = store.transfer(c, a, b, vec![1], vec![400]);
    assert_eq!(r, Err(LedgerError::Unauthorized { from: a, caller: c }));
    assert_eq!(store.balances(&[a, b], vec![1, 1]).unwrap(), vec![100000, 0]);
    store.set_approval(a, c, true);
    store.transfer(c, a, b, vec![1], vec![400]).unwrap();
    assert_eq!(store.balances(&[a, b], vec![1, 1]).unwrap(), vec![99600, 400]);
}

#[test]
fn create_token_twice_allocates_sequential_ids() {
    let a = id(1);
    let mut store = MemStore::new();
    assert_eq!(store.load_contract().token_count, 0);
    store.create_token(a, 10).unwrap();
    store.create_token(a, 20).unwrap();
    assert_eq!(store.load_contract().token_count, 2);
    assert_eq!(store.balances(&[a, a], vec![1, 2]).unwrap(), vec![10, 20]);
}

#[test]
fn create_token_at_largest_count_fails() {
    let engine = ERC1155Implementation::new(id(1));
    let mut contract = Contract { token_count: u128::MAX };
    let mut state = Account::new();
    let r = engine.create_token(&mut contract, &mut state, 5);
    assert_eq!(r, Err(LedgerError::TokenCountOverflow));
    assert_eq!(contract.token_count, u128::MAX);
    assert!(state.balances.is_empty());
}

#[test]
fn transfer_conserves_per_token_sums() {
    let (a, b) = (id(1), id(2));
    let mut store = MemStore::new();
    store.create_token(a, 500).unwrap();
    store.create_token(a, 70).unwrap();
    store.transfer(a, a, b, vec![1], vec![100]).unwrap();
    store.transfer(a, a, b, vec![1, 2, 1], vec![50, 70, 25]).unwrap();
    let bal = store.balances(&[a, b, a, b], vec![1, 1, 2, 2]).unwrap();
    assert_eq!(bal, vec![325, 175, 0, 70]);
    assert_eq!(bal[0] + bal[1], 500);
    assert_eq!(bal[2] + bal[3], 70);
}

#[test]
fn failed_batch_leaves_records_unchanged() {
    let (a, b) = (id(1), id(2));
    let mut store = MemStore::new();
    store.create_token(a, 100).unwrap();
    store.create_token(a, 5).unwrap();
    let before_a = store.records.get(&account_key(&a)).cloned();
    let before_b = store.records.get(&account_key(&b)).cloned();
    let r = store.transfer(a, a, b, vec![1, 2], vec![60, 6]);
    assert_eq!(r, Err(LedgerError::InsufficientBalance { token_id: 2 }));
    assert_eq!(store.records.get(&account_key(&a)).cloned(), before_a);
    assert_eq!(store.records.get(&account_key(&b)).cloned(), before_b);

    let engine = ERC1155Implementation::new(a);
    let mut from_state = store.load_account(&a);
    let mut to_state = store.load_account(&b);
    let r = engine.safe_batch_transfer_from(
        a,
        b,
        &mut from_state,
        &mut to_state,
        &vec![1, 2],
        &vec![60, 6],
        &vec![],
    );
    assert!(r.is_err());
    assert_eq!(from_state.balances.get(&1), Some(&100));
    assert_eq!(from_state.balances.get(&2), Some(&5));
    assert!(to_state.balances.is_empty());
}

#[test]
fn repeated_id_in_batch_is_applied_in_order() {
    let (a, b) = (id(1), id(2));
    let mut store = MemStore::new();
    store.create_token(a, 100).unwrap();
    let r = store.transfer(a, a, b, vec![1, 1], vec![60, 60]);
    assert_eq!(r, Err(LedgerError::InsufficientBalance { token_id: 1 }));
    assert_eq!(store.balances(&[a, b], vec![1, 1]).unwrap(), vec![100, 0]);
    store.transfer(a, a, b, vec![1, 1], vec![60, 40]).unwrap();
    assert_eq!(store.balances(&[a, b], vec![1, 1]).unwrap(), vec![0, 100]);
}

#[test]
fn transfer_overflowing_receiver_fails() {
    let (a, b) = (id(1), id(2));
    let engine = ERC1155Implementation::new(a);
    let mut from_state = Account::new();
    from_state.balances.insert(7, 10);
    let mut to_state = Account::new();
    to_state.balances.insert(7, u128::MAX - 5);
    let r = engine.safe_batch_transfer_from(
        a,
        b,
        &mut from_state,
        &mut to_state,
        &vec![7],
        &vec![6],
        &vec![],
    );
    assert_eq!(r, Err(LedgerError::BalanceOverflow { token_id: 7 }));
    assert_eq!(from_state.balances.get(&7), Some(&10));
    assert_eq!(to_state.balances.get(&7), Some(&(u128::MAX - 5)));
}

#[test]
fn transfer_length_mismatch_fails() {
    let (a, b) = (id(1), id(2));
    let mut store = MemStore::new();
    store.create_token(a, 100).unwrap();
    let r = store.transfer(a, a, b, vec![1, 1], vec![10]);
    assert_eq!(r, Err(LedgerError::LengthMismatch));
    assert_eq!(store.balances(&[a, b], vec![1, 1]).unwrap(), vec![100, 0]);
}

#[test]
fn balance_query_length_mismatch_fails() {
    let a = id(1);
    let store = MemStore::new();
    assert_eq!(store.balances(&[a, a], vec![1]), Err(LedgerError::LengthMismatch));
    assert_eq!(store.balances(&[a], vec![1, 2]), Err(LedgerError::LengthMismatch));
}

#[test]
fn self_transfer_keeps_balance() {
    let a = id(1);
    let mut store = MemStore::new();
    store.create_token(a, 100).unwrap();
    store.transfer(a, a, a, vec![1], vec![60]).unwrap();
    assert_eq!(store.balances(&[a], vec![1]).unwrap(), vec![100]);
    let r = store.transfer(a, a, a, vec![1], vec![101]);
    assert_eq!(r, Err(LedgerError::InsufficientBalance { token_id: 1 }));
    assert_eq!(store.balances(&[a], vec![1]).unwrap(), vec![100]);
}

#[test]
fn self_transfer_debits_earlier_indices_first() {
    let a = id(1);
    let mut store = MemStore::new();
    store.create_token(a, 100).unwrap();
    let r = store.transfer(a, a, a, vec![1, 1], vec![60, 60]);
    assert_eq!(r, Err(LedgerError::InsufficientBalance { token_id: 1 }));
    assert_eq!(store.balances(&[a], vec![1]).unwrap(), vec![100]);
    store.transfer(a, a, a, vec![1, 1], vec![60, 40]).unwrap();
    assert_eq!(store.balances(&[a], vec![1]).unwrap(), vec![100]);
}

#[test]
fn length_mismatch_is_reported_before_authorization() {
    let (a, b, c) = (id(1), id(2), id(3));
    let mut store = MemStore::new();
    store.create_token(a, 100).unwrap();
    let r = store.transfer(c, a, b, vec![1, 1], vec![10]);
    assert_eq!(r, Err(LedgerError::LengthMismatch));
    let r = store.transfer(c, a, b, vec![1], vec![10]);
    assert_eq!(r, Err(LedgerError::Unauthorized { from: a, caller: c }));
}

#[test]
fn empty_balance_query_is_empty() {
    let engine = ERC1155Implementation::new(id(1));
    assert_eq!(engine.balance_of_batch(&vec![], &vec![]), Ok(vec![]));
}

#[test]
fn approval_set_then_revoked() {
    let (a, op) = (id(1), id(9));
    let mut store = MemStore::new();
    assert!(!store.is_approved(a, op));
    store.set_approval(a, op, true);
    assert!(store.is_approved(a, op));
    store.set_approval(a, op, true);
    assert!(store.is_approved(a, op));
    store.set_approval(a, op, false);
    assert!(!store.is_approved(a, op));
    store.set_approval(a, op, false);
    assert!(!store.is_approved(a, op));
}

#[test]
fn approvals_are_per_owner() {
    let (a, b, c) = (id(1), id(2), id(3));
    let mut store = MemStore::new();
    store.set_approval(a, b, true);
    store.set_approval(b, c, true);
    assert!(store.is_approved(a, b));
    assert!(!store.is_approved(a, c));
    assert!(!store.is_approved(b, a));
    store.create_token(a, 10).unwrap();
    let r = store.transfer(c, a, c, vec![1], vec![1]);
    assert_eq!(r, Err(LedgerError::Unauthorized { from: a, caller: c }));
}

#[test]
fn untouched_pair_has_zero_balance() {
    let (a, b) = (id(1), id(2));
    let mut store = MemStore::new();
    assert_eq!(store.balances(&[b], vec![42]).unwrap(), vec![0]);
    store.create_token(a, 10).unwrap();
    assert_eq!(store.balances(&[a, b], vec![99, 1]).unwrap(), vec![0, 0]);
}

#[test]
fn contract_record_is_little_endian() {
    let bytes = Contract { token_count: 258 }.to_record().unwrap();
    let mut expected = vec![0u8; 16];
    expected[0] = 2;
    expected[1] = 1;
    assert_eq!(bytes, expected);
    assert_eq!(Contract::from_record(Some(&expected)).unwrap().token_count, 258);
}

#[test]
fn absent_records_are_defaults() {
    assert_eq!(Contract::from_record(None).unwrap().token_count, 0);
    let a = Account::from_record(None).unwrap();
    assert!(a.approvals.is_empty());
    assert!(a.balances.is_empty());
}

#[test]
fn undecodable_records_are_errors() {
    let junk: Vec<u8> = vec![1, 2, 3];
    assert_eq!(Contract::from_record(Some(&junk)).unwrap_err(), LedgerError::CorruptRecord);
    assert_eq!(Account::from_record(Some(&junk)).unwrap_err(), LedgerError::CorruptRecord);
}

#[test]
fn account_record_round_trip() {
    let mut a = Account::new();
    a.approvals.push(id(5));
    a.approvals.push(id(6));
    a.balances.insert(3, 30);
    a.balances.insert(1, 10);
    let bytes = a.to_record().unwrap();
    assert_eq!(bytes.len(), 4 + 64 + 4 + 2 * 32);
    assert_eq!(&bytes[0..4], &[2, 0, 0, 0]);
    let back = Account::from_record(Some(&bytes)).unwrap();
    assert_eq!(back.approvals, vec![id(5), id(6)]);
    assert_eq!(back.balances, a.balances);
}

#[test]
fn account_key_uses_base58_text() {
    assert_eq!(contract_key(), "contract");
    assert_eq!(account_key(&id(0)), format!("account-{}", "1".repeat(32)));
    let mut bytes = [0u8; 32];
    bytes[31] = 1;
    assert_eq!(account_key(&AccountId::from_bytes(bytes)), format!("account-{}2", "1".repeat(31)));
}

#[test]
fn account_ids_compare_bytewise() {
    let mut bytes = [7u8; 32];
    assert!(AccountId::from_bytes(bytes).same_as(&id(7)));
    bytes[31] = 8;
    assert!(!AccountId::from_bytes(bytes).same_as(&id(7)));
    assert_ne!(AccountId::from_bytes(bytes), id(7));
}
