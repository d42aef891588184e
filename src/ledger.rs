//! The ledger engine: token creation, batched transfers, balance queries and
//! operator approvals, each acting on the records that the operation touches.
use vstd::prelude::*;

use crate::ids::{contains_id, without_id, AccountId};
use crate::state::{balance_in, lookup_balance, Account, AccountView, Contract};

verus! {

broadcast use vstd::std_specs::hash::group_hash_axioms;

/// A business-rule or record failure of one ledger operation.
#[derive(Debug, Clone, Copy, PartialEq, Eq)]
pub enum LedgerError {
    /// The caller is neither the source account nor one of its operators.
    Unauthorized { from: AccountId, caller: AccountId },
    /// Two parallel input sequences have different lengths.
    LengthMismatch,
    /// The source account holds less of `token_id` than was asked for.
    InsufficientBalance { token_id: u128 },
    /// Crediting `token_id` would exceed the largest representable amount.
    BalanceOverflow { token_id: u128 },
    /// No further token id can be allocated.
    TokenCountOverflow,
    /// A stored record is present but its bytes do not decode.
    CorruptRecord,
    /// A record could not be encoded.
    EncodingFailed,
}

/// One index of a batch between two distinct accounts: debit `f`, credit `t`.
pub open spec fn transfer_step(
    f: Map<u128, u128>,
    t: Map<u128, u128>,
    id: u128,
    v: u128,
) -> Result<(Map<u128, u128>, Map<u128, u128>), LedgerError> {
    let fb = balance_in(f, id);
    let tb = balance_in(t, id);
    if fb < v {
        Err(LedgerError::InsufficientBalance { token_id: id })
    } else if tb + v > u128::MAX {
        Err(LedgerError::BalanceOverflow { token_id: id })
    } else {
        Ok((f.insert(id, (fb - v) as u128), t.insert(id, (tb + v) as u128)))
    }
}

/// One index of a batch from an account to itself: the source copy `f` is
/// debited, so each index must be covered by what the earlier indices left;
/// the credits to the destination copy `t` are not tracked, since the whole
/// transfer leaves the account as it was.
pub open spec fn self_transfer_step(
    f: Map<u128, u128>,
    t: Map<u128, u128>,
    id: u128,
    v: u128,
) -> Result<(Map<u128, u128>, Map<u128, u128>), LedgerError> {
    let fb = balance_in(f, id);
    if fb < v {
        Err(LedgerError::InsufficientBalance { token_id: id })
    } else {
        Ok((f.insert(id, (fb - v) as u128), t))
    }
}

/// The balance maps after the first `n` indices of a batch, applied in order,
/// or the error of the first index that fails.
pub open spec fn batch_outcome(
    f: Map<u128, u128>,
    t: Map<u128, u128>,
    same: bool,
    ids: Seq<u128>,
    values: Seq<u128>,
    n: nat,
) -> Result<(Map<u128, u128>, Map<u128, u128>), LedgerError>
    decreases n,
{
    if n == 0 {
        Ok((f, t))
    } else {
        match batch_outcome(f, t, same, ids, values, (n - 1) as nat) {
            Err(e) => Err(e),
            Ok(p) => if same {
                self_transfer_step(p.0, p.1, ids[n - 1], values[n - 1])
            } else {
                transfer_step(p.0, p.1, ids[n - 1], values[n - 1])
            },
        }
    }
}

/// Whether `caller` may move tokens out of the account whose record is `fs`.
pub open spec fn may_act_for(caller: AccountId, from: AccountId, fs: AccountView) -> bool {
    caller == from || fs.approvals.contains(caller)
}

/// What a batch transfer does: the new balance maps of `from` and `to`, or
/// the error that aborts it. Mismatched lengths are refused before the
/// source record is consulted; a transfer from an account to itself that
/// succeeds leaves both maps as they were.
pub open spec fn transfer_outcome(
    caller: AccountId,
    from: AccountId,
    to: AccountId,
    fs: AccountView,
    ts: AccountView,
    ids: Seq<u128>,
    values: Seq<u128>,
) -> Result<(Map<u128, u128>, Map<u128, u128>), LedgerError> {
    if ids.len() != values.len() {
        Err(LedgerError::LengthMismatch)
    } else if !may_act_for(caller, from, fs) {
        Err(LedgerError::Unauthorized { from, caller })
    } else {
        match batch_outcome(fs.balances, ts.balances, from == to, ids, values, ids.len()) {
            Err(e) => Err(e),
            Ok(p) => if from == to {
                Ok((fs.balances, ts.balances))
            } else {
                Ok(p)
            },
        }
    }
}

/// Once a prefix of a batch fails, every longer prefix fails the same way.
pub proof fn lemma_batch_error_sticks(
    f: Map<u128, u128>,
    t: Map<u128, u128>,
    same: bool,
    ids: Seq<u128>,
    values: Seq<u128>,
    k: nat,
    n: nat,
)
    requires
        k <= n,
        batch_outcome(f, t, same, ids, values, k) is Err,
    ensures
        batch_outcome(f, t, same, ids, values, n) == batch_outcome(f, t, same, ids, values, k),
    decreases n - k,
{
    if k < n {
        lemma_batch_error_sticks(f, t, same, ids, values, k, (n - 1) as nat);
    }
}

/// What token creation does: the new token count and the creator's balances.
pub open spec fn create_outcome(
    token_count: u128,
    balances: Map<u128, u128>,
    supply: u128,
) -> Result<(u128, Map<u128, u128>), LedgerError> {
    if token_count == u128::MAX {
        Err(LedgerError::TokenCountOverflow)
    } else {
        let id = (token_count + 1) as u128;
        Ok((id, balances.insert(id, supply)))
    }
}

/// An approval set after granting (`approved`) or revoking `operator`.
pub open spec fn approvals_after(
    approvals: Set<AccountId>,
    operator: AccountId,
    approved: bool,
) -> Set<AccountId> {
    if approved {
        approvals.insert(operator)
    } else {
        approvals.remove(operator)
    }
}

/// The ERC-1155 operations, each on the records of the accounts it touches.
pub trait ERC1155 {
    /// The account on whose authority the operations act.
    spec fn caller_id(&self) -> AccountId;

    /// Moves `values[i]` of token `ids[i]` from `from` to `to` for each index
    /// in order, on the records `from_state` and `to_state` of the two
    /// accounts. Either the whole batch applies or neither record changes.
    /// When `from` and `to` are one account, only `from_state` is consulted
    /// and both records stay as they are. `data` has no effect.
    fn safe_batch_transfer_from(
        &self,
        from: AccountId,
        to: AccountId,
        from_state: &mut Account,
        to_state: &mut Account,
        ids: &Vec<u128>,
        values: &Vec<u128>,
        data: &Vec<u8>,
    ) -> (r: Result<(), LedgerError>)
        ensures
            match transfer_outcome(
                self.caller_id(),
                from,
                to,
                old(from_state)@,
                old(to_state)@,
                ids@,
                values@,
            ) {
                Ok(p) => {
                    &&& r is Ok
                    &&& final(from_state).balances@ == p.0
                    &&& final(to_state).balances@ == p.1
                    &&& final(from_state).approvals == old(from_state).approvals
                    &&& final(to_state).approvals == old(to_state).approvals
                },
                Err(e) => {
                    &&& r == Err::<(), LedgerError>(e)
                    &&& *final(from_state) == *old(from_state)
                    &&& *final(to_state) == *old(to_state)
                },
            },
    ;

    /// The balance of `ids[i]` in the record `owner_states[i]`, for each index.
    fn balance_of_batch(&self, owner_states: &Vec<Account>, ids: &Vec<u128>) -> (r: Result<
        Vec<u128>,
        LedgerError,
    >)
        ensures
            owner_states@.len() != ids@.len() <==> r == Err::<Vec<u128>, LedgerError>(
                LedgerError::LengthMismatch,
            ),
            owner_states@.len() == ids@.len() ==> r is Ok,
            r matches Ok(v) ==> {
                &&& v@.len() == ids@.len()
                &&& forall|i: int|
                    0 <= i < v@.len() ==> v@[i] == balance_in(owner_states@[i]@.balances, ids@[i])
            },
    ;

    /// Grants or revokes `operator` in the caller's own record.
    fn set_approval_for_all(&self, caller_state: &mut Account, operator: AccountId, approved: bool)
        ensures
            final(caller_state)@.approvals == approvals_after(
                old(caller_state)@.approvals,
                operator,
                approved,
            ),
            final(caller_state).balances == old(caller_state).balances,
    ;

    /// Whether the record `owner_state` lists `operator` as an approved operator.
    fn is_approved_for_all(&self, owner_state: &Account, operator: AccountId) -> (r: bool)
        ensures
            r == owner_state@.approvals.contains(operator),
    ;
}

/// The engine, acting on behalf of one caller.
pub struct ERC1155Implementation {
    pub caller: AccountId,
}

impl ERC1155Implementation {
    pub fn new(caller: AccountId) -> (r: ERC1155Implementation)
        ensures
            r.caller == caller,
    {
        ERC1155Implementation { caller }
    }

    /// Allocates the next token id and credits all of `supply` to the
    /// caller's record `caller_state`. On error neither record changes.
    pub fn create_token(&self, contract: &mut Contract, caller_state: &mut Account, supply: u128) -> (r:
        Result<(), LedgerError>)
        ensures
            match create_outcome(old(contract).token_count, old(caller_state)@.balances, supply) {
                Ok(p) => {
                    &&& r is Ok
                    &&& final(contract).token_count == p.0
                    &&& final(caller_state).balances@ == p.1
                    &&& final(caller_state).approvals == old(caller_state).approvals
                },
                Err(e) => {
                    &&& r == Err::<(), LedgerError>(e)
                    &&& final(contract).token_count == old(contract).token_count
                    &&& *final(caller_state) == *old(caller_state)
                },
            },
    {
        if contract.token_count == u128::MAX {
            return Err(LedgerError::TokenCountOverflow);
        }
        let id = contract.token_count + 1;
        caller_state.balances.insert(id, supply);
        contract.token_count = id;
        Ok(())
    }
}

impl ERC1155 for ERC1155Implementation {
    open spec fn caller_id(&self) -> AccountId {
        self.caller
    }

    fn safe_batch_transfer_from(
        &self,
        from: AccountId,
        to: AccountId,
        from_state: &mut Account,
        to_state: &mut Account,
        ids: &Vec<u128>,
        values: &Vec<u128>,
        _data: &Vec<u8>,
    ) -> (r: Result<(), LedgerError>) {
        if ids.len() != values.len() {
            return Err(LedgerError::LengthMismatch);
        }
        if !self.caller.same_as(&from) && !contains_id(&from_state.approvals, &self.caller) {
            return Err(LedgerError::Unauthorized { from, caller: self.caller });
        }
        let same = from.same_as(&to);
        let mut fb = from_state.balances.clone();
        let mut tb = to_state.balances.clone();
        let n = ids.len();
        let ghost f0 = from_state.balances@;
        let ghost t0 = to_state.balances@;
        let mut i: usize = 0;
        while i < n
            invariant
                n == ids@.len(),
                n == values@.len(),
                i <= n,
                same == (from == to),
                *from_state == *old(from_state),
                *to_state == *old(to_state),
                f0 == from_state.balances@,
                t0 == to_state.balances@,
                may_act_for(self.caller, from, old(from_state)@),
                batch_outcome(f0, t0, same, ids@, values@, i as nat) == Ok::<
                    (Map<u128, u128>, Map<u128, u128>),
                    LedgerError,
                >((fb@, tb@)),
            decreases n - i,
        {
            let id = ids[i];
            let v = values[i];
            let f_bal = lookup_balance(&fb, id);
            if f_bal < v {
                proof {
                    lemma_batch_error_sticks(f0, t0, same, ids@, values@, (i + 1) as nat, n as nat);
                }
                return Err(LedgerError::InsufficientBalance { token_id: id });
            }
            if !same {
                let t_bal = lookup_balance(&tb, id);
                if t_bal > u128::MAX - v {
                    proof {
                        lemma_batch_error_sticks(f0, t0, same, ids@, values@, (i + 1) as nat, n as nat);
                    }
                    return Err(LedgerError::BalanceOverflow { token_id: id });
                }
                tb.insert(id, t_bal + v);
            }
            fb.insert(id, f_bal - v);
            i = i + 1;
        }
        if !same {
            from_state.balances = fb;
            to_state.balances = tb;
        }
        Ok(())
    }

    fn balance_of_batch(&self, owner_states: &Vec<Account>, ids: &Vec<u128>) -> (r: Result<
        Vec<u128>,
        LedgerError,
    >) {
        if owner_states.len() != ids.len() {
            return Err(LedgerError::LengthMismatch);
        }
        let mut out: Vec<u128> = Vec::new();
        let mut i: usize = 0;
        while i < ids.len()
            invariant
                owner_states@.len() == ids@.len(),
                i <= ids@.len(),
                out@.len() == i,
                forall|j: int|
                    0 <= j < i ==> out@[j] == balance_in(owner_states@[j]@.balances, ids@[j]),
            decreases ids@.len() - i,
        {
            out.push(lookup_balance(&owner_states[i].balances, ids[i]));
            i = i + 1;
        }
        Ok(out)
    }

    fn set_approval_for_all(&self, caller_state: &mut Account, operator: AccountId, approved: bool) {
        if approved {
            if !contains_id(&caller_state.approvals, &operator) {
                caller_state.approvals.push(operator);
                proof {
                    let before = old(caller_state).approvals@;
                    assert forall|x: AccountId|
                        caller_state.approvals@.contains(x) <==> (before.contains(x) || x
                            == operator) by {
                        if before.contains(x) {
                            let k = choose|k: int| 0 <= k < before.len() && before[k] == x;
                            assert(caller_state.approvals@[k] == x);
                        }
                        if x == operator {
                            assert(caller_state.approvals@[before.len() as int] == x);
                        }
                    }
                }
            }
            proof {
                assert(caller_state.approvals@.to_set() =~= old(caller_state).approvals@.to_set().insert(
                    operator,
                ));
            }
        } else {
            let kept = without_id(&caller_state.approvals, &operator);
            caller_state.approvals = kept;
            proof {
                assert(caller_state.approvals@.to_set() =~= old(caller_state).approvals@.to_set().remove(
                    operator,
                ));
            }
        }
    }

    fn is_approved_for_all(&self, owner_state: &Account, operator: AccountId) -> (r: bool) {
        contains_id(&owner_state.approvals, &operator)
    }
}

} // verus!
