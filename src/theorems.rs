//! Laws of the ledger that relate several operations or hold of every input.
use vstd::prelude::*;

use crate::ids::AccountId;
use crate::ledger::{
    approvals_after, batch_outcome, create_outcome, lemma_batch_error_sticks, may_act_for,
    transfer_outcome, LedgerError,
};
use crate::codec::raw_keys;
use crate::state::{balance_in, Account, AccountView};

verus! {

proof fn lemma_batch_conserves(
    f: Map<u128, u128>,
    t: Map<u128, u128>,
    ids: Seq<u128>,
    values: Seq<u128>,
    n: nat,
    id: u128,
)
    requires
        n <= ids.len(),
        n <= values.len(),
    ensures
        batch_outcome(f, t, false, ids, values, n) matches Ok(p) ==> balance_in(p.0, id)
            + balance_in(p.1, id) == balance_in(f, id) + balance_in(t, id),
    decreases n,
{
    if n > 0 {
        lemma_batch_conserves(f, t, ids, values, (n - 1) as nat, id);
    }
}

/// A successful transfer between two accounts keeps, for every token id, the
/// sum of the two accounts' balances; a successful transfer from an account
/// to itself leaves its balances as they were.
pub proof fn lemma_transfer_conserves(
    caller: AccountId,
    from: AccountId,
    to: AccountId,
    fs: AccountView,
    ts: AccountView,
    ids: Seq<u128>,
    values: Seq<u128>,
    id: u128,
)
    ensures
        transfer_outcome(caller, from, to, fs, ts, ids, values) matches Ok(p) ==> {
            &&& from != to ==> balance_in(p.0, id) + balance_in(p.1, id) == balance_in(
                fs.balances,
                id,
            ) + balance_in(ts.balances, id)
            &&& from == to ==> p.0 == fs.balances && p.1 == ts.balances
        },
{
    if may_act_for(caller, from, fs) && ids.len() == values.len() {
        lemma_batch_conserves(fs.balances, ts.balances, ids, values, ids.len(), id);
    }
}

/// A batch in which some index, reached in order, asks for more than the
/// source holds fails as a whole with an insufficient-balance error for that
/// index's token id (the transfer then leaves both records untouched).
pub proof fn lemma_insufficient_index_aborts(
    caller: AccountId,
    from: AccountId,
    to: AccountId,
    fs: AccountView,
    ts: AccountView,
    ids: Seq<u128>,
    values: Seq<u128>,
    k: nat,
)
    requires
        may_act_for(caller, from, fs),
        ids.len() == values.len(),
        k < ids.len(),
        batch_outcome(fs.balances, ts.balances, from == to, ids, values, k) matches Ok(p)
            && balance_in(p.0, ids[k as int]) < values[k as int],
    ensures
        transfer_outcome(caller, from, to, fs, ts, ids, values) == Err::<
            (Map<u128, u128>, Map<u128, u128>),
            LedgerError,
        >(LedgerError::InsufficientBalance { token_id: ids[k as int] }),
{
    lemma_batch_error_sticks(
        fs.balances,
        ts.balances,
        from == to,
        ids,
        values,
        k + 1,
        ids.len(),
    );
}

/// A caller that is neither the source account nor one of its approved
/// operators is always refused, whatever the batch of matching lengths
/// (mismatched lengths are reported first).
pub proof fn lemma_stranger_is_refused(
    caller: AccountId,
    from: AccountId,
    to: AccountId,
    fs: AccountView,
    ts: AccountView,
    ids: Seq<u128>,
    values: Seq<u128>,
)
    requires
        ids.len() == values.len(),
        caller != from,
        !fs.approvals.contains(caller),
    ensures
        transfer_outcome(caller, from, to, fs, ts, ids, values) == Err::<
            (Map<u128, u128>, Map<u128, u128>),
            LedgerError,
        >(LedgerError::Unauthorized { from, caller }),
{
}

/// Right after an owner grants an operator, the owner's record approves it;
/// right after the owner revokes it, the record does not.
pub proof fn lemma_approval_then_query(approvals: Set<AccountId>, operator: AccountId)
    ensures
        approvals_after(approvals, operator, true).contains(operator),
        !approvals_after(approvals, operator, false).contains(operator),
{
}

/// An account/token pair with no prior activity has balance zero.
pub proof fn lemma_untouched_balance_is_zero(id: u128)
    ensures
        balance_in(Map::<u128, u128>::empty(), id) == 0,
{
}

/// Two token creations by one caller allocate the two next ids in sequence,
/// each credited with its own supply, and raise the token count by exactly two.
pub proof fn lemma_create_twice(
    token_count: u128,
    balances: Map<u128, u128>,
    first_supply: u128,
    second_supply: u128,
)
    requires
        token_count <= u128::MAX - 2,
    ensures
        create_outcome(token_count, balances, first_supply) matches Ok(once) && create_outcome(
            once.0,
            once.1,
            second_supply,
        ) matches Ok(twice) && {
            &&& once.0 == token_count + 1
            &&& twice.0 == token_count + 2
            &&& twice.1[once.0] == first_supply
            &&& twice.1[twice.0] == second_supply
        },
{
}

/// An account record read back from the bytes it was stored under means
/// what the stored record meant: the same operators and the same balances.
pub proof fn lemma_reload_keeps_meaning(stored: Account, reloaded: Account)
    requires
        raw_keys(reloaded.approvals@) == raw_keys(stored.approvals@),
        reloaded.balances@ == stored.balances@,
    ensures
        reloaded@ == stored@,
{
    let s = stored.approvals@;
    let t = reloaded.approvals@;
    assert(t.len() == s.len()) by {
        assert(raw_keys(t).len() == raw_keys(s).len());
    }
    assert forall|i: int| 0 <= i < s.len() implies t[i] == s[i] by {
        assert(raw_keys(t)[i] == raw_keys(s)[i]);
    }
    assert(t =~= s);
}

} // verus!
