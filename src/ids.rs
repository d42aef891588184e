use vstd::prelude::*;

verus! {

/// A 32-byte account identifier, compared byte for byte.
#[derive(Clone, Copy, Debug)]
pub struct AccountId {
    pub bytes: [u8; 32],
}

impl AccountId {
    pub fn from_bytes(bytes: [u8; 32]) -> (r: AccountId)
        ensures
            r.bytes == bytes,
    {
        AccountId { bytes }
    }

    /// Byte-exact equality.
    pub fn same_as(&self, other: &AccountId) -> (r: bool)
        ensures
            r == (*self == *other),
    {
        let mut i: usize = 0;
        while i < 32
            invariant
                i <= 32,
                forall|j: int| 0 <= j < i ==> self.bytes@[j] == other.bytes@[j],
            decreases 32 - i,
        {
            if self.bytes[i] != other.bytes[i] {
                return false;
            }
            i = i + 1;
        }
        proof {
            broadcast use vstd::array::group_array_axioms;
            assert(self.bytes =~= other.bytes);
        }
        true
    }
}

impl PartialEq for AccountId {
    fn eq(&self, other: &AccountId) -> (r: bool) {
        self.same_as(other)
    }
}

impl Eq for AccountId {

}

impl vstd::std_specs::cmp::PartialEqSpecImpl for AccountId {
    open spec fn obeys_eq_spec() -> bool {
        true
    }

    open spec fn eq_spec(&self, other: &AccountId) -> bool {
        *self == *other
    }
}

/// Whether `id` occurs in `v`.
pub fn contains_id(v: &Vec<AccountId>, id: &AccountId) -> (r: bool)
    ensures
        r == v@.contains(*id),
{
    let mut i: usize = 0;
    while i < v.len()
        invariant
            i <= v@.len(),
            forall|j: int| 0 <= j < i ==> v@[j] != *id,
        decreases v@.len() - i,
    {
        if v[i].same_as(id) {
            return true;
        }
        i = i + 1;
    }
    false
}

/// The elements of `v` other than `id`, in order.
pub fn without_id(v: &Vec<AccountId>, id: &AccountId) -> (r: Vec<AccountId>)
    ensures
        forall|x: AccountId| r@.contains(x) <==> (v@.contains(x) && x != *id),
{
    let mut out: Vec<AccountId> = Vec::new();
    let mut i: usize = 0;
    while i < v.len()
        invariant
            i <= v@.len(),
            forall|x: AccountId|
                out@.contains(x) <==> (x != *id && exists|j: int| 0 <= j < i && #[trigger] v@[j] == x),
        decreases v@.len() - i,
    {
        let ghost before = out@;
        let ghost cur = v@[i as int];
        if !v[i].same_as(id) {
            out.push(v[i]);
        }
        proof {
            assert forall|x: AccountId|
                out@.contains(x) <==> (x != *id && exists|j: int| 0 <= j < i + 1 && #[trigger] v@[j] == x) by {
                if out@.contains(x) {
                    let k = choose|k: int| 0 <= k < out@.len() && out@[k] == x;
                    if k < before.len() {
                        assert(before[k] == x);
                        assert(before.contains(x));
                    } else {
                        assert(v@[i as int] == x);
                    }
                }
                if x != *id && exists|j: int| 0 <= j < i + 1 && #[trigger] v@[j] == x {
                    let j = choose|j: int| 0 <= j < i + 1 && #[trigger] v@[j] == x;
                    if j < i {
                        assert(before.contains(x));
                        let k = choose|k: int| 0 <= k < before.len() && before[k] == x;
                        assert(out@[k] == x);
                    } else {
                        assert(out@[out@.len() - 1] == x);
                    }
                }
            }
        }
        i = i + 1;
    }
    out
}

} // verus!
