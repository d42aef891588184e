//! Byte encodings of records and the text form of account ids, as computed
//! by borsh and by solana_sdk's `Pubkey`.
use solana_sdk::pubkey::Pubkey;
use std::collections::HashMap;
use vstd::arithmetic::power2::pow2;
use vstd::prelude::*;

use borsh::BorshDeserialize;

use crate::ids::AccountId;

verus! {

/// The sixteen little-endian bytes of `v`.
pub open spec fn u128_le_bytes(v: u128) -> Seq<u8> {
    Seq::new(16, |i: int| ((v as int / pow2((8 * i) as nat) as int) % 256) as u8)
}

/// The base58 text that `Pubkey`'s `Display` writes for a 32-byte key.
pub uninterp spec fn base58_text(bytes: Seq<u8>) -> Seq<char>;

/// The borsh bytes of an account record: its operators, in the order given,
/// and its balance map.
pub uninterp spec fn account_record_bytes(approvals: Seq<[u8; 32]>, balances: Map<u128, u128>) -> Seq<u8>;

/// What borsh decodes from `b` as an account record (operators and balance
/// map), if it decodes at all.
pub uninterp spec fn account_decoded(b: Seq<u8>) -> Option<(Seq<[u8; 32]>, Map<u128, u128>)>;

/// Whether borsh can write a record with these operators and balances: it
/// prefixes each sequence with its length as a `u32`.
pub open spec fn encodable_record(approvals: Seq<[u8; 32]>, balances: Map<u128, u128>) -> bool {
    &&& balances.dom().finite()
    &&& approvals.len() <= u32::MAX
    &&& balances.dom().len() <= u32::MAX
}

/// The raw keys of a sequence of account ids.
pub open spec fn raw_keys(ids: Seq<AccountId>) -> Seq<[u8; 32]> {
    ids.map_values(|a: AccountId| a.bytes)
}

/// Relies on `Display` of `solana_sdk::pubkey::Pubkey`: the canonical text of
/// a key depends on its 32 bytes alone.
#[verifier::external_body]
pub(crate) fn pubkey_text(id: &AccountId) -> (r: String)
    ensures
        r@ == base58_text(id.bytes@),
{
    Pubkey::new_from_array(id.bytes).to_string()
}

/// Relies on `borsh::to_vec` for `u128`: it writes the sixteen little-endian
/// bytes into a `Vec`, which cannot fail.
#[verifier::external_body]
pub(crate) fn encode_u128(v: u128) -> (r: Option<Vec<u8>>)
    ensures
        r is Some,
        r matches Some(b) ==> b@ == u128_le_bytes(v),
{
    borsh::to_vec(&v).ok()
}

/// Relies on `BorshDeserialize::try_from_slice` for `u128`: it accepts exactly
/// sixteen bytes and reads them little-endian.
#[verifier::external_body]
pub(crate) fn decode_u128(b: &[u8]) -> (r: Option<u128>)
    ensures
        r is Some <==> b@.len() == 16,
        r matches Some(v) ==> u128_le_bytes(v) == b@,
        forall|v: u128| b@ == #[trigger] u128_le_bytes(v) ==> r == Some(v),
{
    u128::try_from_slice(b).ok()
}

/// Relies on `borsh::to_vec` for a pair of a `Vec<[u8; 32]>` and a
/// `HashMap<u128, u128>`; borsh writes a map's entries sorted by key, so the
/// bytes depend on the map's contents alone. It fails only where a length
/// does not fit its `u32` prefix.
#[verifier::external_body]
pub(crate) fn encode_account(approvals: &Vec<AccountId>, balances: &HashMap<u128, u128>) -> (r:
    Option<Vec<u8>>)
    ensures
        r is Some <==> encodable_record(raw_keys(approvals@), balances@),
        r matches Some(b) ==> b@ == account_record_bytes(raw_keys(approvals@), balances@),
{
    let keys: Vec<[u8; 32]> = approvals.iter().map(|a| a.bytes).collect();
    borsh::to_vec(&(keys, balances)).ok()
}

/// Whether `r` is what decoding `b` gives whenever `b` is the encoding of an
/// account record that borsh can write: a finite balance map, and both
/// lengths within `u32`.
pub open spec fn inverts_account_encoding(
    b: Seq<u8>,
    r: Option<(Vec<AccountId>, HashMap<u128, u128>)>,
) -> bool {
    forall|a: Seq<[u8; 32]>, m: Map<u128, u128>|
        encodable_record(a, m) && b == #[trigger] account_record_bytes(a, m) ==> (r matches Some(p)
            && raw_keys(p.0@) == a && p.1@ == m)
}

/// Relies on `BorshDeserialize::try_from_slice` for a pair of a
/// `Vec<[u8; 32]>` and a `HashMap<u128, u128>`: bytes that borsh wrote for a
/// pair decode to that pair.
#[verifier::external_body]
pub(crate) fn decode_account(b: &[u8]) -> (r: Option<(Vec<AccountId>, HashMap<u128, u128>)>)
    ensures
        r is Some <==> account_decoded(b@) is Some,
        r matches Some(p) ==> account_decoded(b@) == Some((raw_keys(p.0@), p.1@)),
        inverts_account_encoding(b@, r),
{
    <(Vec<[u8; 32]>, HashMap<u128, u128>)>::try_from_slice(b).ok().map(
        |(keys, balances)| (keys.into_iter().map(|bytes| AccountId { bytes }).collect(), balances),
    )
}

} // verus!
