//! Field elements of the Miden base field, held as their canonical `u64` values,
//! and the Rescue Prime Optimized hash of `miden-crypto` over them.
use vstd::prelude::*;
use miden_crypto::hash::rpo::{Rpo256, RpoDigest};
use miden_crypto::Felt;

verus! {

/// The modulus of the Goldilocks field that Miden's felts live in: 2^64 - 2^32 + 1.
pub const FIELD_MODULUS: u64 = 0xffff_ffff_0000_0001;

/// A `u64` that is the canonical value of a field element.
pub open spec fn is_felt(x: u64) -> bool {
    x < FIELD_MODULUS
}

/// Every value of the sequence is the canonical value of a field element.
pub open spec fn all_felts(s: Seq<u64>) -> bool {
    forall|i: int| 0 <= i < s.len() ==> is_felt(#[trigger] s[i])
}

/// The canonical value of the field element that `Felt::new(x)` makes: `x` reduced
/// modulo the field's modulus.
pub open spec fn felt_of(x: u64) -> u64 {
    x % FIELD_MODULUS
}

/// Reduces a `u64` into the field, as `Felt::new` does (its documentation: "if the
/// value is greater than or equal to the field modulus, modular reduction is silently
/// performed").
pub fn reduce(x: u64) -> (r: u64)
    ensures
        r == felt_of(x),
        is_felt(r),
{
    x % FIELD_MODULUS
}

/// What `Rpo256::hash_elements` returns for the field elements with these canonical
/// values: the four canonical values of the digest.
pub uninterp spec fn rpo256_hash_elements(elements: Seq<u64>) -> Seq<u64>;

/// What `Rpo256::merge` returns for the two digests with these canonical values.
pub uninterp spec fn rpo256_merge(left: Seq<u64>, right: Seq<u64>) -> Seq<u64>;

/// Calls `miden_crypto::hash::rpo::Rpo256::hash_elements` on the field elements whose
/// canonical values are given, and returns the canonical values of the digest's four
/// elements. Trusted: the result is the named hash of the input, four values long, each
/// canonical (the digest's elements are read with `as_int`, which the crate documents
/// as returning the canonical integer).
#[verifier::external_body]
pub(crate) fn hash_elements(elements: &Vec<u64>) -> (digest: [u64; 4])
    requires
        all_felts(elements@),
    ensures
        digest@ == rpo256_hash_elements(elements@),
        all_felts(digest@),
{
    let felts: Vec<Felt> = elements.iter().map(|e| Felt::new(*e)).collect();
    Rpo256::hash_elements(&felts).into()
}

/// Calls `miden_crypto::hash::rpo::Rpo256::merge` on the two digests whose canonical
/// values are given. Trusted: the result is the named merge of the two inputs, and its
/// four values are canonical.
#[verifier::external_body]
pub(crate) fn merge(left: &[u64; 4], right: &[u64; 4]) -> (digest: [u64; 4])
    requires
        all_felts(left@),
        all_felts(right@),
    ensures
        digest@ == rpo256_merge(left@, right@),
        all_felts(digest@),
{
    let l = RpoDigest::new([Felt::new(left[0]), Felt::new(left[1]), Felt::new(left[2]), Felt::new(left[3])]);
    let r = RpoDigest::new([Felt::new(right[0]), Felt::new(right[1]), Felt::new(right[2]), Felt::new(right[3])]);
    Rpo256::merge(&[l, r]).into()
}

} // verus!
