//! The storage map of the multisig proof-of-concept account: every authorized public key
//! (a word of four field elements) maps to the word `[1, 1, 1, 1]`.
use vstd::prelude::*;
use miden_crypto::hash::rpo::RpoDigest;
use miden_crypto::Felt;
use miden_objects::account::StorageMap;
use crate::field::all_felts;

verus! {

#[verifier::external_type_specification]
#[verifier::external_body]
pub struct ExStorageMap(StorageMap);

/// The entries of a storage map: each key (a digest, as its four canonical values) with
/// the word stored under it. Keys that were never set, or were set to the empty word, are
/// not entries.
pub uninterp spec fn storage_map_entries(map: StorageMap) -> Map<Seq<u64>, Seq<u64>>;

/// The empty word, which a sparse Merkle tree holds under every key that has no entry.
pub open spec fn empty_word() -> Seq<u64> {
    seq![0u64, 0u64, 0u64, 0u64]
}

/// The word stored under an authorized key.
pub open spec fn authorized_word() -> Seq<u64> {
    seq![1u64, 1u64, 1u64, 1u64]
}

/// The entries of an empty map.
pub open spec fn no_entries() -> Map<Seq<u64>, Seq<u64>> {
    Map::empty()
}

/// Calls `StorageMap::new` of `miden-objects`. Trusted: the new map has no entries (its
/// documentation: all leaves are set to the empty value).
#[verifier::external_body]
fn storage_map_new() -> (map: StorageMap)
    ensures
        storage_map_entries(map) == no_entries(),
{
    StorageMap::new()
}

/// Calls `StorageMap::insert` of `miden-objects`, which delegates to `Smt::insert` of
/// `miden-crypto`. Trusted: inserting the empty word removes the key's entry, any other
/// word becomes the key's entry, and the word that was stored under the key before (the
/// empty word if none) is returned.
#[verifier::external_body]
fn storage_map_insert(map: &mut StorageMap, key: [u64; 4], value: [u64; 4]) -> (previous: [u64; 4])
    requires
        all_felts(key@),
        all_felts(value@),
    ensures
        storage_map_entries(*final(map)) == (if value@ == empty_word() {
            storage_map_entries(*old(map)).remove(key@)
        } else {
            storage_map_entries(*old(map)).insert(key@, value@)
        }),
        previous@ == (if storage_map_entries(*old(map)).dom().contains(key@) {
            storage_map_entries(*old(map))[key@]
        } else {
            empty_word()
        }),
{
    let k = RpoDigest::new([Felt::new(key[0]), Felt::new(key[1]), Felt::new(key[2]), Felt::new(key[3])]);
    let v = [Felt::new(value[0]), Felt::new(value[1]), Felt::new(value[2]), Felt::new(value[3])];
    let previous = map.insert(k, v);
    [previous[0].as_int(), previous[1].as_int(), previous[2].as_int(), previous[3].as_int()]
}

/// `key` is one of the keys in `keys`.
pub open spec fn is_listed(keys: Seq<[u64; 4]>, key: Seq<u64>) -> bool {
    exists|i: int| 0 <= i < keys.len() && (#[trigger] keys[i])@ == key
}

/// The map from each of `keys` to the authorized word.
pub open spec fn authorized_entries(keys: Seq<[u64; 4]>) -> Map<Seq<u64>, Seq<u64>> {
    Map::new(|key: Seq<u64>| is_listed(keys, key), |key: Seq<u64>| authorized_word())
}

/// Builds the storage map that authorizes `keys`: each key maps to `[1, 1, 1, 1]`, and
/// nothing else is in the map.
pub fn authorized_keys_storage_map(keys: &Vec<[u64; 4]>) -> (map: StorageMap)
    requires
        forall|i: int| 0 <= i < keys.len() ==> all_felts((#[trigger] keys[i])@),
    ensures
        storage_map_entries(map) == authorized_entries(keys@),
        forall|i: int| 0 <= i < keys.len() ==> #[trigger] storage_map_entries(map).dom().contains(keys[i]@)
            && storage_map_entries(map)[keys[i]@] == seq![1u64, 1u64, 1u64, 1u64],
        forall|key: Seq<u64>| #[trigger] storage_map_entries(map).dom().contains(key)
            ==> exists|i: int| 0 <= i < keys.len() && keys[i]@ == key,
{
    let mut map = storage_map_new();
    let true_value: [u64; 4] = [1, 1, 1, 1];
    assert(true_value@ =~= authorized_word());
    assert(authorized_entries(keys@.take(0)) =~= no_entries());
    let mut i: usize = 0;
    while i < keys.len()
        invariant
            i <= keys.len(),
            true_value@ == authorized_word(),
            forall|j: int| 0 <= j < keys.len() ==> all_felts((#[trigger] keys[j])@),
            storage_map_entries(map) == authorized_entries(keys@.take(i as int)),
        decreases keys.len() - i,
    {
        let key = keys[i];
        assert(all_felts(true_value@)) by {
            assert forall|m: int| 0 <= m < 4 implies crate::field::is_felt(#[trigger] true_value@[m]) by {}
        }
        assert(true_value@ != empty_word()) by {
            assert(true_value@[0] != empty_word()[0]);
        }
        storage_map_insert(&mut map, key, true_value);
        proof {
            let before = keys@.take(i as int);
            let after = keys@.take(i + 1);
            assert forall|k: Seq<u64>| is_listed(after, k) == (is_listed(before, k) || k == key@) by {
                if is_listed(after, k) {
                    let j = choose|j: int| 0 <= j < after.len() && (#[trigger] after[j])@ == k;
                    if j < i {
                        assert(before[j] == after[j]);
                    }
                }
                if is_listed(before, k) {
                    let j = choose|j: int| 0 <= j < before.len() && (#[trigger] before[j])@ == k;
                    assert(after[j] == before[j]);
                }
                if k == key@ {
                    assert(after[i as int] == key);
                }
            }
            assert(storage_map_entries(map) =~= authorized_entries(after));
        }
        i = i + 1;
    }
    assert(keys@.take(keys.len() as int) =~= keys@);
    proof {
        lemma_authorized_entries(keys@);
    }
    map
}

/// The authorized entries hold exactly the listed keys, each mapped to `[1, 1, 1, 1]`.
pub proof fn lemma_authorized_entries(keys: Seq<[u64; 4]>)
    ensures
        forall|i: int| 0 <= i < keys.len() ==> #[trigger] authorized_entries(keys).dom().contains(keys[i]@)
            && authorized_entries(keys)[keys[i]@] == seq![1u64, 1u64, 1u64, 1u64],
        forall|key: Seq<u64>| #[trigger] authorized_entries(keys).dom().contains(key)
            ==> exists|i: int| 0 <= i < keys.len() && keys[i]@ == key,
{
    assert forall|i: int| 0 <= i < keys.len() implies #[trigger] authorized_entries(keys).dom().contains(keys[i]@)
        && authorized_entries(keys)[keys[i]@] == seq![1u64, 1u64, 1u64, 1u64] by {
        assert(is_listed(keys, keys[i]@));
    }
}

} // verus!
