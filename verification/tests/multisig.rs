use miden_clob::multisig::authorized_keys_storage_map;
use miden_crypto::hash::rpo::RpoDigest;
use miden_crypto::{Felt, EMPTY_WORD};

fn digest(w: [u64; 4]) -> RpoDigest {
    RpoDigest::new([Felt::new(w[0]), Felt::new(w[1]), Felt::new(w[2]), Felt::new(w[3])])
}

#[test]
fn every_authorized_key_maps_to_true() {
    let keys = vec![[1, 2, 3, 4], [5, 6, 7, 8], [1, 2, 3, 4]];
    let map = authorized_keys_storage_map(&keys);
    let one = [Felt::new(1); 4];
    assert_eq!(map.get_value(&digest([1, 2, 3, 4])), one);
    assert_eq!(map.get_value(&digest([5, 6, 7, 8])), one);
    assert_eq!(map.get_value(&digest([9, 9, 9, 9])), EMPTY_WORD);
    assert_eq!(map.entries().count(), 2);
}

#[test]
fn no_keys_gives_an_empty_map() {
    let map = authorized_keys_storage_map(&vec![]);
    assert_eq!(map.entries().count(), 0);
}
