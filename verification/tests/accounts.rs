use miden_clob::accounts::{
    build_basic_account, build_basic_faucet, build_signature_check_account, signature_check_component,
};
use miden_crypto::hash::rpo::RpoDigest;
use miden_crypto::Felt;
use miden_objects::account::{AccountIdAnchor, AccountStorageMode, AccountType, StorageSlot};
use miden_objects::asset::TokenSymbol;

const CHECK_CODE: &str = "
export.check_signature
    push.1
    drop
end
";

const KEY: [u64; 4] = [11, 22, 33, 44];

fn word(values: [u64; 4]) -> [Felt; 4] {
    values.map(Felt::new)
}

#[test]
fn a_basic_account_is_a_public_wallet_with_the_key() {
    let (account, _seed) = build_basic_account([7; 32], AccountIdAnchor::PRE_GENESIS, KEY).unwrap();
    assert_eq!(account.id().account_type(), AccountType::RegularAccountUpdatableCode);
    assert_eq!(account.id().storage_mode(), AccountStorageMode::Public);
    assert_eq!(account.storage().slots().len(), 1);
    assert_eq!(account.storage().slots()[0].value(), word(KEY));
    // Authentication procedure, then the wallet's three procedures.
    assert_eq!(account.code().procedures().len(), 4);
}

#[test]
fn a_basic_faucet_holds_the_order_book_token() {
    let (account, _seed) = build_basic_faucet([9; 32], AccountIdAnchor::PRE_GENESIS, KEY).ok().unwrap();
    assert_eq!(account.id().account_type(), AccountType::FungibleFaucet);
    assert_eq!(account.id().storage_mode(), AccountStorageMode::Public);
    let symbol: Felt = TokenSymbol::new("MID").unwrap().into();
    assert_eq!(symbol.as_int(), 8323);
    let slots = account.storage().slots();
    assert_eq!(slots.len(), 3);
    assert_eq!(slots[0].value(), word([0, 0, 0, 0]));
    assert_eq!(slots[1].value(), word(KEY));
    assert_eq!(slots[2].value(), word([1_000_000, 8, 8323, 0]));
}

#[test]
fn the_signature_check_component_holds_the_keys() {
    let keys = vec![[1, 2, 3, 4], [5, 6, 7, 8]];
    let component = signature_check_component(CHECK_CODE, &keys).unwrap();
    let slots = component.storage_slots();
    assert_eq!(slots.len(), 2);
    assert_eq!(slots[0].value(), word([0, 0, 0, 0]));
    match &slots[1] {
        StorageSlot::Map(map) => {
            assert_eq!(map.get_value(&RpoDigest::new(word([1, 2, 3, 4]))), word([1, 1, 1, 1]));
            assert_eq!(map.get_value(&RpoDigest::new(word([5, 6, 7, 8]))), word([1, 1, 1, 1]));
            assert_eq!(map.get_value(&RpoDigest::new(word([9, 9, 9, 9]))), word([0, 0, 0, 0]));
        },
        StorageSlot::Value(_) => panic!("slot 1 holds the keys' map"),
    }
    assert!(component.supports_type(AccountType::RegularAccountUpdatableCode));
    assert!(component.supports_type(AccountType::FungibleFaucet));
}

#[test]
fn signature_check_code_that_does_not_assemble_is_refused() {
    assert!(signature_check_component("export.broken push.1", &vec![KEY]).is_err());
    assert!(build_signature_check_account([3; 32], AccountIdAnchor::PRE_GENESIS, "export.broken push.1", &vec![KEY]).is_err());
}

#[test]
fn a_signature_check_account_answers_for_its_keys() {
    let keys = vec![[1, 2, 3, 4], [5, 6, 7, 8]];
    let (account, _seed) =
        build_signature_check_account([5; 32], AccountIdAnchor::PRE_GENESIS, CHECK_CODE, &keys).unwrap();
    assert_eq!(account.id().account_type(), AccountType::RegularAccountUpdatableCode);
    assert_eq!(account.id().storage_mode(), AccountStorageMode::Public);
    assert_eq!(account.storage().slots().len(), 2);
    assert_eq!(account.storage().slots()[0].value(), word([0, 0, 0, 0]));
    assert_eq!(account.storage().get_map_item(1, word([5, 6, 7, 8])).unwrap(), word([1, 1, 1, 1]));
    assert_eq!(account.storage().get_map_item(1, word([7, 7, 7, 7])).unwrap(), word([0, 0, 0, 0]));
    // The wallet's three procedures and the check.
    assert_eq!(account.code().procedures().len(), 4);
}
