use miden_clob::notes::{
    account_tag, build_swap_tag, option_contract_draft, create_p2id_note,
    create_partial_swap_note, create_partial_swap_note_cancellable,
    create_partial_swap_private_note, get_p2id_serial_num, AccountIdParts, ExecutionHint, NoteKind,
};
use miden_crypto::hash::rpo::{Rpo256, RpoDigest};
use miden_crypto::Felt;
use miden_lib::note::utils;
use miden_objects::account::{AccountId, AccountStorageMode, AccountType};
use miden_objects::asset::{Asset, FungibleAsset};
use miden_objects::note::{NoteExecutionHint, NoteExecutionMode, NoteTag, NoteType};

/// An account id laid out as miden-objects' own test ids are.
fn account_id(account_type: AccountType, storage_mode: AccountStorageMode, random: u32) -> AccountId {
    let mut prefix: u64 = 0;
    prefix |= (account_type as u64) << 4;
    prefix |= (storage_mode as u64) << 6;
    prefix |= ((random & 0xff00_0000) as u64) << 32;
    prefix |= ((random & 0x00ff_0000) as u64) >> 8;
    let mut id = (prefix as u128) << 64;
    id |= ((random & 0x0000_ff00) as u128) << 32;
    id |= ((random & 0x0000_00ff) as u128) << 8;
    AccountId::try_from(id).unwrap()
}

fn parts(id: AccountId) -> AccountIdParts {
    AccountIdParts { prefix: id.prefix().as_felt().as_int(), suffix: id.suffix().as_int() }
}

fn word(asset: Asset) -> [u64; 4] {
    let w: [Felt; 4] = asset.into();
    [w[0].as_int(), w[1].as_int(), w[2].as_int(), w[3].as_int()]
}

fn faucet(random: u32) -> AccountId {
    account_id(AccountType::FungibleFaucet, AccountStorageMode::Public, random)
}

fn alice() -> AccountId {
    account_id(AccountType::RegularAccountUpdatableCode, AccountStorageMode::Public, 0xaabb_ccdd)
}

fn bob() -> AccountId {
    account_id(AccountType::RegularAccountImmutableCode, AccountStorageMode::Private, 0xfabb_ccde)
}

fn assets() -> (Asset, Asset) {
    let a = Asset::Fungible(FungibleAsset::new(faucet(0xaabc_bcde), 50).unwrap());
    let b = Asset::Fungible(FungibleAsset::new(faucet(0xbaca_ddef), 25).unwrap());
    (a, b)
}

#[test]
fn swap_tags_agree_with_miden_lib() {
    let (a, b) = assets();
    for (kind, note_type) in [(NoteKind::Public, NoteType::Public), (NoteKind::Private, NoteType::Private)] {
        let expected = utils::build_swap_tag(note_type, &a, &b).unwrap().inner();
        assert_eq!(build_swap_tag(kind, &word(a), &word(b)), expected);
        let reversed = utils::build_swap_tag(note_type, &b, &a).unwrap().inner();
        assert_eq!(build_swap_tag(kind, &word(b), &word(a)), reversed);
    }
    assert_eq!(build_swap_tag(NoteKind::Public, &word(a), &word(b)), 0x8000_aaba);
    assert_eq!(build_swap_tag(NoteKind::Private, &word(a), &word(b)), 0xc000_aaba);
}

#[test]
fn account_tags_agree_with_miden_objects() {
    for id in [alice(), bob(), faucet(0x1234_5678)] {
        let expected = NoteTag::from_account_id(id, NoteExecutionMode::Local).unwrap().inner();
        assert_eq!(account_tag(parts(id)), expected);
    }
}

#[test]
fn partial_swap_note_inputs() {
    let (a, b) = assets();
    let creator = parts(alice());
    let consumer = parts(bob());
    let serial = [11, 12, 13, 14];
    let draft = create_partial_swap_note(creator, consumer, word(a), word(b), serial, 3);
    let b_word = word(b);
    let swapp_tag = utils::build_swap_tag(NoteType::Public, &a, &b).unwrap().inner() as u64;
    let p2id_tag = NoteTag::from_account_id(alice(), NoteExecutionMode::Local).unwrap().inner() as u64;
    assert_eq!(
        draft.inputs,
        vec![
            b_word[0], b_word[1], b_word[2], b_word[3], swapp_tag, p2id_tag, 0, 0, 3, 0, 0, 0,
            creator.prefix, creator.suffix,
        ]
    );
    assert_eq!(draft.sender, consumer);
    assert_eq!(draft.note_type, NoteKind::Public);
    assert_eq!(draft.tag as u64, swapp_tag);
    assert_eq!(draft.aux, 0);
    assert_eq!(draft.execution_hint, ExecutionHint::Always);
    assert_eq!(draft.assets, vec![word(a)]);
    assert_eq!(draft.serial_num, serial);
}

#[test]
fn private_and_cancellable_swap_notes() {
    let (a, b) = assets();
    let creator = parts(alice());
    let consumer = parts(bob());
    let private = create_partial_swap_private_note(creator, consumer, word(a), word(b), [1, 2, 3, 4], 0);
    assert_eq!(private.note_type, NoteKind::Private);
    assert_eq!(private.tag, utils::build_swap_tag(NoteType::Private, &a, &b).unwrap().inner());
    assert_eq!(private.inputs[4], private.tag as u64);

    let public = create_partial_swap_note(creator, consumer, word(a), word(b), [1, 2, 3, 4], 0);
    let cancellable = create_partial_swap_note_cancellable(
        creator, consumer, word(a), word(b), [21, 22, 23, 24], [1, 2, 3, 4], 0,
    );
    assert_eq!(cancellable.inputs.len(), 20);
    assert_eq!(&cancellable.inputs[..14], &public.inputs[..]);
    assert_eq!(&cancellable.inputs[14..], &[0, 0, 21, 22, 23, 24]);
}

#[test]
fn swap_count_is_reduced_into_the_field() {
    let (a, b) = assets();
    let draft = create_partial_swap_note(parts(alice()), parts(bob()), word(a), word(b), [0; 4], u64::MAX);
    assert_eq!(draft.inputs[8], Felt::new(u64::MAX).as_int());
    assert_eq!(draft.inputs[8], u64::MAX - miden_clob::field::FIELD_MODULUS);
}

#[test]
fn p2id_note_targets_its_account() {
    let (a, _) = assets();
    let target = parts(bob());
    let draft = create_p2id_note(parts(alice()), target, vec![word(a)], NoteKind::Public, 7, [5, 6, 7, 8]);
    assert_eq!(draft.inputs, vec![target.suffix, target.prefix]);
    assert_eq!(draft.tag, NoteTag::from_account_id(bob(), NoteExecutionMode::Local).unwrap().inner());
    assert_eq!(draft.aux, 7);
    assert_eq!(draft.note_type, NoteKind::Public);
    assert_eq!(draft.assets, vec![word(a)]);
}

#[test]
fn option_contract_note_inputs() {
    let (a, b) = assets();
    let underwriter = parts(alice());
    let buyer = parts(bob());
    let draft = option_contract_draft(
        underwriter, buyer, word(a), word(b), 1_700_000_000, true, 0, [31, 32, 33, 34], [41, 42, 43, 44],
    );
    let b_word = word(b);
    let payback_tag = NoteTag::from_account_id(alice(), NoteExecutionMode::Local).unwrap().inner() as u64;
    let always: Felt = NoteExecutionHint::always().into();
    assert_eq!(
        draft.inputs,
        vec![
            31, 32, 33, 34, b_word[0], b_word[1], b_word[2], b_word[3], payback_tag, always.as_int(),
            underwriter.prefix, underwriter.suffix, buyer.prefix, buyer.suffix, 1_700_000_000, 1,
        ]
    );
    assert_eq!(draft.tag, utils::build_swap_tag(NoteType::Public, &a, &b).unwrap().inner());
    assert_eq!(draft.sender, underwriter);
    assert_eq!(draft.serial_num, [41, 42, 43, 44]);
    let american = option_contract_draft(
        underwriter, buyer, word(a), word(b), 5, false, 0, [0; 4], [0; 4],
    );
    assert_eq!(american.inputs[15], 0);
}

#[test]
fn p2id_serial_num_is_the_rpo_merge() {
    let serial = [1, 2, 3, 4];
    let felts = |w: [u64; 4]| RpoDigest::new([Felt::new(w[0]), Felt::new(w[1]), Felt::new(w[2]), Felt::new(w[3])]);
    let expected: [u64; 4] = Rpo256::merge(&[felts(serial), felts([9, 0, 0, 0])]).into();
    assert_eq!(get_p2id_serial_num(serial, 9), expected);
    assert_ne!(get_p2id_serial_num(serial, 9), serial);
    assert_ne!(get_p2id_serial_num(serial, 9), get_p2id_serial_num(serial, 10));
}
