use miden_clob::note_build::{build_note, NoteBuildError};
use miden_clob::notes::{
    create_p2id_note, create_partial_swap_note, AccountIdParts, ExecutionHint, NoteDraft, NoteKind,
};
use miden_crypto::Felt;
use miden_objects::account::{AccountId, AccountStorageMode, AccountType};
use miden_objects::asset::{Asset, FungibleAsset};
use miden_objects::note::{NoteExecutionHint, NoteType};

const SCRIPT: &str = "begin push.1 drop end";

fn account_id(account_type: AccountType, storage_mode: AccountStorageMode, random: u32) -> AccountId {
    let mut prefix: u64 = 0;
    prefix |= (account_type as u64) << 4;
    prefix |= (storage_mode as u64) << 6;
    prefix |= ((random & 0xff00_0000) as u64) << 32;
    prefix |= ((random & 0x00ff_0000) as u64) >> 8;
    let mut id = (prefix as u128) << 64;
    id |= ((random & 0x0000_ff00) as u128) << 32;
    id |= ((random & 0x0000_00ff) as u128) << 8;
    AccountId::try_from(id).unwrap()
}

fn parts(id: AccountId) -> AccountIdParts {
    AccountIdParts { prefix: id.prefix().as_felt().as_int(), suffix: id.suffix().as_int() }
}

fn word(asset: Asset) -> [u64; 4] {
    let w: [Felt; 4] = asset.into();
    [w[0].as_int(), w[1].as_int(), w[2].as_int(), w[3].as_int()]
}

fn setup() -> (AccountIdParts, AccountIdParts, [u64; 4], [u64; 4]) {
    let alice = account_id(AccountType::RegularAccountUpdatableCode, AccountStorageMode::Public, 0xaabb_ccdd);
    let bob = account_id(AccountType::RegularAccountImmutableCode, AccountStorageMode::Private, 0xfabb_ccde);
    let faucet_a = account_id(AccountType::FungibleFaucet, AccountStorageMode::Public, 0xaabc_bcde);
    let faucet_b = account_id(AccountType::FungibleFaucet, AccountStorageMode::Public, 0xbaca_ddef);
    let a = Asset::Fungible(FungibleAsset::new(faucet_a, 50).unwrap());
    let b = Asset::Fungible(FungibleAsset::new(faucet_b, 25).unwrap());
    (parts(alice), parts(bob), word(a), word(b))
}

#[test]
fn a_swap_note_draft_builds_into_the_note_it_describes() {
    let (alice, bob, a, b) = setup();
    let draft = create_partial_swap_note(alice, bob, a, b, [1, 2, 3, 4], 0);
    let note = build_note(draft.clone(), SCRIPT).ok().unwrap();
    let inputs: Vec<u64> = note.recipient().inputs().values().iter().map(|v| v.as_int()).collect();
    assert_eq!(inputs, draft.inputs);
    assert_eq!(note.metadata().tag().inner(), draft.tag);
    assert_eq!(note.metadata().note_type(), NoteType::Public);
    assert_eq!(note.metadata().sender().prefix().as_felt().as_int(), bob.prefix);
    assert_eq!(note.assets().num_assets(), 1);
    assert_eq!(note.metadata().execution_hint(), NoteExecutionHint::always());
    assert_eq!(note.metadata().aux().as_int(), 0);
    let asset_word: [Felt; 4] = (*note.assets().iter().next().unwrap()).into();
    assert_eq!(asset_word.map(|f| f.as_int()), a);
    let serial: Vec<u64> = note.recipient().serial_num().iter().map(|v| v.as_int()).collect();
    assert_eq!(serial, vec![1, 2, 3, 4]);
}

#[test]
fn an_invalid_sender_is_refused() {
    let (alice, _, a, b) = setup();
    let bad = AccountIdParts { prefix: alice.prefix, suffix: 1 };
    let draft = create_partial_swap_note(alice, bad, a, b, [1, 2, 3, 4], 0);
    assert!(matches!(build_note(draft, SCRIPT), Err(NoteBuildError::Sender(_))));
}

#[test]
fn an_invalid_asset_is_refused() {
    let (alice, bob, a, _) = setup();
    let draft = create_p2id_note(alice, bob, vec![a, [1, 0, 0, 0]], NoteKind::Public, 0, [0; 4]);
    assert!(matches!(build_note(draft, SCRIPT), Err(NoteBuildError::Asset(_))));
}

#[test]
fn an_asset_word_without_a_faucet_prefix_is_refused() {
    // The last element has version bits 1: no account id prefix.
    let (alice, bob, a, _) = setup();
    let draft = create_p2id_note(alice, bob, vec![a, [1, 0, 0, 1]], NoteKind::Public, 0, [0; 4]);
    assert!(matches!(build_note(draft, SCRIPT), Err(NoteBuildError::AssetPrefix)));
}

#[test]
fn the_hint_is_carried_into_the_note() {
    let (alice, bob, a, b) = setup();
    let mut draft = create_partial_swap_note(alice, bob, a, b, [1, 2, 3, 4], 0);
    draft.execution_hint = ExecutionHint::OnBlockSlot(10, 2, 1);
    let note = build_note(draft, SCRIPT).ok().unwrap();
    assert_eq!(note.metadata().execution_hint(), NoteExecutionHint::on_block_slot(10, 2, 1));
    let mut draft = create_partial_swap_note(alice, bob, a, b, [1, 2, 3, 4], 0);
    draft.execution_hint = ExecutionHint::AfterBlock(u32::MAX);
    assert!(matches!(build_note(draft, SCRIPT), Err(NoteBuildError::Note(_))));
}

#[test]
fn too_many_inputs_or_a_refused_tag_fail() {
    let (alice, bob, a, b) = setup();
    let mut draft: NoteDraft = create_partial_swap_note(alice, bob, a, b, [1, 2, 3, 4], 0);
    draft.inputs = vec![0; 129];
    assert!(matches!(build_note(draft, SCRIPT), Err(NoteBuildError::Note(_))));

    // A private note cannot carry a public use-case tag.
    let mut draft = create_partial_swap_note(alice, bob, a, b, [1, 2, 3, 4], 0);
    draft.note_type = NoteKind::Private;
    assert!(matches!(build_note(draft, SCRIPT), Err(NoteBuildError::Note(_))));

    // Duplicate fungible assets from one faucet.
    let draft = create_p2id_note(alice, bob, vec![a, a], NoteKind::Public, 0, [0; 4]);
    assert!(matches!(build_note(draft, SCRIPT), Err(NoteBuildError::Note(_))));
}

#[test]
fn a_script_that_does_not_compile_is_refused() {
    let (alice, bob, a, b) = setup();
    let draft = create_partial_swap_note(alice, bob, a, b, [1, 2, 3, 4], 0);
    assert!(matches!(build_note(draft, "begin push.1"), Err(NoteBuildError::Script(_))));
}

#[test]
fn private_swap_notes_build_too() {
    let (alice, bob, a, b) = setup();
    let draft = miden_clob::notes::create_partial_swap_private_note(alice, bob, a, b, [1, 2, 3, 4], 0);
    let note = build_note(draft, SCRIPT).ok().unwrap();
    assert_eq!(note.metadata().note_type(), NoteType::Private);
}

#[test]
fn option_contract_carries_its_payback_note() {
    let (alice, bob, a, b) = setup();
    let (option, payback) = miden_clob::note_build::create_option_contract_note(
        alice, bob, a, b, 1_700_000_000, true, 0, [5, 6, 7, 8], [9, 10, 11, 12], SCRIPT, "begin push.2 drop end",
    )
    .ok()
    .unwrap();
    let payback_inputs: Vec<u64> = payback.recipient().inputs().values().iter().map(|v| v.as_int()).collect();
    assert_eq!(payback_inputs, vec![alice.suffix, alice.prefix]);
    assert_eq!(payback.metadata().sender().prefix().as_felt().as_int(), bob.prefix);
    let digest: [Felt; 4] = payback.recipient().digest().into();
    let option_inputs: Vec<u64> = option.recipient().inputs().values().iter().map(|v| v.as_int()).collect();
    assert_eq!(&option_inputs[0..4], &digest.map(|f| f.as_int())[..]);
    assert_eq!(option_inputs.len(), 16);
    assert_eq!(option_inputs[15], 1);
    assert_eq!(option.metadata().sender().prefix().as_felt().as_int(), alice.prefix);
    assert_ne!(option.recipient().script().root(), payback.recipient().script().root());
}

#[test]
fn a_p2id_note_with_assets_of_two_faucets_builds() {
    let (alice, bob, a, b) = setup();
    let draft = create_p2id_note(alice, bob, vec![a, b], NoteKind::Public, 0, [0; 4]);
    let note = build_note(draft, SCRIPT).ok().unwrap();
    assert_eq!(note.assets().num_assets(), 2);
}

#[test]
fn the_payback_note_is_the_p2id_note_from_buyer_to_underwriter() {
    let (alice, bob, a, b) = setup();
    let p2id_script = "begin push.2 drop end";
    let (_, payback) = miden_clob::note_build::create_option_contract_note(
        alice, bob, a, b, 1_700_000_000, false, 0, [5, 6, 7, 8], [9, 10, 11, 12], SCRIPT, p2id_script,
    )
    .ok()
    .unwrap();
    let direct = build_note(create_p2id_note(bob, alice, vec![b], NoteKind::Public, 0, [5, 6, 7, 8]), p2id_script)
        .ok()
        .unwrap();
    assert_eq!(payback.id(), direct.id());
}
