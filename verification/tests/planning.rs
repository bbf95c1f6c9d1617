use miden_clob::polling::{consumable_notes_step, note_search_step, PollStep};
use miden_clob::setup::{plan_mints, MintOrder};

#[test]
fn mint_plan_skips_zero_balances_in_account_order() {
    let balances = vec![vec![0, 5, 9], vec![7, 0, 0], vec![1, 2, 3]];
    let plan = plan_mints(&balances, 2, 2);
    assert_eq!(
        plan,
        vec![
            MintOrder { account_index: 0, faucet_index: 1, amount: 5 },
            MintOrder { account_index: 1, faucet_index: 0, amount: 7 },
        ]
    );
    let all = plan_mints(&balances, 3, 3);
    assert_eq!(all.len(), 6);
    assert_eq!(all[0], MintOrder { account_index: 0, faucet_index: 1, amount: 5 });
    assert_eq!(all[5], MintOrder { account_index: 2, faucet_index: 2, amount: 3 });
}

#[test]
fn mint_plan_of_nothing_is_empty() {
    let balances: Vec<Vec<u64>> = vec![];
    assert!(plan_mints(&balances, 0, 4).is_empty());
    let zeros = vec![vec![0, 0], vec![0, 0]];
    assert!(plan_mints(&zeros, 2, 2).is_empty());
}

#[test]
fn waiting_for_notes_stops_at_the_expected_count() {
    assert_eq!(consumable_notes_step(0, 1), PollStep::Wait);
    assert_eq!(consumable_notes_step(1, 1), PollStep::Done);
    assert_eq!(consumable_notes_step(3, 1), PollStep::Done);
    assert_eq!(consumable_notes_step(0, 0), PollStep::Done);
}

#[test]
fn searching_for_a_note_finds_its_id() {
    let ids = vec![[1, 2, 3, 4], [5, 6, 7, 8]];
    assert_eq!(note_search_step(&ids, &[5, 6, 7, 8]), PollStep::Done);
    assert_eq!(note_search_step(&ids, &[5, 6, 7, 9]), PollStep::Wait);
    assert_eq!(note_search_step(&vec![], &[1, 2, 3, 4]), PollStep::Wait);
}
