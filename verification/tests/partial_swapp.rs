use miden_clob::swap::compute_partial_swapp;

#[test]
fn swap_note_test_test_compute_partial_swapp() {
    let amount_b_in = 25;
    let (amount_a_1, new_amount_a, new_amount_b) = compute_partial_swapp(
        100,         // originally offered A
        50,          // originally requested B
        amount_b_in, // Bob fills 25 B
    );

    println!("==== test_compute_partial_swapp ====");
    println!("amount_a_1 (A out):          {}", amount_a_1);
    println!("amount_b_1 (B in):           {}", amount_b_in);
    println!("new_amount_a (A leftover):   {}", new_amount_a);
    println!("new_amount_b (B leftover):   {}", new_amount_b);

    assert_eq!(amount_a_1, 50);
    assert_eq!(amount_b_in, 25);
    assert_eq!(new_amount_a, 50);
    assert_eq!(new_amount_b, 25);

    let amount_b_in = 2500;
    let (amount_a_1, new_amount_a, new_amount_b) = compute_partial_swapp(
        5000,        // originally offered A
        5000,        // originally requested B
        amount_b_in, // Bob fills 2500 B
    );

    // 1. For a 1:1 ratio: 2500 B in => 2500 A out => leftover 2500 A / 2500 B
    assert_eq!(amount_a_1, 2500);
    assert_eq!(amount_b_in, 2500);
    assert_eq!(new_amount_a, 2500);
    assert_eq!(new_amount_b, 2500);
}

#[test]
fn swapp_note_test_test_compute_partial_swapp() {
    let amount_b_in = 25;
    let (amount_a_1, new_amount_a, new_amount_b) = compute_partial_swapp(
        100,         // originally offered A
        50,          // originally requested B
        amount_b_in, // Bob fills 25 B
    );

    println!("==== test_compute_partial_swapp ====");
    println!("amount_a_1 (A out):          {}", amount_a_1);
    println!("amount_b_1 (B in):           {}", amount_b_in);
    println!("new_amount_a (A leftover):   {}", new_amount_a);
    println!("new_amount_b (B leftover):   {}", new_amount_b);

    assert_eq!(amount_a_1, 50);
    assert_eq!(amount_b_in, 25);
    assert_eq!(new_amount_a, 50);
    assert_eq!(new_amount_b, 25);

    let amount_b_in = 2500;
    let (amount_a_1, new_amount_a, new_amount_b) = compute_partial_swapp(
        5000,        // originally offered A
        5000,        // originally requested B
        amount_b_in, // Bob fills 2500 B
    );

    // 1. For a 1:1 ratio: 2500 B in => 2500 A out => leftover 2500 A / 2500 B
    assert_eq!(amount_a_1, 2500);
    assert_eq!(amount_b_in, 2500);
    assert_eq!(new_amount_a, 2500);
    assert_eq!(new_amount_b, 2500);
}

#[test]
fn partial_fill_rounds_down_for_the_filler() {
    // 10 A offered for 3 B; filling 1 B buys floor(10 / 3) = 3 A.
    assert_eq!(compute_partial_swapp(10, 3, 1), (3, 7, 2));
    // The note's remaining rate (7 A for 2 B) is no worse than the original (10 A for 3 B).
    assert!(7 * 3 >= 10 * 2);
}

#[test]
fn full_fill_takes_the_whole_offer() {
    assert_eq!(compute_partial_swapp(100, 50, 50), (100, 0, 0));
    assert_eq!(compute_partial_swapp(7, 13, 13), (7, 0, 0));
}

#[test]
fn two_fills_hand_out_exactly_the_offer() {
    // The chain of the ephemeral benchmark: 50 A for 50 B, Bob fills 25 B, Charlie fills 10 B.
    let (out_bob, left_a, left_b) = compute_partial_swapp(50, 50, 25);
    assert_eq!((out_bob, left_a, left_b), (25, 25, 25));
    let (out_charlie, left_a_2, left_b_2) = compute_partial_swapp(left_a, left_b, 10);
    assert_eq!((out_charlie, left_a_2, left_b_2), (10, 15, 15));
    // Completing the remainder hands out the rest of the offer.
    let (out_last, a, b) = compute_partial_swapp(left_a_2, left_b_2, left_b_2);
    assert_eq!(out_bob + out_charlie + out_last, 50);
    assert_eq!((a, b), (0, 0));
}

#[test]
fn large_amounts_are_computed_exactly() {
    // offered * filled exceeds u64::MAX, yet a full fill still hands out the whole offer.
    assert_eq!(compute_partial_swapp(u64::MAX, 2, 2), (u64::MAX, 0, 0));
    // Half of the request buys half of the offer (rounded down).
    assert_eq!(compute_partial_swapp(u64::MAX, 4, 2), (u64::MAX / 2, u64::MAX - u64::MAX / 2, 2));
}

#[test]
fn over_fill_is_capped() {
    // Filling more than requested: the request saturates at zero, and so does the offer.
    assert_eq!(compute_partial_swapp(100, 50, 60), (120, 0, 0));
    // An amount out beyond u64::MAX is capped there.
    assert_eq!(compute_partial_swapp(u64::MAX, 2, 3), (u64::MAX, 0, 0));
    // Nothing offered: nothing goes out.
    assert_eq!(compute_partial_swapp(0, 5, 3), (0, 0, 2));
}
