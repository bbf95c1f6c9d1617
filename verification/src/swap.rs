//! The arithmetic of a partially fillable swap note (SWAPP): how much of the offered
//! asset a fill of the requested asset buys, and what the note still holds afterwards.
use vstd::prelude::*;

verus! {

/// `a - b`, saturated at zero as `u64::saturating_sub` does.
pub open spec fn saturating_difference(a: int, b: int) -> int {
    if a >= b {
        a - b
    } else {
        0
    }
}

/// `x`, capped at `u64::MAX`.
pub open spec fn capped(x: int) -> int {
    if x > u64::MAX {
        u64::MAX as int
    } else {
        x
    }
}

/// The outcome of filling `filled` units of the requested asset on a note that offers
/// `offered` units for `requested` units:
/// `(amount_out, new_offered, new_requested)`, where
/// - `amount_out = offered * filled / requested`, computed exactly (it can only exceed
///   `u64::MAX` when more than the request is filled, and is then capped there),
/// - `new_offered = offered - amount_out` (saturating) is what the note still offers,
/// - `new_requested = requested - filled` (saturating) is what it still asks for.
pub open spec fn partial_swapp(offered: u64, requested: u64, filled: u64) -> (int, int, int) {
    let amount_out = capped((offered * filled) / (requested as int));
    (
        amount_out,
        saturating_difference(offered as int, amount_out),
        saturating_difference(requested as int, filled as int),
    )
}

/// Computes how many of the offered asset go out when `requested_asset_filled` units of
/// the requested asset are provided, and the amounts the note holds afterwards:
/// `(amount_out, new_offered_asset_amount, new_requested_asset_amount)`.
pub fn compute_partial_swapp(
    offered_swapp_asset_amount: u64,
    requested_swapp_asset_amount: u64,
    requested_asset_filled: u64,
) -> (result: (u64, u64, u64))
    requires
        requested_swapp_asset_amount > 0,
    ensures
        result.0 == partial_swapp(
            offered_swapp_asset_amount,
            requested_swapp_asset_amount,
            requested_asset_filled,
        ).0,
        result.1 == partial_swapp(
            offered_swapp_asset_amount,
            requested_swapp_asset_amount,
            requested_asset_filled,
        ).1,
        result.2 == partial_swapp(
            offered_swapp_asset_amount,
            requested_swapp_asset_amount,
            requested_asset_filled,
        ).2,
{
    let a = offered_swapp_asset_amount as u128;
    let b = requested_asset_filled as u128;
    assert(a * b <= u128::MAX) by (nonlinear_arith)
        requires
            a <= u64::MAX,
            b <= u64::MAX,
    ;
    let product: u128 = a * b;
    let quotient: u128 = product / (requested_swapp_asset_amount as u128);
    let amount_out_offered: u64 = if quotient > u64::MAX as u128 {
        u64::MAX
    } else {
        quotient as u64
    };
    let new_offered_asset_amount = offered_swapp_asset_amount.saturating_sub(amount_out_offered);
    let new_requested_asset_amount = requested_swapp_asset_amount.saturating_sub(
        requested_asset_filled,
    );
    (amount_out_offered, new_offered_asset_amount, new_requested_asset_amount)
}

/// A fill of at most what the note requests conserves both assets: the filler gets no
/// more than is offered, what goes out plus what stays equals the offer, and what is filled
/// plus what is still requested equals the request.
pub proof fn lemma_partial_fill_conserves_assets(offered: u64, requested: u64, filled: u64)
    requires
        requested > 0,
        filled <= requested,
    ensures
        partial_swapp(offered, requested, filled).0 == (offered * filled) / (requested as int),
        partial_swapp(offered, requested, filled).0 <= offered,
        partial_swapp(offered, requested, filled).0 + partial_swapp(offered, requested, filled).1
            == offered,
        filled + partial_swapp(offered, requested, filled).2 == requested,
{
    let o = offered as int;
    let r = requested as int;
    let f = filled as int;
    assert((o * f) / r <= o) by (nonlinear_arith)
        requires
            0 <= o,
            0 <= f <= r,
            0 < r,
    {
        assert(o * f <= o * r);
        assert((o * f) / r <= (o * r) / r);
    }
    assert(0 <= (o * f) / r) by (nonlinear_arith)
        requires
            0 <= o,
            0 <= f,
            0 < r,
    ;
}

/// Filling exactly what the note requests hands out the whole offer and leaves nothing
/// offered and nothing requested.
pub proof fn lemma_full_fill_takes_whole_offer(offered: u64, requested: u64)
    requires
        requested > 0,
    ensures
        partial_swapp(offered, requested, requested) == (offered as int, 0int, 0int),
{
    let o = offered as int;
    let r = requested as int;
    assert((o * r) / r == o) by (nonlinear_arith)
        requires
            0 < r,
    ;
}

/// Rounding never favours the filler: when the fill is within the request, the filler
/// gets at most the pro-rata share (`amount_out * requested <= offered * filled`), and the
/// note's remaining offer is at least pro rata to its remaining request
/// (`new_offered * requested >= offered * new_requested`).
pub proof fn lemma_rounding_favours_the_note(offered: u64, requested: u64, filled: u64)
    requires
        requested > 0,
        filled <= requested,
    ensures
        partial_swapp(offered, requested, filled).0 * requested <= offered * filled,
        partial_swapp(offered, requested, filled).1 * requested >= offered * partial_swapp(
            offered,
            requested,
            filled,
        ).2,
{
    lemma_partial_fill_conserves_assets(offered, requested, filled);
    let o = offered as int;
    let r = requested as int;
    let f = filled as int;
    let out = (o * f) / r;
    assert(out * r <= o * f) by (nonlinear_arith)
        requires
            0 < r,
            0 <= o * f,
            out == (o * f) / r,
    ;
    assert((o - out) * r >= o * (r - f)) by (nonlinear_arith)
        requires
            out * r <= o * f,
    ;
}

/// A note can be filled in two steps: after a first fill of `filled` (less than the
/// request), filling the rest of the request on the remaining note hands out the rest of
/// the offer. Together the two fills hand out exactly the original offer, and nothing is
/// left offered or requested.
pub proof fn lemma_two_fills_complete_the_note(offered: u64, requested: u64, filled: u64)
    requires
        requested > 0,
        filled < requested,
    ensures
        ({
            let first = partial_swapp(offered, requested, filled);
            let second = partial_swapp(first.1 as u64, first.2 as u64, first.2 as u64);
            &&& first.0 + second.0 == offered
            &&& second.1 == 0
            &&& second.2 == 0
        }),
{
    lemma_partial_fill_conserves_assets(offered, requested, filled);
    let first = partial_swapp(offered, requested, filled);
    lemma_full_fill_takes_whole_offer(first.1 as u64, first.2 as u64);
}

} // verus!
