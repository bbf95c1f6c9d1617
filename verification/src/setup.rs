//! Planning the minting that funds freshly created accounts from freshly created faucets.
use vstd::prelude::*;

verus! {

/// One mint: `amount` tokens from faucet `faucet_index` to account `account_index`.
#[derive(Clone, Copy, Debug, PartialEq, Eq, Structural)]
pub struct MintOrder {
    pub account_index: usize,
    pub faucet_index: usize,
    pub amount: u64,
}

/// The mints for account `account` from the first `num_faucets` faucets, in faucet order,
/// skipping the zero balances.
pub open spec fn row_orders(row: Seq<u64>, account: usize, num_faucets: nat) -> Seq<MintOrder>
    decreases num_faucets,
{
    if num_faucets == 0 {
        seq![]
    } else {
        let f = (num_faucets - 1) as nat;
        row_orders(row, account, f) + if row[f as int] != 0 {
            seq![MintOrder { account_index: account, faucet_index: f as usize, amount: row[f as int] }]
        } else {
            seq![]
        }
    }
}

/// The mints for the first `num_accounts` accounts, account by account and within an
/// account faucet by faucet, where `balances[a][f]` is what faucet `f` mints for account
/// `a`; zero balances are skipped.
pub open spec fn mint_plan(balances: Seq<Seq<u64>>, num_accounts: nat, num_faucets: nat) -> Seq<MintOrder>
    decreases num_accounts,
{
    if num_accounts == 0 {
        seq![]
    } else {
        let a = (num_accounts - 1) as nat;
        mint_plan(balances, a, num_faucets) + row_orders(balances[a as int], a as usize, num_faucets)
    }
}

/// `x` comes before `y` in account-then-faucet order.
pub open spec fn comes_before(x: MintOrder, y: MintOrder) -> bool {
    x.account_index < y.account_index || (x.account_index == y.account_index && x.faucet_index
        < y.faucet_index)
}

/// The orders of `plan` mint exactly the nonzero balances of the first `num_accounts`
/// accounts and `num_faucets` faucets: each order mints a nonzero balance, with the amount
/// that `balances` gives it; every nonzero balance has an order; and the orders come in
/// strict account-then-faucet order, so no balance is minted twice.
pub open spec fn mints_each_nonzero_balance_once(
    plan: Seq<MintOrder>,
    balances: Seq<Seq<u64>>,
    num_accounts: nat,
    num_faucets: nat,
) -> bool {
    &&& forall|i: int|
        0 <= i < plan.len() ==> {
            let o = #[trigger] plan[i];
            &&& o.account_index < num_accounts
            &&& o.faucet_index < num_faucets
            &&& o.amount != 0
            &&& o.amount == balances[o.account_index as int][o.faucet_index as int]
        }
    &&& forall|a: int, f: int|
        0 <= a < num_accounts && 0 <= f < num_faucets && #[trigger] balances[a][f] != 0 ==> exists|
            i: int,
        |
            0 <= i < plan.len() && (#[trigger] plan[i]).account_index == a && plan[i].faucet_index
                == f
    &&& forall|i: int, j: int| 0 <= i < j < plan.len() ==> comes_before(#[trigger] plan[i], #[trigger] plan[j])
}

proof fn lemma_row_orders(row: Seq<u64>, account: usize, num_faucets: nat)
    requires
        row.len() >= num_faucets,
        num_faucets <= usize::MAX,
    ensures
        forall|i: int|
            0 <= i < row_orders(row, account, num_faucets).len() ==> {
                let o = #[trigger] row_orders(row, account, num_faucets)[i];
                &&& o.account_index == account
                &&& o.faucet_index < num_faucets
                &&& o.amount != 0
                &&& o.amount == row[o.faucet_index as int]
            },
        forall|f: int|
            0 <= f < num_faucets && #[trigger] row[f] != 0 ==> exists|i: int|
                0 <= i < row_orders(row, account, num_faucets).len() && (#[trigger] row_orders(
                    row,
                    account,
                    num_faucets,
                )[i]).faucet_index == f,
        forall|i: int, j: int|
            0 <= i < j < row_orders(row, account, num_faucets).len() ==> (#[trigger] row_orders(
                row,
                account,
                num_faucets,
            )[i]).faucet_index < (#[trigger] row_orders(row, account, num_faucets)[j]).faucet_index,
    decreases num_faucets,
{
    if num_faucets > 0 {
        let f = (num_faucets - 1) as nat;
        lemma_row_orders(row, account, f);
        let prev = row_orders(row, account, f);
        let cur = row_orders(row, account, num_faucets);
        assert forall|g: int| 0 <= g < num_faucets && #[trigger] row[g] != 0 implies exists|i: int|
            0 <= i < cur.len() && (#[trigger] cur[i]).faucet_index == g by {
            if g < f {
                let i = choose|i: int| 0 <= i < prev.len() && (#[trigger] prev[i]).faucet_index == g;
                assert(cur[i] == prev[i]);
            } else {
                assert(cur == prev + seq![MintOrder { account_index: account, faucet_index: f as usize, amount: row[f as int] }]);
                assert(cur[prev.len() as int].faucet_index == g);
            }
        }
        assert forall|i: int, j: int| 0 <= i < j < cur.len() implies (#[trigger] cur[i]).faucet_index
            < (#[trigger] cur[j]).faucet_index by {
            if j < prev.len() {
                assert(cur[i] == prev[i] && cur[j] == prev[j]);
            } else {
                assert(cur[i] == prev[i]);
            }
        }
        assert forall|i: int| 0 <= i < cur.len() implies {
            let o = #[trigger] cur[i];
            &&& o.account_index == account
            &&& o.faucet_index < num_faucets
            &&& o.amount != 0
            &&& o.amount == row[o.faucet_index as int]
        } by {
            if i < prev.len() {
                assert(cur[i] == prev[i]);
            }
        }
    }
}

/// A mint plan mints every nonzero balance exactly once, with its amount, and nothing else.
pub proof fn lemma_mint_plan_mints_each_nonzero_balance_once(
    balances: Seq<Seq<u64>>,
    num_accounts: nat,
    num_faucets: nat,
)
    requires
        num_accounts <= usize::MAX,
        num_faucets <= usize::MAX,
        balances.len() >= num_accounts,
        forall|a: int| 0 <= a < num_accounts ==> #[trigger] balances[a].len() >= num_faucets,
    ensures
        mints_each_nonzero_balance_once(
            mint_plan(balances, num_accounts, num_faucets),
            balances,
            num_accounts,
            num_faucets,
        ),
    decreases num_accounts,
{
    if num_accounts > 0 {
        let a = (num_accounts - 1) as nat;
        lemma_mint_plan_mints_each_nonzero_balance_once(balances, a, num_faucets);
        lemma_row_orders(balances[a as int], a as usize, num_faucets);
        let prev = mint_plan(balances, a, num_faucets);
        let row = row_orders(balances[a as int], a as usize, num_faucets);
        let cur = mint_plan(balances, num_accounts, num_faucets);
        assert(cur == prev + row);
        assert forall|i: int| 0 <= i < cur.len() implies {
            let o = #[trigger] cur[i];
            &&& o.account_index < num_accounts
            &&& o.faucet_index < num_faucets
            &&& o.amount != 0
            &&& o.amount == balances[o.account_index as int][o.faucet_index as int]
        } by {
            if i < prev.len() {
                assert(cur[i] == prev[i]);
            } else {
                assert(cur[i] == row[i - prev.len()]);
            }
        }
        assert forall|x: int, f: int|
            0 <= x < num_accounts && 0 <= f < num_faucets && #[trigger] balances[x][f] != 0 implies exists|
            i: int,
        | 0 <= i < cur.len() && (#[trigger] cur[i]).account_index == x && cur[i].faucet_index == f by {
            if x < a {
                let i = choose|i: int|
                    0 <= i < prev.len() && (#[trigger] prev[i]).account_index == x
                        && prev[i].faucet_index == f;
                assert(cur[i] == prev[i]);
            } else {
                let k = choose|k: int| 0 <= k < row.len() && (#[trigger] row[k]).faucet_index == f;
                assert(cur[prev.len() + k] == row[k]);
            }
        }
        assert forall|i: int, j: int| 0 <= i < j < cur.len() implies comes_before(
            #[trigger] cur[i],
            #[trigger] cur[j],
        ) by {
            if j < prev.len() {
                assert(cur[i] == prev[i] && cur[j] == prev[j]);
            } else if i < prev.len() {
                assert(cur[i] == prev[i]);
                assert(cur[j] == row[j - prev.len()]);
            } else {
                assert(cur[i] == row[i - prev.len()]);
                assert(cur[j] == row[j - prev.len()]);
            }
        }
    }
}

/// The balances as a sequence of rows.
pub open spec fn balance_rows(balances: Seq<Vec<u64>>) -> Seq<Seq<u64>> {
    balances.map_values(|row: Vec<u64>| row@)
}

/// Lists the mints that fund `num_accounts` accounts from `num_faucets` faucets:
/// `balances[a][f]` tokens from faucet `f` to account `a`, account by account, skipping
/// zero balances.
pub fn plan_mints(balances: &Vec<Vec<u64>>, num_accounts: usize, num_faucets: usize) -> (plan: Vec<MintOrder>)
    requires
        balances.len() >= num_accounts,
        forall|a: int| 0 <= a < num_accounts ==> #[trigger] balances[a].len() >= num_faucets,
    ensures
        plan@ == mint_plan(balance_rows(balances@), num_accounts as nat, num_faucets as nat),
{
    let mut plan: Vec<MintOrder> = Vec::new();
    let mut a: usize = 0;
    while a < num_accounts
        invariant
            a <= num_accounts,
            balances.len() >= num_accounts,
            forall|x: int| 0 <= x < num_accounts ==> #[trigger] balances[x].len() >= num_faucets,
            plan@ == mint_plan(balance_rows(balances@), a as nat, num_faucets as nat),
        decreases num_accounts - a,
    {
        let row = &balances[a];
        let ghost before = plan@;
        let mut f: usize = 0;
        while f < num_faucets
            invariant
                a < num_accounts,
                f <= num_faucets,
                row.len() >= num_faucets,
                row@ == balance_rows(balances@)[a as int],
                plan@ == before + row_orders(row@, a, f as nat),
            decreases num_faucets - f,
        {
            let amount = row[f];
            if amount != 0 {
                plan.push(MintOrder { account_index: a, faucet_index: f, amount });
            }
            f = f + 1;
        }
        a = a + 1;
    }
    plan
}

} // verus!
