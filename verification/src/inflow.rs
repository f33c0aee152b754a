//! Inflow per wallet: how much each buyer put in, and how few buyers account
//! for a given share of it.

use vstd::prelude::*;
use crate::fixed::{MAX_FLOW, MAX_SOL_AMOUNT, lemma_max_flow};
use crate::sorting::amounts;
use crate::types::{TradeDirection, TradeEvent, TradeEventView, trade_views};
use crate::windows::{MAX_WINDOW_TRADES, amounts_within};

verus! {

/// What a trade puts in: its amount where it is a buy, nothing otherwise.
pub open spec fn inflow(t: TradeEventView) -> int {
    if t.direction == TradeDirection::Buy {
        t.sol_amount as int
    } else {
        0
    }
}

/// The wallets that put something in, in order of their first such trade.
pub open spec fn buyers(trades: Seq<TradeEventView>) -> Seq<Seq<char>>
    decreases trades.len(),
{
    if trades.len() == 0 {
        Seq::empty()
    } else {
        let earlier = buyers(trades.drop_last());
        let t = trades.last();
        if inflow(t) > 0 && !earlier.contains(t.user_account) {
            earlier.push(t.user_account)
        } else {
            earlier
        }
    }
}

/// What `wallet` put in over all of `trades`.
pub open spec fn inflow_of(trades: Seq<TradeEventView>, wallet: Seq<char>) -> int
    decreases trades.len(),
{
    if trades.len() == 0 {
        0
    } else {
        inflow_of(trades.drop_last(), wallet) + if trades.last().user_account == wallet {
            inflow(trades.last())
        } else {
            0
        }
    }
}

/// What all wallets put in over all of `trades`.
pub open spec fn total_inflow(trades: Seq<TradeEventView>) -> int
    decreases trades.len(),
{
    if trades.len() == 0 {
        0
    } else {
        total_inflow(trades.drop_last()) + inflow(trades.last())
    }
}

/// The inflow of each buyer, in the order of `buyers`.
pub open spec fn wallet_inflows(trades: Seq<TradeEventView>) -> Seq<int> {
    buyers(trades).map_values(|w: Seq<char>| inflow_of(trades, w))
}

/// Sum of the first `k` entries of `s`.
pub open spec fn prefix_sum(s: Seq<int>, k: int) -> int
    decreases k,
{
    if k <= 0 {
        0
    } else {
        prefix_sum(s, k - 1) + s[k - 1]
    }
}

/// Whether the first `k` entries of `s` make up at least seven tenths of
/// `total`.
pub open spec fn reaches_share(s: Seq<int>, total: int, k: int) -> bool {
    prefix_sum(s, k) * 10 >= total * 7
}

/// The smallest number of leading entries, above `k`, that make up seven
/// tenths of `total`; all entries where none does.
pub open spec fn wallets_needed_from(s: Seq<int>, total: int, k: int) -> int
    decreases s.len() - k,
{
    if k >= s.len() {
        s.len() as int
    } else if reaches_share(s, total, k + 1) {
        k + 1
    } else {
        wallets_needed_from(s, total, k + 1)
    }
}

/// The smallest number of leading entries of `s` that make up seven tenths
/// of `total`; all entries where none does.
pub open spec fn wallets_needed(s: Seq<int>, total: int) -> int {
    wallets_needed_from(s, total, 0)
}

/// The number of entries needed lies between `k` and the number of entries,
/// no smaller count above `k` reaches the share, and the number itself
/// reaches it unless it takes all entries.
pub proof fn lemma_wallets_needed_from_least(s: Seq<int>, total: int, k: int)
    requires
        0 <= k <= s.len(),
    ensures
        k <= wallets_needed_from(s, total, k) <= s.len(),
        forall|j: int| k < j < wallets_needed_from(s, total, k) ==> !reaches_share(s, total, j),
        wallets_needed_from(s, total, k) < s.len() ==> reaches_share(
            s,
            total,
            wallets_needed_from(s, total, k),
        ),
    decreases s.len() - k,
{
    if k < s.len() && !reaches_share(s, total, k + 1) {
        lemma_wallets_needed_from_least(s, total, k + 1);
    }
}

/// The number of entries needed is the least count, from one up, of leading
/// entries that reach the share, and the number of entries where none does.
pub proof fn lemma_wallets_needed_least(s: Seq<int>, total: int)
    ensures
        0 <= wallets_needed(s, total) <= s.len(),
        forall|j: int| 0 < j < wallets_needed(s, total) ==> !reaches_share(s, total, j),
        wallets_needed(s, total) < s.len() ==> reaches_share(s, total, wallets_needed(s, total)),
{
    lemma_wallets_needed_from_least(s, total, 0);
}

/// No buyer is listed twice, and there are no more buyers than trades.
pub proof fn lemma_buyers_distinct(trades: Seq<TradeEventView>)
    ensures
        buyers(trades).no_duplicates(),
        buyers(trades).len() <= trades.len(),
    decreases trades.len(),
{
    if trades.len() > 0 {
        lemma_buyers_distinct(trades.drop_last());
        let earlier = buyers(trades.drop_last());
        let t = trades.last();
        if inflow(t) > 0 && !earlier.contains(t.user_account) {
            crate::assoc::lemma_push_no_duplicates(earlier, t.user_account);
        }
    }
}

/// A wallet that is no buyer put nothing in.
pub proof fn lemma_inflow_of_stranger(trades: Seq<TradeEventView>, wallet: Seq<char>)
    requires
        !buyers(trades).contains(wallet),
    ensures
        inflow_of(trades, wallet) == 0,
    decreases trades.len(),
{
    if trades.len() > 0 {
        let earlier = buyers(trades.drop_last());
        let t = trades.last();
        if earlier.contains(wallet) {
            let i = choose|i: int| 0 <= i < earlier.len() && earlier[i] == wallet;
            assert(buyers(trades)[i] == wallet);
        }
        lemma_inflow_of_stranger(trades.drop_last(), wallet);
        if t.user_account == wallet && inflow(t) > 0 {
            assert(buyers(trades) == earlier.push(wallet));
            assert(buyers(trades)[earlier.len() as int] == wallet);
        }
    }
}

/// No wallet put in more than all wallets together.
pub proof fn lemma_inflow_of_bounds(trades: Seq<TradeEventView>, wallet: Seq<char>)
    ensures
        0 <= inflow_of(trades, wallet) <= total_inflow(trades),
    decreases trades.len(),
{
    if trades.len() > 0 {
        lemma_inflow_of_bounds(trades.drop_last(), wallet);
    }
}

/// Where something was put in, somebody did so.
pub proof fn lemma_inflow_has_buyer(trades: Seq<TradeEventView>)
    requires
        total_inflow(trades) > 0,
    ensures
        buyers(trades).len() > 0,
    decreases trades.len(),
{
    if trades.len() > 0 {
        if inflow(trades.last()) <= 0 {
            lemma_inflow_has_buyer(trades.drop_last());
        } else if buyers(trades.drop_last()).contains(trades.last().user_account) {
        }
    }
}

/// The inflow of one buyer, as it is added up trade by trade. The buyers
/// are kept as a list in order of first appearance, and a lookup walks it.
struct WalletInflow {
    wallet: String,
    amount: u128,
}

/// Position of `wallet` among the buyers found so far.
fn find_buyer(table: &Vec<WalletInflow>, wallet: &String) -> (res: Option<usize>)
    ensures
        match res {
            Some(j) => j < table.len() && table[j as int].wallet@ == wallet@,
            None => forall|j: int| 0 <= j < table.len() ==> (#[trigger] table[j]).wallet@ != wallet@,
        },
{
    let n = table.len();
    let mut j: usize = 0;
    while j < n
        invariant
            n == table.len(),
            j <= n,
            forall|i: int| 0 <= i < j ==> (#[trigger] table[i]).wallet@ != wallet@,
        decreases n - j,
    {
        if table[j].wallet == *wallet {
            return Some(j);
        }
        j = j + 1;
    }
    None
}

/// The inflow of each buyer, in order of first appearance, and the inflow of
/// all of them together.
pub fn wallet_inflow_totals(trades: &[TradeEvent]) -> (res: (Vec<u128>, u128))
    requires
        trades@.len() <= MAX_WINDOW_TRADES,
        amounts_within(trade_views(trades@)),
    ensures
        amounts(res.0@) == wallet_inflows(trade_views(trades@)),
        res.1 == total_inflow(trade_views(trades@)),
        res.1 <= MAX_FLOW,
        forall|j: int| 0 <= j < res.0@.len() ==> 0 <= #[trigger] res.0@[j] <= res.1,
{
    let ghost all = trade_views(trades@);
    let mut table: Vec<WalletInflow> = Vec::new();
    let mut total: u128 = 0;
    let n = trades.len();
    let mut i: usize = 0;
    proof {
        assert(all.take(0) =~= Seq::<TradeEventView>::empty());
        lemma_max_flow();
    }
    while i < n
        invariant
            n == trades@.len(),
            n <= MAX_WINDOW_TRADES,
            all == trade_views(trades@),
            amounts_within(all),
            MAX_SOL_AMOUNT == 36_893_488_147_419_103_230,
            i <= n,
            total == total_inflow(all.take(i as int)),
            total <= i * 36_893_488_147_419_103_230,
            table@.len() == buyers(all.take(i as int)).len(),
            forall|j: int|
                0 <= j < table@.len() ==> (#[trigger] table@[j]).wallet@ == buyers(
                    all.take(i as int),
                )[j],
            forall|j: int|
                0 <= j < table@.len() ==> (#[trigger] table@[j]).amount == inflow_of(
                    all.take(i as int),
                    table@[j].wallet@,
                ),
        decreases n - i,
    {
        let trade = &trades[i];
        let ghost prefix = all.take(i as int);
        let ghost next = all.take(i as int + 1);
        let ghost before = table@;
        proof {
            assert(next =~= prefix.push(trade@));
            assert(next.drop_last() =~= prefix);
            assert(next.last() == trade@);
            assert(all[i as int] == trade@);
            assert((i + 1) * 36_893_488_147_419_103_230 == i * 36_893_488_147_419_103_230 + 36_893_488_147_419_103_230) by (nonlinear_arith);
            assert(i * 36_893_488_147_419_103_230 <= 2_147_483_647 * 36_893_488_147_419_103_230) by (nonlinear_arith)
                requires
                    i <= 2_147_483_647,
            ;
            lemma_buyers_distinct(prefix);
        }
        let is_buy = match trade.direction {
            TradeDirection::Buy => true,
            _ => false,
        };
        if is_buy && trade.sol_amount > 0 {
            let amount = trade.sol_amount;
            match find_buyer(&table, &trade.user_account) {
                Some(j) => {
                    proof {
                        lemma_inflow_of_bounds(prefix, trade@.user_account);
                        assert(buyers(prefix)[j as int] == trade@.user_account);
                        assert(buyers(next) == buyers(prefix));
                    }
                    table[j].amount = table[j].amount + amount;
                    proof {
                        assert forall|a: int| 0 <= a < table@.len() implies (#[trigger] table@[a]).amount
                            == inflow_of(next, table@[a].wallet@) by {
                            assert(table@[a].wallet@ == before[a].wallet@);
                            if a != j {
                                assert(before[a].wallet@ == buyers(prefix)[a]);
                                assert(buyers(prefix)[a] != buyers(prefix)[j as int]);
                            }
                        }
                    }
                },
                None => {
                    proof {
                        assert(!buyers(prefix).contains(trade@.user_account)) by {
                            if buyers(prefix).contains(trade@.user_account) {
                                let a = choose|a: int|
                                    0 <= a < buyers(prefix).len() && buyers(prefix)[a]
                                        == trade@.user_account;
                                assert(before[a].wallet@ == trade@.user_account);
                            }
                        }
                        lemma_inflow_of_stranger(prefix, trade@.user_account);
                        assert(buyers(next) == buyers(prefix).push(trade@.user_account));
                    }
                    table.push(WalletInflow { wallet: trade.user_account.clone(), amount });
                    proof {
                        assert forall|a: int| 0 <= a < table@.len() implies (#[trigger] table@[a]).amount
                            == inflow_of(next, table@[a].wallet@) by {
                            if a < before.len() {
                                assert(table@[a] == before[a]);
                                assert(before[a].wallet@ == buyers(prefix)[a]);
                                assert(buyers(prefix).contains(before[a].wallet@));
                            }
                        }
                    }
                },
            }
            total = total + amount;
        } else {
            proof {
                assert(inflow(trade@) == 0);
                assert(buyers(next) == buyers(prefix));
            }
        }
        i = i + 1;
    }
    proof {
        assert(all.take(n as int) =~= all);
        assert(n * 36_893_488_147_419_103_230 <= 2_147_483_647 * 36_893_488_147_419_103_230) by (nonlinear_arith)
            requires
                n <= 2_147_483_647,
        ;
    }
    let mut inflows: Vec<u128> = Vec::new();
    let m = table.len();
    let mut j: usize = 0;
    while j < m
        invariant
            m == table@.len(),
            j <= m,
            inflows@.len() == j,
            forall|a: int| 0 <= a < j ==> #[trigger] inflows@[a] == table@[a].amount,
        decreases m - j,
    {
        inflows.push(table[j].amount);
        j = j + 1;
    }
    proof {
        assert(amounts(inflows@) =~= wallet_inflows(all));
        assert forall|a: int| 0 <= a < inflows@.len() implies 0 <= #[trigger] inflows@[a]
            <= total by {
            lemma_inflow_of_bounds(all, table@[a].wallet@);
        }
    }
    (inflows, total)
}

/// The smallest number of leading amounts that make up seven tenths of
/// `total`; all of them where none does.
pub fn count_wallets_needed(sorted: &Vec<u128>, total: u128) -> (k: usize)
    requires
        total <= MAX_FLOW,
        forall|j: int| 0 <= j < sorted@.len() ==> #[trigger] sorted@[j] <= MAX_FLOW,
    ensures
        k == wallets_needed(amounts(sorted@), total as int),
        k <= sorted@.len(),
{
    let ghost s = amounts(sorted@);
    let n = sorted.len();
    let mut cumulative: u128 = 0;
    let mut k: usize = 0;
    while k < n
        invariant
            n == sorted@.len(),
            s == amounts(sorted@),
            k <= n,
            total <= MAX_FLOW,
            forall|j: int| 0 <= j < sorted@.len() ==> #[trigger] sorted@[j] <= MAX_FLOW,
            cumulative == prefix_sum(s, k as int),
            cumulative <= total,
            wallets_needed(s, total as int) == wallets_needed_from(s, total as int, k as int),
        decreases n - k,
    {
        assert(s[k as int] == sorted@[k as int]);
        cumulative = cumulative + sorted[k];
        k = k + 1;
        if cumulative >= total || cumulative * 10 >= total * 7 {
            return k;
        }
    }
    k
}

} // verus!
