//! Sequences of trades inside one time window: what they add up to, and how
//! they are pruned.

use vstd::prelude::*;
use std::collections::VecDeque;
use vstd::hash_set::StringHashSet;
use crate::fixed::{MAX_FLOW, MAX_SOL_AMOUNT, lemma_max_flow};
use crate::sequences::{lemma_filter_len, lemma_filter_prepend, lemma_filter_push, move_reversed};
use crate::types::{TradeDirection, TradeEvent, TradeEventView, trade_views};

verus! {

/// Largest number of trades one window may hold; counts are 32-bit.
pub const MAX_WINDOW_TRADES: usize = 2_147_483_647;

/// Contribution of one trade to a net flow: buys add, sells subtract.
pub open spec fn signed_amount(t: TradeEventView) -> int {
    match t.direction {
        TradeDirection::Buy => t.sol_amount as int,
        TradeDirection::Sell => -(t.sol_amount as int),
        TradeDirection::Unknown => 0,
    }
}

/// Buys minus sells over a sequence of trades, in lamports.
pub open spec fn net_flow(trades: Seq<TradeEventView>) -> int
    decreases trades.len(),
{
    if trades.len() == 0 {
        0
    } else {
        net_flow(trades.drop_last()) + signed_amount(trades.last())
    }
}

/// Whether no trade carries more than the largest amount the rolling state
/// takes in.
pub open spec fn amounts_within(trades: Seq<TradeEventView>) -> bool {
    forall|i: int| 0 <= i < trades.len() ==> (#[trigger] trades[i]).sol_amount <= MAX_SOL_AMOUNT
}

/// The buys among `trades`.
pub open spec fn buys(trades: Seq<TradeEventView>) -> Seq<TradeEventView> {
    trades.filter(|t: TradeEventView| t.direction == TradeDirection::Buy)
}

/// The sells among `trades`.
pub open spec fn sells(trades: Seq<TradeEventView>) -> Seq<TradeEventView> {
    trades.filter(|t: TradeEventView| t.direction == TradeDirection::Sell)
}

/// The trades flagged as coming from a bot wallet.
pub open spec fn bot_trades(trades: Seq<TradeEventView>) -> Seq<TradeEventView> {
    trades.filter(|t: TradeEventView| t.is_bot)
}

/// The trades flagged as dollar-cost-averaging fills.
pub open spec fn dca_trades(trades: Seq<TradeEventView>) -> Seq<TradeEventView> {
    trades.filter(|t: TradeEventView| t.is_dca)
}

/// The trades whose timestamp is not before `cutoff`, in their old order.
pub open spec fn recent(trades: Seq<TradeEventView>, cutoff: int) -> Seq<TradeEventView> {
    trades.filter(|t: TradeEventView| t.timestamp >= cutoff)
}

/// The distinct wallets that appear in `trades`.
pub open spec fn wallet_set(trades: Seq<TradeEventView>) -> Set<Seq<char>> {
    trades.map_values(|t: TradeEventView| t.user_account).to_set()
}

/// The values of a queue of timestamps, in order.
pub open spec fn timestamp_values(timestamps: Seq<i64>) -> Seq<int> {
    timestamps.map_values(|t: i64| t as int)
}

/// What is left of a queue of timestamps once every leading entry older than
/// `cutoff` has been taken off the front.
pub open spec fn drop_expired(timestamps: Seq<int>, cutoff: int) -> Seq<int>
    decreases timestamps.len(),
{
    if timestamps.len() > 0 && timestamps[0] < cutoff {
        drop_expired(timestamps.drop_first(), cutoff)
    } else {
        timestamps
    }
}

/// One more trade changes the net flow by its signed amount.
pub proof fn lemma_net_flow_push(s: Seq<TradeEventView>, t: TradeEventView)
    ensures
        net_flow(s.push(t)) == net_flow(s) + signed_amount(t),
{
    assert(s.push(t).drop_last() =~= s);
}

/// The values of a sequence with one more trade.
pub proof fn lemma_trade_views_push(s: Seq<TradeEvent>, t: TradeEvent)
    ensures
        trade_views(s.push(t)) == trade_views(s).push(t@),
{
    assert(trade_views(s.push(t)) =~= trade_views(s).push(t@));
}

/// The values of the first trades of a sequence, one trade at a time.
pub proof fn lemma_trade_views_take(s: Seq<TradeEvent>, i: int)
    requires
        0 <= i < s.len(),
    ensures
        trade_views(s).take(i + 1) == trade_views(s).take(i).push(s[i]@),
        trade_views(s).take(0) == Seq::<TradeEventView>::empty(),
        trade_views(s).take(s.len() as int) == trade_views(s),
{
    assert(trade_views(s).take(i + 1) =~= trade_views(s).take(i).push(s[i]@));
    assert(trade_views(s).take(0) =~= Seq::<TradeEventView>::empty());
    assert(trade_views(s).take(s.len() as int) =~= trade_views(s));
}

/// One more trade adds its wallet to the distinct wallets.
pub proof fn lemma_wallet_set_push(s: Seq<TradeEventView>, t: TradeEventView)
    ensures
        wallet_set(s.push(t)) == wallet_set(s).insert(t.user_account),
{
    let f = |t: TradeEventView| t.user_account;
    let a = s.push(t).map_values(f);
    let b = s.map_values(f);
    assert(a =~= b.push(t.user_account));
    assert forall|w: Seq<char>| a.to_set().contains(w) == b.to_set().insert(
        t.user_account,
    ).contains(w) by {
        if a.contains(w) {
            let i = choose|i: int| 0 <= i < a.len() && a[i] == w;
            if i < b.len() {
                assert(b[i] == w);
            }
        }
        if b.contains(w) {
            let i = choose|i: int| 0 <= i < b.len() && b[i] == w;
            assert(a[i] == w);
        }
        if w == t.user_account {
            assert(a[a.len() - 1] == w);
        }
    }
    assert(a.to_set() =~= b.to_set().insert(t.user_account));
}

/// No trades, no wallets.
pub proof fn lemma_wallet_set_empty()
    ensures
        wallet_set(Seq::<TradeEventView>::empty()) == Set::<Seq<char>>::empty(),
{
    let f = |t: TradeEventView| t.user_account;
    assert(Seq::<TradeEventView>::empty().map_values(f).to_set() =~= Set::<Seq<char>>::empty());
}

/// A window never holds more distinct wallets than trades.
pub proof fn lemma_wallet_set_len(s: Seq<TradeEventView>)
    ensures
        wallet_set(s).finite(),
        wallet_set(s).len() <= s.len(),
{
    let m = s.map_values(|t: TradeEventView| t.user_account);
    m.lemma_cardinality_of_set();
    vstd::seq_lib::seq_to_set_is_finite(m);
}

/// Net flow, number of buys and number of sells of one window.
pub fn window_totals(trades: &Vec<TradeEvent>) -> (res: (i128, i32, i32))
    requires
        trades.len() <= MAX_WINDOW_TRADES,
        amounts_within(trade_views(trades@)),
    ensures
        res.0 == net_flow(trade_views(trades@)),
        res.1 == buys(trade_views(trades@)).len(),
        res.2 == sells(trade_views(trades@)).len(),
        -MAX_FLOW <= res.0 <= MAX_FLOW,
        0 <= res.1,
        0 <= res.2,
        res.1 + res.2 <= trades.len(),
{
    let mut flow: i128 = 0;
    let mut buy_count: i32 = 0;
    let mut sell_count: i32 = 0;
    let ghost all = trade_views(trades@);
    let n: usize = trades.len();
    let mut i: usize = 0;
    proof {
        assert(all.take(0) =~= Seq::<TradeEventView>::empty());
        reveal(Seq::filter);
        lemma_max_flow();
    }
    while i < n
        invariant
            n == trades.len(),
            n <= MAX_WINDOW_TRADES,
            all == trade_views(trades@),
            amounts_within(all),
            i <= n,
            flow == net_flow(all.take(i as int)),
            -(i * 36_893_488_147_419_103_230) <= flow <= i * 36_893_488_147_419_103_230,
            buy_count == buys(all.take(i as int)).len(),
            sell_count == sells(all.take(i as int)).len(),
            0 <= buy_count,
            0 <= sell_count,
            buy_count + sell_count <= i,
            MAX_FLOW == 2_147_483_647 * 36_893_488_147_419_103_230,
            MAX_SOL_AMOUNT == 36_893_488_147_419_103_230,
        decreases n - i,
    {
        let trade = &trades[i];
        proof {
            lemma_trade_views_take(trades@, i as int);
            assert(all[i as int] == trade@);
            let prefix = all.take(i as int);
            lemma_net_flow_push(prefix, trade@);
            lemma_filter_push(prefix, trade@, |t: TradeEventView| t.direction == TradeDirection::Buy);
            lemma_filter_push(
                prefix,
                trade@,
                |t: TradeEventView| t.direction == TradeDirection::Sell,
            );
            assert((i + 1) * 36_893_488_147_419_103_230 == i * 36_893_488_147_419_103_230 + 36_893_488_147_419_103_230) by (nonlinear_arith);
            assert(i * 36_893_488_147_419_103_230 <= 2_147_483_647 * 36_893_488_147_419_103_230) by (nonlinear_arith)
                requires
                    i <= 2_147_483_647,
            ;
        }
        match trade.direction {
            TradeDirection::Buy => {
                flow = flow + trade.sol_amount as i128;
                buy_count = buy_count + 1;
            },
            TradeDirection::Sell => {
                flow = flow - trade.sol_amount as i128;
                sell_count = sell_count + 1;
            },
            TradeDirection::Unknown => {},
        }
        i = i + 1;
    }
    proof {
        assert(all.take(n as int) =~= all);
        assert(n * 36_893_488_147_419_103_230 <= 2_147_483_647 * 36_893_488_147_419_103_230) by (nonlinear_arith)
            requires
                n <= 2_147_483_647,
        ;
    }
    (flow, buy_count, sell_count)
}

/// The timestamps of a sequence of trades, in order.
pub open spec fn timestamps_of(trades: Seq<TradeEventView>) -> Seq<int> {
    trades.map_values(|t: TradeEventView| t.timestamp)
}

/// The trades of `wallet` among `trades`.
pub open spec fn trades_by(trades: Seq<TradeEventView>, wallet: Seq<char>) -> Seq<TradeEventView> {
    trades.filter(|t: TradeEventView| t.user_account == wallet)
}

/// Whether no timestamp is smaller than one before it.
pub open spec fn non_decreasing(timestamps: Seq<int>) -> bool {
    forall|i: int, j: int| 0 <= i <= j < timestamps.len() ==> timestamps[i] <= timestamps[j]
}

/// What survives `recent` is not older than the cutoff and was there before.
pub proof fn lemma_recent_all(trades: Seq<TradeEventView>, cutoff: int)
    ensures
        forall|i: int|
            0 <= i < recent(trades, cutoff).len() ==> (#[trigger] recent(
                trades,
                cutoff,
            )[i]).timestamp >= cutoff,
        forall|i: int|
            0 <= i < recent(trades, cutoff).len() ==> trades.contains(
                #[trigger] recent(trades, cutoff)[i],
            ),
        recent(trades, cutoff).len() <= trades.len(),
{
    crate::sequences::lemma_filter_all(trades, |t: TradeEventView| t.timestamp >= cutoff);
    lemma_filter_len(trades, |t: TradeEventView| t.timestamp >= cutoff);
}

/// On timestamps in order of time, pruning from the front keeps exactly
/// those at the cutoff or later.
pub proof fn lemma_drop_expired_sorted(timestamps: Seq<int>, cutoff: int)
    requires
        non_decreasing(timestamps),
    ensures
        drop_expired(timestamps, cutoff) == timestamps.filter(|x: int| x >= cutoff),
        non_decreasing(drop_expired(timestamps, cutoff)),
    decreases timestamps.len(),
{
    let p = |x: int| x >= cutoff;
    if timestamps.len() > 0 && timestamps[0] < cutoff {
        let rest = timestamps.drop_first();
        assert forall|i: int, j: int| 0 <= i <= j < rest.len() implies rest[i] <= rest[j] by {
            assert(timestamps[i + 1] <= timestamps[j + 1]);
        }
        lemma_drop_expired_sorted(rest, cutoff);
        assert(timestamps =~= seq![timestamps[0]] + rest);
        lemma_filter_prepend(timestamps[0], rest, p);
    } else {
        assert forall|i: int| 0 <= i < timestamps.len() implies p(#[trigger] timestamps[i]) by {
            assert(timestamps[0] <= timestamps[i]);
        }
        crate::sequences::lemma_filter_identity(timestamps, p);
    }
}

/// One more trade within the largest amount keeps all amounts within it.
pub proof fn lemma_amounts_within_push(trades: Seq<TradeEventView>, t: TradeEventView)
    requires
        amounts_within(trades),
        t.sol_amount <= MAX_SOL_AMOUNT,
    ensures
        amounts_within(trades.push(t)),
{
    assert forall|i: int| 0 <= i < trades.push(t).len() implies (#[trigger] trades.push(
        t,
    )[i]).sol_amount <= MAX_SOL_AMOUNT by {
        if i < trades.len() {
            assert(trades.push(t)[i] == trades[i]);
        }
    }
}

/// Dropping trades keeps all amounts within the largest amount.
pub proof fn lemma_amounts_within_recent(trades: Seq<TradeEventView>, cutoff: int)
    requires
        amounts_within(trades),
    ensures
        amounts_within(recent(trades, cutoff)),
{
    lemma_recent_all(trades, cutoff);
    assert forall|i: int| 0 <= i < recent(trades, cutoff).len() implies (#[trigger] recent(
        trades,
        cutoff,
    )[i]).sol_amount <= MAX_SOL_AMOUNT by {
        let t = recent(trades, cutoff)[i];
        assert(trades.contains(t));
        let j = choose|j: int| 0 <= j < trades.len() && trades[j] == t;
        assert(trades[j].sol_amount <= MAX_SOL_AMOUNT);
    }
}

/// Whether no trade carries more than the largest amount the rolling state
/// takes in.
pub fn amounts_in_range(trades: &[TradeEvent]) -> (ok: bool)
    ensures
        ok == amounts_within(trade_views(trades@)),
{
    let n = trades.len();
    let mut i: usize = 0;
    while i < n
        invariant
            n == trades@.len(),
            i <= n,
            forall|j: int| 0 <= j < i ==> (#[trigger] trade_views(trades@)[j]).sol_amount
                <= MAX_SOL_AMOUNT,
        decreases n - i,
    {
        if trades[i].sol_amount > MAX_SOL_AMOUNT {
            assert(trade_views(trades@)[i as int] == trades@[i as int]@);
            return false;
        }
        assert(trade_views(trades@)[i as int] == trades@[i as int]@);
        i = i + 1;
    }
    true
}

/// Keeps the trades whose timestamp is not before `cutoff`, in their old
/// order, and drops the others.
pub fn retain_recent(trades: &mut Vec<TradeEvent>, cutoff: i64)
    ensures
        trade_views(final(trades)@) == recent(trade_views(old(trades)@), cutoff as int),
        final(trades)@.len() <= old(trades)@.len(),
{
    let ghost all = trade_views(trades@);
    let ghost total = trades@.len();
    let mut kept_rev: Vec<TradeEvent> = Vec::new();
    proof {
        assert(all.take(total as int) =~= all);
        assert(all.skip(total as int) =~= Seq::<TradeEventView>::empty());
        reveal(Seq::filter);
        assert(trade_views(kept_rev@) =~= recent(all.skip(total as int), cutoff as int).reverse());
    }
    while trades.len() > 0
        invariant
            trades@.len() <= total,
            all.len() == total,
            trade_views(trades@) == all.take(trades@.len() as int),
            trade_views(kept_rev@) == recent(
                all.skip(trades@.len() as int),
                cutoff as int,
            ).reverse(),
        decreases trades.len(),
    {
        let ghost k = trades@.len() as int;
        let ghost before = trades@;
        let ghost kept_before = kept_rev@;
        let trade = trades.pop().unwrap();
        proof {
            assert(trade@ == all[k - 1]) by {
                assert(trade_views(before)[k - 1] == before[k - 1]@);
            }
            assert(trade_views(trades@) =~= all.take(k - 1));
            assert(all.skip(k - 1) =~= seq![all[k - 1]] + all.skip(k));
            lemma_filter_prepend(
                all[k - 1],
                all.skip(k),
                |t: TradeEventView| t.timestamp >= cutoff as int,
            );
            lemma_filter_len(all.skip(k), |t: TradeEventView| t.timestamp >= cutoff as int);
        }
        if trade.timestamp >= cutoff {
            kept_rev.push(trade);
            proof {
                let tail = recent(all.skip(k), cutoff as int);
                lemma_trade_views_push(kept_before, trade);
                assert(trade_views(kept_rev@) =~= (seq![trade@] + tail).reverse());
            }
        }
    }
    proof {
        assert(all.skip(0) =~= all);
        assert(trades@ =~= Seq::<TradeEvent>::empty());
        lemma_filter_len(all, |t: TradeEventView| t.timestamp >= cutoff as int);
    }
    let ghost waiting = kept_rev@;
    move_reversed(&mut kept_rev, trades);
    proof {
        assert(trade_views(trades@) =~= trade_views(waiting).reverse());
        assert(trade_views(waiting).reverse() =~= recent(all, cutoff as int)) by {
            assert(recent(all, cutoff as int).reverse().reverse() =~= recent(all, cutoff as int));
        }
    }
}

/// Takes entries off the front of `timestamps` while the front one is older
/// than `cutoff`.
pub fn prune_expired(timestamps: &mut VecDeque<i64>, cutoff: i64)
    ensures
        timestamp_values(final(timestamps)@) == drop_expired(
            timestamp_values(old(timestamps)@),
            cutoff as int,
        ),
        final(timestamps)@.len() <= old(timestamps)@.len(),
{
    let ghost start = timestamp_values(timestamps@);
    while timestamps.len() > 0 && timestamps[0] < cutoff
        invariant
            drop_expired(timestamp_values(timestamps@), cutoff as int) == drop_expired(
                start,
                cutoff as int,
            ),
            timestamps@.len() <= start.len(),
        decreases timestamps.len(),
    {
        let ghost before = timestamps@;
        let _ = timestamps.pop_front();
        proof {
            assert(timestamps@ =~= before.drop_first());
            assert(timestamp_values(timestamps@) =~= timestamp_values(before).drop_first());
        }
    }
}

/// Number and net flow of the trades flagged as coming from a bot wallet.
pub fn bot_totals(trades: &Vec<TradeEvent>) -> (res: (i32, i128))
    requires
        trades.len() <= MAX_WINDOW_TRADES,
        amounts_within(trade_views(trades@)),
    ensures
        res.0 == bot_trades(trade_views(trades@)).len(),
        res.1 == net_flow(bot_trades(trade_views(trades@))),
        -MAX_FLOW <= res.1 <= MAX_FLOW,
{
    let mut count: i32 = 0;
    let mut flow: i128 = 0;
    let ghost all = trade_views(trades@);
    let n: usize = trades.len();
    let mut i: usize = 0;
    proof {
        assert(all.take(0) =~= Seq::<TradeEventView>::empty());
        reveal(Seq::filter);
        lemma_max_flow();
    }
    while i < n
        invariant
            n == trades.len(),
            n <= MAX_WINDOW_TRADES,
            all == trade_views(trades@),
            amounts_within(all),
            i <= n,
            count == bot_trades(all.take(i as int)).len(),
            count <= i,
            flow == net_flow(bot_trades(all.take(i as int))),
            -(i * 36_893_488_147_419_103_230) <= flow <= i * 36_893_488_147_419_103_230,
            MAX_FLOW == 2_147_483_647 * 36_893_488_147_419_103_230,
            MAX_SOL_AMOUNT == 36_893_488_147_419_103_230,
        decreases n - i,
    {
        let trade = &trades[i];
        proof {
            lemma_trade_views_take(trades@, i as int);
            assert(all[i as int] == trade@);
            let prefix = all.take(i as int);
            lemma_filter_push(prefix, trade@, |t: TradeEventView| t.is_bot);
            lemma_net_flow_push(bot_trades(prefix), trade@);
            assert((i + 1) * 36_893_488_147_419_103_230 == i * 36_893_488_147_419_103_230 + 36_893_488_147_419_103_230) by (nonlinear_arith);
            assert(i * 36_893_488_147_419_103_230 <= 2_147_483_647 * 36_893_488_147_419_103_230) by (nonlinear_arith)
                requires
                    i <= 2_147_483_647,
            ;
        }
        if trade.is_bot {
            count = count + 1;
            match trade.direction {
                TradeDirection::Buy => {
                    flow = flow + trade.sol_amount as i128;
                },
                TradeDirection::Sell => {
                    flow = flow - trade.sol_amount as i128;
                },
                TradeDirection::Unknown => {},
            }
        }
        i = i + 1;
    }
    proof {
        assert(all.take(n as int) =~= all);
        assert(n * 36_893_488_147_419_103_230 <= 2_147_483_647 * 36_893_488_147_419_103_230) by (nonlinear_arith)
            requires
                n <= 2_147_483_647,
        ;
    }
    (count, flow)
}

/// Net flow of the dollar-cost-averaging fills, and the number of distinct
/// wallets behind them.
pub fn dca_totals(trades: &Vec<TradeEvent>) -> (res: (i128, i32))
    requires
        trades.len() <= MAX_WINDOW_TRADES,
        amounts_within(trade_views(trades@)),
    ensures
        res.0 == net_flow(dca_trades(trade_views(trades@))),
        -MAX_FLOW <= res.0 <= MAX_FLOW,
        res.1 == wallet_set(dca_trades(trade_views(trades@))).len(),
{
    let mut flow: i128 = 0;
    let mut wallets = StringHashSet::new();
    let ghost all = trade_views(trades@);
    let n: usize = trades.len();
    let mut i: usize = 0;
    proof {
        assert(all.take(0) =~= Seq::<TradeEventView>::empty());
        reveal(Seq::filter);
        lemma_max_flow();
        lemma_wallet_set_empty();
    }
    while i < n
        invariant
            n == trades.len(),
            n <= MAX_WINDOW_TRADES,
            all == trade_views(trades@),
            amounts_within(all),
            i <= n,
            flow == net_flow(dca_trades(all.take(i as int))),
            -(i * 36_893_488_147_419_103_230) <= flow <= i * 36_893_488_147_419_103_230,
            wallets@ == wallet_set(dca_trades(all.take(i as int))),
            MAX_FLOW == 2_147_483_647 * 36_893_488_147_419_103_230,
            MAX_SOL_AMOUNT == 36_893_488_147_419_103_230,
        decreases n - i,
    {
        let trade = &trades[i];
        proof {
            lemma_trade_views_take(trades@, i as int);
            assert(all[i as int] == trade@);
            let prefix = all.take(i as int);
            lemma_filter_push(prefix, trade@, |t: TradeEventView| t.is_dca);
            lemma_net_flow_push(dca_trades(prefix), trade@);
            lemma_wallet_set_push(dca_trades(prefix), trade@);
            assert((i + 1) * 36_893_488_147_419_103_230 == i * 36_893_488_147_419_103_230 + 36_893_488_147_419_103_230) by (nonlinear_arith);
            assert(i * 36_893_488_147_419_103_230 <= 2_147_483_647 * 36_893_488_147_419_103_230) by (nonlinear_arith)
                requires
                    i <= 2_147_483_647,
            ;
        }
        if trade.is_dca {
            match trade.direction {
                TradeDirection::Buy => {
                    flow = flow + trade.sol_amount as i128;
                },
                TradeDirection::Sell => {
                    flow = flow - trade.sol_amount as i128;
                },
                TradeDirection::Unknown => {},
            }
            wallets.insert(trade.user_account.clone());
        }
        i = i + 1;
    }
    proof {
        assert(all.take(n as int) =~= all);
        assert(n * 36_893_488_147_419_103_230 <= 2_147_483_647 * 36_893_488_147_419_103_230) by (nonlinear_arith)
            requires
                n <= 2_147_483_647,
        ;
        lemma_wallet_set_len(dca_trades(all));
        lemma_filter_len(all, |t: TradeEventView| t.is_dca);
    }
    let distinct: usize = wallets.len();
    (flow, distinct as i32)
}

} // verus!
