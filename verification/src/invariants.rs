//! What holds of the rolling state across the taking in of trades and
//! eviction.

use vstd::prelude::*;
use crate::activity::activity_count;
use crate::sequences::{
    lemma_filter_all, lemma_filter_commutes, lemma_filter_len, lemma_filter_map_commutes,
    lemma_filter_push,
};
use crate::state::{BOT_TRADE_THRESHOLD, RollingStateView, is_dca_buy};
use crate::types::{TradeDirection, TradeEventView};
use crate::windows::{
    buys, dca_trades, lemma_drop_expired_sorted, lemma_recent_all, lemma_wallet_set_empty,
    lemma_wallet_set_push, non_decreasing, sells, timestamps_of, trades_by, wallet_set,
};

verus! {

/// Whether every trade of `trades` is at `cutoff` or later.
pub open spec fn none_older(trades: Seq<TradeEventView>, cutoff: int) -> bool {
    forall|i: int| 0 <= i < trades.len() ==> (#[trigger] trades[i]).timestamp >= cutoff
}

/// After eviction at `now`, no window holds a trade older than its length.
pub proof fn lemma_eviction_bounds_windows(s: RollingStateView, now: int)
    ensures
        none_older(s.evict_old_trades(now).trades_60s, now - 60),
        none_older(s.evict_old_trades(now).trades_300s, now - 300),
        none_older(s.evict_old_trades(now).trades_900s, now - 900),
        none_older(s.evict_old_trades(now).trades_3600s, now - 3600),
        none_older(s.evict_old_trades(now).trades_7200s, now - 7200),
        none_older(s.evict_old_trades(now).trades_14400s, now - 14400),
{
    lemma_recent_all(s.trades_60s, now - 60);
    lemma_recent_all(s.trades_300s, now - 300);
    lemma_recent_all(s.trades_900s, now - 900);
    lemma_recent_all(s.trades_3600s, now - 3600);
    lemma_recent_all(s.trades_7200s, now - 7200);
    lemma_recent_all(s.trades_14400s, now - 14400);
}

/// The state of a token that has not traded yet has its wallet sets in
/// agreement with the 300 s window.
pub proof fn lemma_empty_inv(mint: Seq<char>)
    ensures
        RollingStateView::empty(mint).inv(),
{
    lemma_wallet_set_empty();
}

/// Taking in a trade keeps the wallet sets in agreement with the 300 s
/// window.
pub proof fn lemma_add_trade_keeps_inv(s: RollingStateView, e: TradeEventView)
    requires
        s.inv(),
    ensures
        s.add_trade(e).inv(),
{
    lemma_wallet_set_push(s.trades_300s, s.stored_trade(e));
}

/// After the taking in of a trade and eviction, from whatever state, the
/// distinct wallets are exactly those of the trades in the 300 s window, and
/// every bot wallet is among them.
pub proof fn lemma_wallets_after_eviction(s: RollingStateView, e: TradeEventView, now: int)
    ensures
        ({
            let after = s.add_trade(e).evict_old_trades(now);
            &&& after.unique_wallets_300s == wallet_set(after.trades_300s)
            &&& after.bot_wallets_300s.subset_of(after.unique_wallets_300s)
            &&& after.inv()
        }),
{
}

/// A buy of the dollar-cost-averaging program puts its timestamp at the end
/// of all five queues; any other trade leaves them as they are.
pub proof fn lemma_dca_buy_stamps_all_queues(s: RollingStateView, e: TradeEventView)
    ensures
        is_dca_buy(e) ==> {
            &&& s.add_trade(e).dca_timestamps_60s == s.dca_timestamps_60s.push(e.timestamp)
            &&& s.add_trade(e).dca_timestamps_300s == s.dca_timestamps_300s.push(e.timestamp)
            &&& s.add_trade(e).dca_timestamps_900s == s.dca_timestamps_900s.push(e.timestamp)
            &&& s.add_trade(e).dca_timestamps_3600s == s.dca_timestamps_3600s.push(e.timestamp)
            &&& s.add_trade(e).dca_timestamps_14400s == s.dca_timestamps_14400s.push(e.timestamp)
        },
        !is_dca_buy(e) ==> {
            &&& s.add_trade(e).dca_timestamps_60s == s.dca_timestamps_60s
            &&& s.add_trade(e).dca_timestamps_300s == s.dca_timestamps_300s
            &&& s.add_trade(e).dca_timestamps_900s == s.dca_timestamps_900s
            &&& s.add_trade(e).dca_timestamps_3600s == s.dca_timestamps_3600s
            &&& s.add_trade(e).dca_timestamps_14400s == s.dca_timestamps_14400s
        },
{
}

/// Whether every trade of `trades` is a buy or a sell.
pub open spec fn all_directed(trades: Seq<TradeEventView>) -> bool {
    forall|i: int| 0 <= i < trades.len() ==> (#[trigger] trades[i]).direction
        != TradeDirection::Unknown
}

proof fn lemma_directed_counts(trades: Seq<TradeEventView>)
    requires
        all_directed(trades),
    ensures
        buys(trades).len() + sells(trades).len() == trades.len(),
    decreases trades.len(),
{
    reveal(Seq::filter);
    if trades.len() > 0 {
        let init = trades.drop_last();
        assert forall|i: int| 0 <= i < init.len() implies (#[trigger] init[i]).direction
            != TradeDirection::Unknown by {
            assert(init[i] == trades[i]);
        }
        lemma_directed_counts(init);
        assert(init.push(trades.last()) =~= trades);
        assert(trades.last() == trades[trades.len() - 1]);
        lemma_filter_push(
            init,
            trades.last(),
            |t: TradeEventView| t.direction == TradeDirection::Buy,
        );
        lemma_filter_push(
            init,
            trades.last(),
            |t: TradeEventView| t.direction == TradeDirection::Sell,
        );
    }
}

/// Where every trade of the 300 s window is a buy or a sell, the snapshot
/// counts no more bot trades than buys and sells.
pub proof fn lemma_bot_trades_bounded(s: RollingStateView)
    requires
        all_directed(s.trades_300s),
    ensures
        0 <= s.rolling_metrics().bot_trades_count_300s <= s.rolling_metrics().buy_count_300s
            + s.rolling_metrics().sell_count_300s,
{
    lemma_directed_counts(s.trades_300s);
    lemma_filter_len(s.trades_300s, |t: TradeEventView| t.is_bot);
}

/// The queue of the 300 s window holds the timestamps of the flagged trades
/// of that window, in order of time.
pub open spec fn dca_in_step(s: RollingStateView) -> bool {
    &&& s.dca_timestamps_300s == timestamps_of(dca_trades(s.trades_300s))
    &&& non_decreasing(s.dca_timestamps_300s)
}

/// Whether taking in `e` keeps the queue in step: the trade is flagged
/// exactly where it is a buy of the dollar-cost-averaging program, and such
/// a buy is not older than the buys before it.
pub open spec fn dca_arrives_in_step(s: RollingStateView, e: TradeEventView) -> bool {
    &&& e.is_dca == is_dca_buy(e)
    &&& is_dca_buy(e) ==> forall|i: int|
        0 <= i < s.dca_timestamps_300s.len() ==> s.dca_timestamps_300s[i] <= e.timestamp
}

/// The state of a token that has not traded yet has its queue in step.
pub proof fn lemma_empty_dca_in_step(mint: Seq<char>)
    ensures
        dca_in_step(RollingStateView::empty(mint)),
{
    reveal(Seq::filter);
    assert(dca_trades(Seq::<TradeEventView>::empty()) =~= Seq::<TradeEventView>::empty());
    assert(timestamps_of(Seq::<TradeEventView>::empty()) =~= Seq::<int>::empty());
}

/// Taking in a trade that arrives in step keeps the queue in step.
pub proof fn lemma_add_trade_keeps_dca_in_step(s: RollingStateView, e: TradeEventView)
    requires
        dca_in_step(s),
        dca_arrives_in_step(s, e),
    ensures
        dca_in_step(s.add_trade(e)),
{
    let stored = s.stored_trade(e);
    lemma_filter_push(s.trades_300s, stored, |t: TradeEventView| t.is_dca);
    if is_dca_buy(e) {
        assert(timestamps_of(dca_trades(s.trades_300s).push(stored)) =~= timestamps_of(
            dca_trades(s.trades_300s),
        ).push(e.timestamp));
    }
}

/// Eviction keeps the queue in step.
pub proof fn lemma_evict_keeps_dca_in_step(s: RollingStateView, now: int)
    requires
        dca_in_step(s),
    ensures
        dca_in_step(s.evict_old_trades(now)),
{
    let cutoff = now - 300;
    let flagged = |t: TradeEventView| t.is_dca;
    let fresh = |t: TradeEventView| t.timestamp >= cutoff;
    lemma_drop_expired_sorted(s.dca_timestamps_300s, cutoff);
    lemma_filter_commutes(s.trades_300s, fresh, flagged);
    lemma_filter_map_commutes(
        dca_trades(s.trades_300s),
        |t: TradeEventView| t.timestamp,
        fresh,
        |x: int| x >= cutoff,
    );
}

/// With the queue in step, the snapshot counts as many dollar-cost-averaging
/// buys in the 300 s window as that window holds flagged trades.
pub proof fn lemma_dca_buys_match_flagged(s: RollingStateView)
    requires
        dca_in_step(s),
    ensures
        s.rolling_metrics().dca_buys_300s == dca_trades(s.trades_300s).len(),
{
}

/// The activity on record covers the 60 s window: every trade in it is of a
/// wallet on record whose last trade is not earlier, and no wallet has more
/// trades in the window than its record counts.
pub open spec fn activity_covers_window(s: RollingStateView) -> bool {
    &&& forall|i: int|
        0 <= i < s.trades_60s.len() ==> {
            &&& s.wallet_activity_60s.dom().contains((#[trigger] s.trades_60s[i]).user_account)
            &&& s.trades_60s[i].timestamp
                <= s.wallet_activity_60s[s.trades_60s[i].user_account].last_trade_ts
        }
    &&& forall|w: Seq<char>| #[trigger]
        trades_by(s.trades_60s, w).len() <= activity_count(s.wallet_activity_60s, w)
}

/// Whether `e` is not older than the last trade on record of its wallet.
pub open spec fn arrives_in_order(s: RollingStateView, e: TradeEventView) -> bool {
    s.wallet_activity_60s.dom().contains(e.user_account) ==> s.wallet_activity_60s[e.user_account].last_trade_ts
        <= e.timestamp
}

/// In the state of a token that has not traded yet, the activity on record
/// covers the 60 s window.
pub proof fn lemma_empty_activity_covers(mint: Seq<char>)
    ensures
        activity_covers_window(RollingStateView::empty(mint)),
{
    reveal(Seq::filter);
    assert forall|w: Seq<char>| #[trigger]
        trades_by(Seq::<TradeEventView>::empty(), w).len() == 0 by {
        assert(trades_by(Seq::<TradeEventView>::empty(), w) =~= Seq::<TradeEventView>::empty());
    }
}

/// Taking in a trade that arrives in order keeps the 60 s window covered.
pub proof fn lemma_add_trade_keeps_activity(s: RollingStateView, e: TradeEventView)
    requires
        activity_covers_window(s),
        arrives_in_order(s, e),
    ensures
        activity_covers_window(s.add_trade(e)),
{
    let after = s.add_trade(e);
    let stored = s.stored_trade(e);
    assert forall|i: int| 0 <= i < after.trades_60s.len() implies {
        &&& after.wallet_activity_60s.dom().contains((#[trigger] after.trades_60s[i]).user_account)
        &&& after.trades_60s[i].timestamp
            <= after.wallet_activity_60s[after.trades_60s[i].user_account].last_trade_ts
    } by {
        if i < s.trades_60s.len() {
            assert(after.trades_60s[i] == s.trades_60s[i]);
        }
    }
    assert forall|w: Seq<char>| #[trigger]
        trades_by(after.trades_60s, w).len() <= activity_count(after.wallet_activity_60s, w) by {
        lemma_filter_push(s.trades_60s, stored, |t: TradeEventView| t.user_account == w);
        assert(trades_by(s.trades_60s, w).len() <= activity_count(s.wallet_activity_60s, w));
    }
}

/// Eviction keeps the 60 s window covered.
pub proof fn lemma_evict_keeps_activity(s: RollingStateView, now: int)
    requires
        activity_covers_window(s),
    ensures
        activity_covers_window(s.evict_old_trades(now)),
{
    let after = s.evict_old_trades(now);
    let cutoff = now - 60;
    lemma_recent_all(s.trades_60s, cutoff);
    assert forall|i: int| 0 <= i < after.trades_60s.len() implies {
        &&& after.wallet_activity_60s.dom().contains((#[trigger] after.trades_60s[i]).user_account)
        &&& after.trades_60s[i].timestamp
            <= after.wallet_activity_60s[after.trades_60s[i].user_account].last_trade_ts
    } by {
        let t = after.trades_60s[i];
        assert(s.trades_60s.contains(t));
        let j = choose|j: int| 0 <= j < s.trades_60s.len() && s.trades_60s[j] == t;
        assert(s.wallet_activity_60s.dom().contains(s.trades_60s[j].user_account));
    }
    assert forall|w: Seq<char>| #[trigger]
        trades_by(after.trades_60s, w).len() <= activity_count(after.wallet_activity_60s, w) by {
        let mine = |t: TradeEventView| t.user_account == w;
        let fresh = |t: TradeEventView| t.timestamp >= cutoff;
        assert(trades_by(s.trades_60s, w).len() <= activity_count(s.wallet_activity_60s, w));
        lemma_filter_commutes(s.trades_60s, fresh, mine);
        lemma_filter_len(trades_by(s.trades_60s, w), fresh);
        if !after.wallet_activity_60s.dom().contains(w) {
            let left = trades_by(after.trades_60s, w);
            if left.len() > 0 {
                lemma_filter_all(after.trades_60s, mine);
                let t = left[0];
                assert(after.trades_60s.contains(t));
                let k = choose|k: int| 0 <= k < after.trades_60s.len() && after.trades_60s[k] == t;
                assert(after.wallet_activity_60s.dom().contains(
                    after.trades_60s[k].user_account,
                ));
            }
        }
    }
}

/// With the 60 s window covered, a trade of a wallet that has one trade
/// less than the threshold in that window, or more, is stored as a bot
/// trade, and the wallet is among the bot wallets.
pub proof fn lemma_repeated_trader_is_flagged(s: RollingStateView, e: TradeEventView)
    requires
        activity_covers_window(s),
        trades_by(s.trades_60s, e.user_account).len() + 1 >= BOT_TRADE_THRESHOLD,
    ensures
        s.stored_trade(e).is_bot,
        s.add_trade(e).trades_60s.last().is_bot,
        s.add_trade(e).trades_300s.last().is_bot,
        s.add_trade(e).bot_wallets_300s.contains(e.user_account),
{
    assert(trades_by(s.trades_60s, e.user_account).len() <= activity_count(
        s.wallet_activity_60s,
        e.user_account,
    ));
}

} // verus!
