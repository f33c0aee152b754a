//! Per-token rolling state: six nested time windows of trades with online
//! bot classification, distinct-wallet tracking and tracking of
//! dollar-cost-averaging buys.

use vstd::prelude::*;
use vstd::hash_set::StringHashSet;
use std::collections::VecDeque;
use crate::activity::{ActivityView, WalletActivityMap, active_since, activity_count};
use crate::fixed::{MAX_FLOW, MAX_SOL_AMOUNT, ratio_ppm, signed_ratio};
use crate::invariants::{lemma_eviction_bounds_windows, none_older};
use crate::program_trades::{ProgramTradesMap, recent_by_program, trades_of};
use crate::sequences::lemma_filter_len;
use crate::types::{TradeDirection, TradeEvent, TradeEventView, trade_views};
use crate::windows::{
    MAX_WINDOW_TRADES, amounts_within, bot_totals, bot_trades, buys, dca_totals, dca_trades,
    drop_expired, lemma_amounts_within_push, lemma_amounts_within_recent, lemma_trade_views_push,
    lemma_trade_views_take, lemma_wallet_set_empty, lemma_wallet_set_len, lemma_wallet_set_push,
    net_flow, prune_expired, recent, retain_recent, sells, timestamp_values, wallet_set,
    window_totals,
};

verus! {

/// A wallet is classified as a bot once it has this many trades on record in
/// the shortest window.
pub const BOT_TRADE_THRESHOLD: i32 = 3;

/// Name of the program whose fills are dollar-cost-averaging purchases.
pub open spec fn dca_program() -> Seq<char> {
    "JupiterDCA"@
}

/// Whether a trade is a buy filled by the dollar-cost-averaging program.
pub open spec fn is_dca_buy(e: TradeEventView) -> bool {
    e.source_program == dca_program() && e.direction == TradeDirection::Buy
}

/// Snapshot of the statistics of one token. Flows are in lamports, the
/// ratio in millionths.
#[derive(Debug, Clone, Copy)]
pub struct RollingMetrics {
    pub net_flow_60s_sol: i128,
    pub net_flow_300s_sol: i128,
    pub net_flow_900s_sol: i128,
    pub net_flow_3600s_sol: i128,
    pub net_flow_7200s_sol: i128,
    pub net_flow_14400s_sol: i128,
    pub buy_count_60s: i32,
    pub sell_count_60s: i32,
    pub buy_count_300s: i32,
    pub sell_count_300s: i32,
    pub buy_count_900s: i32,
    pub sell_count_900s: i32,
    pub unique_wallets_300s: i32,
    pub bot_wallets_count_300s: i32,
    pub bot_trades_count_300s: i32,
    pub bot_flow_300s_sol: i128,
    pub dca_buys_60s: i32,
    pub dca_buys_300s: i32,
    pub dca_buys_900s: i32,
    pub dca_buys_3600s: i32,
    pub dca_buys_14400s: i32,
    pub dca_flow_300s_sol: i128,
    pub dca_unique_wallets_300s: i32,
    pub dca_ratio_300s: i128,
}

/// Mathematical value of a [`RollingMetrics`].
pub struct RollingMetricsView {
    pub net_flow_60s_sol: int,
    pub net_flow_300s_sol: int,
    pub net_flow_900s_sol: int,
    pub net_flow_3600s_sol: int,
    pub net_flow_7200s_sol: int,
    pub net_flow_14400s_sol: int,
    pub buy_count_60s: int,
    pub sell_count_60s: int,
    pub buy_count_300s: int,
    pub sell_count_300s: int,
    pub buy_count_900s: int,
    pub sell_count_900s: int,
    pub unique_wallets_300s: int,
    pub bot_wallets_count_300s: int,
    pub bot_trades_count_300s: int,
    pub bot_flow_300s_sol: int,
    pub dca_buys_60s: int,
    pub dca_buys_300s: int,
    pub dca_buys_900s: int,
    pub dca_buys_3600s: int,
    pub dca_buys_14400s: int,
    pub dca_flow_300s_sol: int,
    pub dca_unique_wallets_300s: int,
    pub dca_ratio_300s: int,
}

impl View for RollingMetrics {
    type V = RollingMetricsView;

    open spec fn view(&self) -> RollingMetricsView {
        RollingMetricsView {
            net_flow_60s_sol: self.net_flow_60s_sol as int,
            net_flow_300s_sol: self.net_flow_300s_sol as int,
            net_flow_900s_sol: self.net_flow_900s_sol as int,
            net_flow_3600s_sol: self.net_flow_3600s_sol as int,
            net_flow_7200s_sol: self.net_flow_7200s_sol as int,
            net_flow_14400s_sol: self.net_flow_14400s_sol as int,
            buy_count_60s: self.buy_count_60s as int,
            sell_count_60s: self.sell_count_60s as int,
            buy_count_300s: self.buy_count_300s as int,
            sell_count_300s: self.sell_count_300s as int,
            buy_count_900s: self.buy_count_900s as int,
            sell_count_900s: self.sell_count_900s as int,
            unique_wallets_300s: self.unique_wallets_300s as int,
            bot_wallets_count_300s: self.bot_wallets_count_300s as int,
            bot_trades_count_300s: self.bot_trades_count_300s as int,
            bot_flow_300s_sol: self.bot_flow_300s_sol as int,
            dca_buys_60s: self.dca_buys_60s as int,
            dca_buys_300s: self.dca_buys_300s as int,
            dca_buys_900s: self.dca_buys_900s as int,
            dca_buys_3600s: self.dca_buys_3600s as int,
            dca_buys_14400s: self.dca_buys_14400s as int,
            dca_flow_300s_sol: self.dca_flow_300s_sol as int,
            dca_unique_wallets_300s: self.dca_unique_wallets_300s as int,
            dca_ratio_300s: self.dca_ratio_300s as int,
        }
    }
}

impl RollingMetricsView {
    /// Counts are not negative, the buys and sells of a window fit a 32-bit
    /// count together, and every flow is one that a window can have.
    pub open spec fn wf(self) -> bool {
        &&& -MAX_FLOW <= self.net_flow_60s_sol <= MAX_FLOW
        &&& -MAX_FLOW <= self.net_flow_300s_sol <= MAX_FLOW
        &&& -MAX_FLOW <= self.net_flow_900s_sol <= MAX_FLOW
        &&& -MAX_FLOW <= self.net_flow_3600s_sol <= MAX_FLOW
        &&& -MAX_FLOW <= self.net_flow_7200s_sol <= MAX_FLOW
        &&& -MAX_FLOW <= self.net_flow_14400s_sol <= MAX_FLOW
        &&& -MAX_FLOW <= self.bot_flow_300s_sol <= MAX_FLOW
        &&& -MAX_FLOW <= self.dca_flow_300s_sol <= MAX_FLOW
        &&& 0 <= self.buy_count_60s
        &&& 0 <= self.sell_count_60s
        &&& self.buy_count_60s + self.sell_count_60s <= i32::MAX
        &&& 0 <= self.buy_count_300s
        &&& 0 <= self.sell_count_300s
        &&& self.buy_count_300s + self.sell_count_300s <= i32::MAX
        &&& 0 <= self.buy_count_900s
        &&& 0 <= self.sell_count_900s
        &&& self.buy_count_900s + self.sell_count_900s <= i32::MAX
        &&& 0 <= self.unique_wallets_300s
        &&& 0 <= self.bot_wallets_count_300s
        &&& 0 <= self.bot_trades_count_300s
        &&& 0 <= self.dca_buys_60s
        &&& 0 <= self.dca_buys_300s
        &&& 0 <= self.dca_buys_900s
        &&& 0 <= self.dca_buys_3600s
        &&& 0 <= self.dca_buys_14400s
        &&& 0 <= self.dca_unique_wallets_300s
    }
}

impl RollingMetrics {
    /// Whether the snapshot is one that the detectors and the aggregate
    /// builder accept.
    pub fn is_well_formed(&self) -> (ok: bool)
        ensures
            ok == self@.wf(),
    {
        let flows_ok = -MAX_FLOW <= self.net_flow_60s_sol && self.net_flow_60s_sol <= MAX_FLOW
            && -MAX_FLOW <= self.net_flow_300s_sol && self.net_flow_300s_sol <= MAX_FLOW
            && -MAX_FLOW <= self.net_flow_900s_sol && self.net_flow_900s_sol <= MAX_FLOW
            && -MAX_FLOW <= self.net_flow_3600s_sol && self.net_flow_3600s_sol <= MAX_FLOW
            && -MAX_FLOW <= self.net_flow_7200s_sol && self.net_flow_7200s_sol <= MAX_FLOW
            && -MAX_FLOW <= self.net_flow_14400s_sol && self.net_flow_14400s_sol <= MAX_FLOW
            && -MAX_FLOW <= self.bot_flow_300s_sol && self.bot_flow_300s_sol <= MAX_FLOW
            && -MAX_FLOW <= self.dca_flow_300s_sol && self.dca_flow_300s_sol <= MAX_FLOW;
        let trades_ok = 0 <= self.buy_count_60s && 0 <= self.sell_count_60s
            && self.buy_count_60s <= i32::MAX - self.sell_count_60s && 0 <= self.buy_count_300s
            && 0 <= self.sell_count_300s && self.buy_count_300s <= i32::MAX
            - self.sell_count_300s && 0 <= self.buy_count_900s && 0 <= self.sell_count_900s
            && self.buy_count_900s <= i32::MAX - self.sell_count_900s;
        let counts_ok = 0 <= self.unique_wallets_300s && 0 <= self.bot_wallets_count_300s && 0
            <= self.bot_trades_count_300s && 0 <= self.dca_buys_60s && 0 <= self.dca_buys_300s
            && 0 <= self.dca_buys_900s && 0 <= self.dca_buys_3600s && 0 <= self.dca_buys_14400s
            && 0 <= self.dca_unique_wallets_300s;
        flows_ok && trades_ok && counts_ok
    }
}

/// Mathematical value of a [`TokenRollingState`].
pub struct RollingStateView {
    pub mint: Seq<char>,
    pub last_seen_ts: int,
    pub trades_60s: Seq<TradeEventView>,
    pub trades_300s: Seq<TradeEventView>,
    pub trades_900s: Seq<TradeEventView>,
    pub trades_3600s: Seq<TradeEventView>,
    pub trades_7200s: Seq<TradeEventView>,
    pub trades_14400s: Seq<TradeEventView>,
    pub unique_wallets_300s: Set<Seq<char>>,
    pub bot_wallets_300s: Set<Seq<char>>,
    pub wallet_activity_60s: Map<Seq<char>, ActivityView>,
    pub trades_by_program: Map<Seq<char>, Seq<TradeEventView>>,
    pub dca_timestamps_60s: Seq<int>,
    pub dca_timestamps_300s: Seq<int>,
    pub dca_timestamps_900s: Seq<int>,
    pub dca_timestamps_3600s: Seq<int>,
    pub dca_timestamps_14400s: Seq<int>,
}

impl RollingStateView {
    /// The state of a token that has not traded yet.
    pub open spec fn empty(mint: Seq<char>) -> RollingStateView {
        RollingStateView {
            mint,
            last_seen_ts: 0,
            trades_60s: Seq::empty(),
            trades_300s: Seq::empty(),
            trades_900s: Seq::empty(),
            trades_3600s: Seq::empty(),
            trades_7200s: Seq::empty(),
            trades_14400s: Seq::empty(),
            unique_wallets_300s: Set::empty(),
            bot_wallets_300s: Set::empty(),
            wallet_activity_60s: Map::empty(),
            trades_by_program: Map::empty(),
            dca_timestamps_60s: Seq::empty(),
            dca_timestamps_300s: Seq::empty(),
            dca_timestamps_900s: Seq::empty(),
            dca_timestamps_3600s: Seq::empty(),
            dca_timestamps_14400s: Seq::empty(),
        }
    }

    /// Whether taking in `e` makes its wallet count as a bot: the wallet then
    /// has the threshold number of trades on record.
    pub open spec fn flags_bot(self, e: TradeEventView) -> bool {
        activity_count(self.wallet_activity_60s, e.user_account) + 1 >= BOT_TRADE_THRESHOLD
    }

    /// The trade as the windows store it: flagged where its wallet counts as
    /// a bot.
    pub open spec fn stored_trade(self, e: TradeEventView) -> TradeEventView {
        TradeEventView { is_bot: e.is_bot || self.flags_bot(e), ..e }
    }

    /// The state after taking in `e`.
    pub open spec fn add_trade(self, e: TradeEventView) -> RollingStateView {
        let stored = self.stored_trade(e);
        let activity = ActivityView {
            trade_count: activity_count(self.wallet_activity_60s, e.user_account) + 1,
            last_trade_ts: e.timestamp,
        };
        let stamps = |old: Seq<int>|
            if is_dca_buy(e) {
                old.push(e.timestamp)
            } else {
                old
            };
        RollingStateView {
            mint: self.mint,
            last_seen_ts: e.timestamp,
            trades_60s: self.trades_60s.push(stored),
            trades_300s: self.trades_300s.push(stored),
            trades_900s: self.trades_900s.push(stored),
            trades_3600s: self.trades_3600s.push(stored),
            trades_7200s: self.trades_7200s.push(stored),
            trades_14400s: self.trades_14400s.push(stored),
            unique_wallets_300s: self.unique_wallets_300s.insert(e.user_account),
            bot_wallets_300s: if self.flags_bot(e) {
                self.bot_wallets_300s.insert(e.user_account)
            } else {
                self.bot_wallets_300s
            },
            wallet_activity_60s: self.wallet_activity_60s.insert(e.user_account, activity),
            trades_by_program: self.trades_by_program.insert(
                e.source_program,
                trades_of(self.trades_by_program, e.source_program).push(stored),
            ),
            dca_timestamps_60s: stamps(self.dca_timestamps_60s),
            dca_timestamps_300s: stamps(self.dca_timestamps_300s),
            dca_timestamps_900s: stamps(self.dca_timestamps_900s),
            dca_timestamps_3600s: stamps(self.dca_timestamps_3600s),
            dca_timestamps_14400s: stamps(self.dca_timestamps_14400s),
        }
    }

    /// The state after eviction at time `now`: every window keeps the trades
    /// not older than its length, the wallets of the 300 s window are
    /// counted anew, and the set of bot wallets starts empty again.
    pub open spec fn evict_old_trades(self, now: int) -> RollingStateView {
        RollingStateView {
            mint: self.mint,
            last_seen_ts: self.last_seen_ts,
            trades_60s: recent(self.trades_60s, now - 60),
            trades_300s: recent(self.trades_300s, now - 300),
            trades_900s: recent(self.trades_900s, now - 900),
            trades_3600s: recent(self.trades_3600s, now - 3600),
            trades_7200s: recent(self.trades_7200s, now - 7200),
            trades_14400s: recent(self.trades_14400s, now - 14400),
            unique_wallets_300s: wallet_set(recent(self.trades_300s, now - 300)),
            bot_wallets_300s: Set::empty(),
            wallet_activity_60s: active_since(self.wallet_activity_60s, now - 60),
            trades_by_program: recent_by_program(self.trades_by_program, now - 14400),
            dca_timestamps_60s: drop_expired(self.dca_timestamps_60s, now - 60),
            dca_timestamps_300s: drop_expired(self.dca_timestamps_300s, now - 300),
            dca_timestamps_900s: drop_expired(self.dca_timestamps_900s, now - 900),
            dca_timestamps_3600s: drop_expired(self.dca_timestamps_3600s, now - 3600),
            dca_timestamps_14400s: drop_expired(self.dca_timestamps_14400s, now - 14400),
        }
    }

    /// The statistics of the state as it stands.
    pub open spec fn rolling_metrics(self) -> RollingMetricsView {
        RollingMetricsView {
            net_flow_60s_sol: net_flow(self.trades_60s),
            net_flow_300s_sol: net_flow(self.trades_300s),
            net_flow_900s_sol: net_flow(self.trades_900s),
            net_flow_3600s_sol: net_flow(self.trades_3600s),
            net_flow_7200s_sol: net_flow(self.trades_7200s),
            net_flow_14400s_sol: net_flow(self.trades_14400s),
            buy_count_60s: buys(self.trades_60s).len() as int,
            sell_count_60s: sells(self.trades_60s).len() as int,
            buy_count_300s: buys(self.trades_300s).len() as int,
            sell_count_300s: sells(self.trades_300s).len() as int,
            buy_count_900s: buys(self.trades_900s).len() as int,
            sell_count_900s: sells(self.trades_900s).len() as int,
            unique_wallets_300s: self.unique_wallets_300s.len() as int,
            bot_wallets_count_300s: self.bot_wallets_300s.len() as int,
            bot_trades_count_300s: bot_trades(self.trades_300s).len() as int,
            bot_flow_300s_sol: net_flow(bot_trades(self.trades_300s)),
            dca_buys_60s: self.dca_timestamps_60s.len() as int,
            dca_buys_300s: self.dca_timestamps_300s.len() as int,
            dca_buys_900s: self.dca_timestamps_900s.len() as int,
            dca_buys_3600s: self.dca_timestamps_3600s.len() as int,
            dca_buys_14400s: self.dca_timestamps_14400s.len() as int,
            dca_flow_300s_sol: net_flow(dca_trades(self.trades_300s)),
            dca_unique_wallets_300s: wallet_set(dca_trades(self.trades_300s)).len() as int,
            dca_ratio_300s: ratio_ppm(
                net_flow(dca_trades(self.trades_300s)),
                net_flow(self.trades_300s),
            ),
        }
    }

    /// What the consistency check of a snapshot against the state asks for.
    pub open spec fn metrics_consistent(self, m: RollingMetricsView) -> bool {
        &&& self.trades_60s.len() > 0 ==> self.trades_60s.first().timestamp
            <= self.trades_60s.last().timestamp
        &&& m.unique_wallets_300s <= m.buy_count_300s + m.sell_count_300s
        &&& dca_trades(self.trades_300s).len() == m.dca_buys_300s
        &&& m.bot_trades_count_300s <= m.buy_count_300s + m.sell_count_300s
    }

    /// The wallet sets agree with the 300 s window: the distinct wallets are
    /// those of its trades, and every bot wallet is among them.
    pub open spec fn inv(self) -> bool {
        &&& self.unique_wallets_300s == wallet_set(self.trades_300s)
        &&& self.bot_wallets_300s.subset_of(self.unique_wallets_300s)
    }

    /// No window and no queue of timestamps holds more than a 32-bit count
    /// can say, and no trade in a window carries more than the largest
    /// amount.
    pub open spec fn within_limits(self) -> bool {
        &&& amounts_within(self.trades_60s)
        &&& amounts_within(self.trades_300s)
        &&& amounts_within(self.trades_900s)
        &&& amounts_within(self.trades_3600s)
        &&& amounts_within(self.trades_7200s)
        &&& amounts_within(self.trades_14400s)
        &&& self.trades_60s.len() <= MAX_WINDOW_TRADES
        &&& self.trades_300s.len() <= MAX_WINDOW_TRADES
        &&& self.trades_900s.len() <= MAX_WINDOW_TRADES
        &&& self.trades_3600s.len() <= MAX_WINDOW_TRADES
        &&& self.trades_7200s.len() <= MAX_WINDOW_TRADES
        &&& self.trades_14400s.len() <= MAX_WINDOW_TRADES
        &&& self.dca_timestamps_60s.len() <= MAX_WINDOW_TRADES
        &&& self.dca_timestamps_300s.len() <= MAX_WINDOW_TRADES
        &&& self.dca_timestamps_900s.len() <= MAX_WINDOW_TRADES
        &&& self.dca_timestamps_3600s.len() <= MAX_WINDOW_TRADES
        &&& self.dca_timestamps_14400s.len() <= MAX_WINDOW_TRADES
    }

    /// Taking in `e` overflows no window, no queue, no counter and no sum of
    /// amounts.
    pub open spec fn has_room(self, e: TradeEventView) -> bool {
        &&& e.sol_amount <= MAX_SOL_AMOUNT
        &&& self.trades_60s.len() < MAX_WINDOW_TRADES
        &&& self.trades_300s.len() < MAX_WINDOW_TRADES
        &&& self.trades_900s.len() < MAX_WINDOW_TRADES
        &&& self.trades_3600s.len() < MAX_WINDOW_TRADES
        &&& self.trades_7200s.len() < MAX_WINDOW_TRADES
        &&& self.trades_14400s.len() < MAX_WINDOW_TRADES
        &&& is_dca_buy(e) ==> {
            &&& self.dca_timestamps_60s.len() < MAX_WINDOW_TRADES
            &&& self.dca_timestamps_300s.len() < MAX_WINDOW_TRADES
            &&& self.dca_timestamps_900s.len() < MAX_WINDOW_TRADES
            &&& self.dca_timestamps_3600s.len() < MAX_WINDOW_TRADES
            &&& self.dca_timestamps_14400s.len() < MAX_WINDOW_TRADES
        }
        &&& activity_count(self.wallet_activity_60s, e.user_account) < i32::MAX
    }
}

/// Rolling state of one token.
///
/// The six windows hold the trades of the last 60, 300, 900, 3600, 7200 and
/// 14400 seconds as of the latest eviction, each in order of arrival.
pub struct TokenRollingState {
    pub mint: String,
    pub last_seen_ts: i64,
    pub trades_60s: Vec<TradeEvent>,
    pub trades_300s: Vec<TradeEvent>,
    pub trades_900s: Vec<TradeEvent>,
    pub trades_3600s: Vec<TradeEvent>,
    pub trades_7200s: Vec<TradeEvent>,
    pub trades_14400s: Vec<TradeEvent>,
    pub unique_wallets_300s: StringHashSet,
    pub bot_wallets_300s: StringHashSet,
    pub wallet_activity_60s: WalletActivityMap,
    pub trades_by_program: ProgramTradesMap,
    pub dca_timestamps_60s: VecDeque<i64>,
    pub dca_timestamps_300s: VecDeque<i64>,
    pub dca_timestamps_900s: VecDeque<i64>,
    pub dca_timestamps_3600s: VecDeque<i64>,
    pub dca_timestamps_14400s: VecDeque<i64>,
}

impl View for TokenRollingState {
    type V = RollingStateView;

    open spec fn view(&self) -> RollingStateView {
        RollingStateView {
            mint: self.mint@,
            last_seen_ts: self.last_seen_ts as int,
            trades_60s: trade_views(self.trades_60s@),
            trades_300s: trade_views(self.trades_300s@),
            trades_900s: trade_views(self.trades_900s@),
            trades_3600s: trade_views(self.trades_3600s@),
            trades_7200s: trade_views(self.trades_7200s@),
            trades_14400s: trade_views(self.trades_14400s@),
            unique_wallets_300s: self.unique_wallets_300s@,
            bot_wallets_300s: self.bot_wallets_300s@,
            wallet_activity_60s: self.wallet_activity_60s@,
            trades_by_program: self.trades_by_program@,
            dca_timestamps_60s: timestamp_values(self.dca_timestamps_60s@),
            dca_timestamps_300s: timestamp_values(self.dca_timestamps_300s@),
            dca_timestamps_900s: timestamp_values(self.dca_timestamps_900s@),
            dca_timestamps_3600s: timestamp_values(self.dca_timestamps_3600s@),
            dca_timestamps_14400s: timestamp_values(self.dca_timestamps_14400s@),
        }
    }
}

/// Whether `program` names the dollar-cost-averaging program.
fn is_dca_program(program: &String) -> (res: bool)
    ensures
        res == (program@ == dca_program()),
{
    let name = "JupiterDCA".to_owned();
    *program == name
}

impl TokenRollingState {
    /// The two maps are free of repetition, the wallet sets agree with the
    /// 300 s window, and nothing is over its limit.
    pub open spec fn wf(&self) -> bool {
        &&& self.wallet_activity_60s.wf()
        &&& self.trades_by_program.wf()
        &&& self@.inv()
        &&& self@.within_limits()
    }

    /// The state of a token that has not traded yet.
    pub fn new(mint: String) -> (res: Self)
        ensures
            res.wf(),
            res@ == RollingStateView::empty(mint@),
    {
        let res = TokenRollingState {
            mint,
            last_seen_ts: 0,
            trades_60s: Vec::with_capacity(100),
            trades_300s: Vec::with_capacity(500),
            trades_900s: Vec::with_capacity(1500),
            trades_3600s: Vec::with_capacity(6000),
            trades_7200s: Vec::with_capacity(12000),
            trades_14400s: Vec::with_capacity(24000),
            unique_wallets_300s: StringHashSet::new(),
            bot_wallets_300s: StringHashSet::new(),
            wallet_activity_60s: WalletActivityMap::new(),
            trades_by_program: ProgramTradesMap::new(),
            dca_timestamps_60s: VecDeque::with_capacity(10),
            dca_timestamps_300s: VecDeque::with_capacity(50),
            dca_timestamps_900s: VecDeque::with_capacity(150),
            dca_timestamps_3600s: VecDeque::with_capacity(600),
            dca_timestamps_14400s: VecDeque::with_capacity(2400),
        };
        proof {
            lemma_wallet_set_empty();
            assert(trade_views(Seq::<TradeEvent>::empty()) =~= Seq::<TradeEventView>::empty());
            assert(timestamp_values(Seq::<i64>::empty()) =~= Seq::<int>::empty());
        }
        res
    }

    /// Whether `trade` can be taken in without overflowing a window, a
    /// queue, a counter or a sum of amounts.
    pub fn can_add_trade(&self, trade: &TradeEvent) -> (ok: bool)
        requires
            self.wf(),
        ensures
            ok == self@.has_room(trade@),
    {
        let windows_ok = self.trades_60s.len() < MAX_WINDOW_TRADES && self.trades_300s.len()
            < MAX_WINDOW_TRADES && self.trades_900s.len() < MAX_WINDOW_TRADES
            && self.trades_3600s.len() < MAX_WINDOW_TRADES && self.trades_7200s.len()
            < MAX_WINDOW_TRADES && self.trades_14400s.len() < MAX_WINDOW_TRADES;
        let dca_buy = is_dca_program(&trade.source_program) && trade.direction
            == TradeDirection::Buy;
        let queues_ok = !dca_buy || (self.dca_timestamps_60s.len() < MAX_WINDOW_TRADES
            && self.dca_timestamps_300s.len() < MAX_WINDOW_TRADES
            && self.dca_timestamps_900s.len() < MAX_WINDOW_TRADES
            && self.dca_timestamps_3600s.len() < MAX_WINDOW_TRADES
            && self.dca_timestamps_14400s.len() < MAX_WINDOW_TRADES);
        let count_ok = self.wallet_activity_60s.count_of(&trade.user_account) < i32::MAX;
        trade.sol_amount <= MAX_SOL_AMOUNT && windows_ok && queues_ok && count_ok
    }

    /// Takes in one trade: records the wallet's activity, flags the trade
    /// and the wallet where the wallet now counts as a bot, and appends the
    /// trade to every window.
    pub fn add_trade(&mut self, trade: TradeEvent)
        requires
            old(self).wf(),
            old(self)@.has_room(trade@),
        ensures
            final(self).wf(),
            final(self)@ == old(self)@.add_trade(trade@),
    {
        let ghost before = self@;
        let mut trade = trade;
        self.last_seen_ts = trade.timestamp;

        let count = self.wallet_activity_60s.record(&trade.user_account, trade.timestamp);
        if count >= BOT_TRADE_THRESHOLD {
            trade.is_bot = true;
            self.bot_wallets_300s.insert(trade.user_account.clone());
        }
        self.unique_wallets_300s.insert(trade.user_account.clone());
        let ghost stored = trade@;

        self.trades_by_program.append(&trade.source_program, trade.clone());

        if is_dca_program(&trade.source_program) && trade.direction == TradeDirection::Buy {
            let timestamp = trade.timestamp;
            proof {
                let t = timestamp;
                assert(timestamp_values(self.dca_timestamps_60s@.push(t)) =~= timestamp_values(
                    self.dca_timestamps_60s@,
                ).push(t as int));
                assert(timestamp_values(self.dca_timestamps_300s@.push(t)) =~= timestamp_values(
                    self.dca_timestamps_300s@,
                ).push(t as int));
                assert(timestamp_values(self.dca_timestamps_900s@.push(t)) =~= timestamp_values(
                    self.dca_timestamps_900s@,
                ).push(t as int));
                assert(timestamp_values(self.dca_timestamps_3600s@.push(t)) =~= timestamp_values(
                    self.dca_timestamps_3600s@,
                ).push(t as int));
                assert(timestamp_values(self.dca_timestamps_14400s@.push(t)) =~= timestamp_values(
                    self.dca_timestamps_14400s@,
                ).push(t as int));
            }
            self.dca_timestamps_60s.push_back(timestamp);
            self.dca_timestamps_300s.push_back(timestamp);
            self.dca_timestamps_900s.push_back(timestamp);
            self.dca_timestamps_3600s.push_back(timestamp);
            self.dca_timestamps_14400s.push_back(timestamp);
        }
        proof {
            lemma_trade_views_push(self.trades_60s@, trade);
            lemma_trade_views_push(self.trades_300s@, trade);
            lemma_trade_views_push(self.trades_900s@, trade);
            lemma_trade_views_push(self.trades_3600s@, trade);
            lemma_trade_views_push(self.trades_7200s@, trade);
            lemma_trade_views_push(self.trades_14400s@, trade);
            lemma_wallet_set_push(before.trades_300s, stored);
            lemma_amounts_within_push(before.trades_60s, stored);
            lemma_amounts_within_push(before.trades_300s, stored);
            lemma_amounts_within_push(before.trades_900s, stored);
            lemma_amounts_within_push(before.trades_3600s, stored);
            lemma_amounts_within_push(before.trades_7200s, stored);
            lemma_amounts_within_push(before.trades_14400s, stored);
        }
        self.trades_60s.push(trade.clone());
        self.trades_300s.push(trade.clone());
        self.trades_900s.push(trade.clone());
        self.trades_3600s.push(trade.clone());
        self.trades_7200s.push(trade.clone());
        self.trades_14400s.push(trade);
    }

    /// Evicts what has left each window as of `now`, counts the wallets of
    /// the 300 s window anew and empties the set of bot wallets. The wallet
    /// sets need not agree with the 300 s window beforehand; they do
    /// afterwards.
    pub fn evict_old_trades(&mut self, now: i64)
        requires
            old(self).wallet_activity_60s.wf(),
            old(self).trades_by_program.wf(),
            old(self)@.within_limits(),
            now - 14400 >= i64::MIN,
        ensures
            final(self).wf(),
            final(self)@ == old(self)@.evict_old_trades(now as int),
            none_older(final(self)@.trades_60s, now - 60),
            none_older(final(self)@.trades_300s, now - 300),
            none_older(final(self)@.trades_900s, now - 900),
            none_older(final(self)@.trades_3600s, now - 3600),
            none_older(final(self)@.trades_7200s, now - 7200),
            none_older(final(self)@.trades_14400s, now - 14400),
    {
        proof {
            lemma_eviction_bounds_windows(self@, now as int);
            lemma_amounts_within_recent(self@.trades_60s, now - 60);
            lemma_amounts_within_recent(self@.trades_300s, now - 300);
            lemma_amounts_within_recent(self@.trades_900s, now - 900);
            lemma_amounts_within_recent(self@.trades_3600s, now - 3600);
            lemma_amounts_within_recent(self@.trades_7200s, now - 7200);
            lemma_amounts_within_recent(self@.trades_14400s, now - 14400);
        }
        let cutoff_60s = now - 60;
        let cutoff_300s = now - 300;
        let cutoff_900s = now - 900;
        let cutoff_3600s = now - 3600;
        let cutoff_7200s = now - 7200;
        let cutoff_14400s = now - 14400;

        self.wallet_activity_60s.retain_since(cutoff_60s);

        prune_expired(&mut self.dca_timestamps_60s, cutoff_60s);
        prune_expired(&mut self.dca_timestamps_300s, cutoff_300s);
        prune_expired(&mut self.dca_timestamps_900s, cutoff_900s);
        prune_expired(&mut self.dca_timestamps_3600s, cutoff_3600s);
        prune_expired(&mut self.dca_timestamps_14400s, cutoff_14400s);

        retain_recent(&mut self.trades_60s, cutoff_60s);
        retain_recent(&mut self.trades_300s, cutoff_300s);
        retain_recent(&mut self.trades_900s, cutoff_900s);
        retain_recent(&mut self.trades_3600s, cutoff_3600s);
        retain_recent(&mut self.trades_7200s, cutoff_7200s);
        retain_recent(&mut self.trades_14400s, cutoff_14400s);

        self.trades_by_program.retain_recent(cutoff_14400s);

        collect_wallets(&mut self.unique_wallets_300s, &self.trades_300s);
        self.bot_wallets_300s.clear();
    }

    /// The statistics of the state as it stands.
    pub fn compute_rolling_metrics(&self) -> (res: RollingMetrics)
        requires
            self.wf(),
        ensures
            res@ == self@.rolling_metrics(),
            res@.wf(),
    {
        let (net_flow_60s, buy_count_60s, sell_count_60s) = window_totals(&self.trades_60s);
        let (net_flow_300s, buy_count_300s, sell_count_300s) = window_totals(&self.trades_300s);
        let (net_flow_900s, buy_count_900s, sell_count_900s) = window_totals(&self.trades_900s);
        let (net_flow_3600s, _, _) = window_totals(&self.trades_3600s);
        let (net_flow_7200s, _, _) = window_totals(&self.trades_7200s);
        let (net_flow_14400s, _, _) = window_totals(&self.trades_14400s);

        let (bot_trades_count, bot_flow) = bot_totals(&self.trades_300s);
        let (dca_flow, dca_wallets) = dca_totals(&self.trades_300s);
        let dca_ratio = signed_ratio(dca_flow, net_flow_300s);

        proof {
            lemma_wallet_set_len(self@.trades_300s);
            vstd::set_lib::lemma_len_subset(self@.bot_wallets_300s, self@.unique_wallets_300s);
            lemma_wallet_set_len(dca_trades(self@.trades_300s));
            lemma_filter_len(self@.trades_300s, |t: TradeEventView| t.is_dca);
        }
        let unique_wallets: usize = self.unique_wallets_300s.len();
        let bot_wallets: usize = self.bot_wallets_300s.len();

        RollingMetrics {
            net_flow_60s_sol: net_flow_60s,
            net_flow_300s_sol: net_flow_300s,
            net_flow_900s_sol: net_flow_900s,
            net_flow_3600s_sol: net_flow_3600s,
            net_flow_7200s_sol: net_flow_7200s,
            net_flow_14400s_sol: net_flow_14400s,
            buy_count_60s,
            sell_count_60s,
            buy_count_300s,
            sell_count_300s,
            buy_count_900s,
            sell_count_900s,
            unique_wallets_300s: unique_wallets as i32,
            bot_wallets_count_300s: bot_wallets as i32,
            bot_trades_count_300s: bot_trades_count,
            bot_flow_300s_sol: bot_flow,
            dca_buys_60s: self.dca_timestamps_60s.len() as i32,
            dca_buys_300s: self.dca_timestamps_300s.len() as i32,
            dca_buys_900s: self.dca_timestamps_900s.len() as i32,
            dca_buys_3600s: self.dca_timestamps_3600s.len() as i32,
            dca_buys_14400s: self.dca_timestamps_14400s.len() as i32,
            dca_flow_300s_sol: dca_flow,
            dca_unique_wallets_300s: dca_wallets,
            dca_ratio_300s: dca_ratio,
        }
    }

    /// Checks a snapshot against the state: the 60 s window begins no later
    /// than it ends, there are no more distinct wallets and no more bot
    /// trades than buys and sells in the 300 s window, and the count of
    /// dollar-cost-averaging buys is that of the flagged trades there.
    pub fn verify_metrics(&self, metrics: &RollingMetrics) -> (valid: bool)
        requires
            self.wf(),
        ensures
            valid == self@.metrics_consistent(metrics@),
    {
        let mut valid = true;

        let n = self.trades_60s.len();
        if n > 0 {
            let first_ts = self.trades_60s[0].timestamp;
            let last_ts = self.trades_60s[n - 1].timestamp;
            if first_ts > last_ts {
                valid = false;
            }
        }
        let total_trades: i64 = metrics.buy_count_300s as i64 + metrics.sell_count_300s as i64;
        if metrics.unique_wallets_300s as i64 > total_trades {
            valid = false;
        }
        let dca_count = count_dca(&self.trades_300s);
        if dca_count != metrics.dca_buys_300s {
            valid = false;
        }
        if metrics.bot_trades_count_300s as i64 > total_trades {
            valid = false;
        }
        valid
    }
}

/// Replaces the contents of `wallets` by the distinct wallets of `trades`.
fn collect_wallets(wallets: &mut StringHashSet, trades: &Vec<TradeEvent>)
    ensures
        final(wallets)@ == wallet_set(trade_views(trades@)),
{
    wallets.clear();
    let n = trades.len();
    let mut i: usize = 0;
    proof {
        lemma_wallet_set_empty();
        assert(trade_views(trades@).take(0) =~= Seq::<TradeEventView>::empty());
    }
    while i < n
        invariant
            n == trades.len(),
            i <= n,
            wallets@ == wallet_set(trade_views(trades@).take(i as int)),
        decreases n - i,
    {
        proof {
            lemma_trade_views_take(trades@, i as int);
            lemma_wallet_set_push(trade_views(trades@).take(i as int), trades@[i as int]@);
        }
        wallets.insert(trades[i].user_account.clone());
        i = i + 1;
    }
    proof {
        assert(trade_views(trades@).take(n as int) =~= trade_views(trades@));
    }
}

/// Number of trades flagged as dollar-cost-averaging fills.
fn count_dca(trades: &Vec<TradeEvent>) -> (count: i32)
    requires
        trades.len() <= MAX_WINDOW_TRADES,
    ensures
        count == dca_trades(trade_views(trades@)).len(),
{
    let mut count: i32 = 0;
    let ghost all = trade_views(trades@);
    let n = trades.len();
    let mut i: usize = 0;
    proof {
        assert(all.take(0) =~= Seq::<TradeEventView>::empty());
        reveal(Seq::filter);
    }
    while i < n
        invariant
            n == trades.len(),
            n <= MAX_WINDOW_TRADES,
            all == trade_views(trades@),
            i <= n,
            count == dca_trades(all.take(i as int)).len(),
            count <= i,
        decreases n - i,
    {
        proof {
            lemma_trade_views_take(trades@, i as int);
            crate::sequences::lemma_filter_push(
                all.take(i as int),
                trades@[i as int]@,
                |t: TradeEventView| t.is_dca,
            );
        }
        if trades[i].is_dca {
            count = count + 1;
        }
        i = i + 1;
    }
    proof {
        assert(all.take(n as int) =~= all);
    }
    count
}

} // verus!
