//! Core value types: the normalized trade record and token descriptions.

use vstd::prelude::*;
use crate::fixed::MAX_FLOW;
use crate::state::{RollingMetrics, RollingMetricsView};

verus! {

/// Number of lamports in one unit of the base currency.
pub const LAMPORTS_PER_SOL: u64 = 1_000_000_000;

/// Direction of a trade as seen from the token: a buy spends base currency,
/// a sell receives it.
#[derive(Debug, Clone, Copy, PartialEq, Eq, Structural)]
pub enum TradeDirection {
    Buy,
    Sell,
    Unknown,
}

/// Descriptive data of a token.
#[derive(Debug, Clone)]
pub struct TokenMetadata {
    pub mint: String,
    pub symbol: Option<String>,
    pub name: Option<String>,
    pub decimals: u8,
    pub launch_platform: Option<String>,
    pub pair_created_at: Option<i64>,
    pub created_at: i64,
    pub updated_at: i64,
}

/// One normalized trade.
///
/// `sol_amount` is the base-currency amount in lamports; its sign is carried
/// by `direction`. It is wide enough for the largest change a balance can
/// show over a transaction. `token_amount` is the raw token quantity.
#[derive(Debug)]
pub struct TradeEvent {
    pub timestamp: i64,
    pub mint: String,
    pub direction: TradeDirection,
    pub sol_amount: u128,
    pub token_amount: u64,
    pub token_decimals: u8,
    pub user_account: String,
    pub source_program: String,
    pub is_bot: bool,
    pub is_dca: bool,
}

/// Mathematical value of a [`TradeEvent`].
pub struct TradeEventView {
    pub timestamp: int,
    pub mint: Seq<char>,
    pub direction: TradeDirection,
    pub sol_amount: nat,
    pub token_amount: nat,
    pub token_decimals: nat,
    pub user_account: Seq<char>,
    pub source_program: Seq<char>,
    pub is_bot: bool,
    pub is_dca: bool,
}

impl View for TradeEvent {
    type V = TradeEventView;

    open spec fn view(&self) -> TradeEventView {
        TradeEventView {
            timestamp: self.timestamp as int,
            mint: self.mint@,
            direction: self.direction,
            sol_amount: self.sol_amount as nat,
            token_amount: self.token_amount as nat,
            token_decimals: self.token_decimals as nat,
            user_account: self.user_account@,
            source_program: self.source_program@,
            is_bot: self.is_bot,
            is_dca: self.is_dca,
        }
    }
}

impl Clone for TradeEvent {
    fn clone(&self) -> (res: Self)
        ensures
            res == *self,
    {
        TradeEvent {
            timestamp: self.timestamp,
            mint: self.mint.clone(),
            direction: self.direction,
            sol_amount: self.sol_amount,
            token_amount: self.token_amount,
            token_decimals: self.token_decimals,
            user_account: self.user_account.clone(),
            source_program: self.source_program.clone(),
            is_bot: self.is_bot,
            is_dca: self.is_dca,
        }
    }
}

/// The values of a sequence of trades, in order.
pub open spec fn trade_views(trades: Seq<TradeEvent>) -> Seq<TradeEventView> {
    trades.map_values(|t: TradeEvent| t@)
}

/// Name under which a token without a known launch platform is filed.
pub open spec fn unknown_source() -> Seq<char> {
    "unknown"@
}

/// The stored aggregate of a token: its rolling statistics with the token's
/// source and the times of its first and latest record. Flows, the volume
/// and the average trade size are in lamports.
#[derive(Debug, Clone)]
pub struct AggregatedTokenState {
    pub mint: String,
    pub source_program: String,
    pub last_trade_timestamp: Option<i64>,
    /// Price in millionths of a dollar; not filled in by the aggregation.
    pub price_usd: Option<u64>,
    /// Price in lamports; not filled in by the aggregation.
    pub price_sol: Option<u64>,
    /// Market capitalization in dollars; not filled in by the aggregation.
    pub market_cap_usd: Option<u64>,
    pub net_flow_60s_sol: Option<i128>,
    pub net_flow_300s_sol: Option<i128>,
    pub net_flow_900s_sol: Option<i128>,
    pub net_flow_3600s_sol: Option<i128>,
    pub net_flow_7200s_sol: Option<i128>,
    pub net_flow_14400s_sol: Option<i128>,
    pub buy_count_60s: Option<i32>,
    pub sell_count_60s: Option<i32>,
    pub buy_count_300s: Option<i32>,
    pub sell_count_300s: Option<i32>,
    pub buy_count_900s: Option<i32>,
    pub sell_count_900s: Option<i32>,
    pub unique_wallets_300s: Option<i32>,
    pub bot_trades_300s: Option<i32>,
    pub bot_wallets_300s: Option<i32>,
    pub avg_trade_size_300s_sol: Option<i128>,
    pub volume_300s_sol: Option<i128>,
    pub dca_buys_60s: Option<i32>,
    pub dca_buys_300s: Option<i32>,
    pub dca_buys_900s: Option<i32>,
    pub dca_buys_3600s: Option<i32>,
    pub dca_buys_14400s: Option<i32>,
    pub updated_at: i64,
    pub created_at: i64,
}

/// The launch platform that `metadata` names, where it names one.
pub open spec fn launch_platform_of(metadata: Option<&TokenMetadata>) -> Option<Seq<char>> {
    match metadata {
        Some(m) => match m.launch_platform {
            Some(p) => Some(p@),
            None => None,
        },
        None => None,
    }
}

/// The source under which a token is filed: its launch platform, and
/// "unknown" where none is known.
pub open spec fn source_of(metadata: Option<&TokenMetadata>) -> Seq<char> {
    match launch_platform_of(metadata) {
        Some(p) => p,
        None => unknown_source(),
    }
}

/// The creation time of a token: that of its metadata, and `now` where
/// there is none.
pub open spec fn created_at_of(metadata: Option<&TokenMetadata>, now: int) -> int {
    match metadata {
        Some(m) => m.created_at as int,
        None => now,
    }
}

/// Volume of the 300 s window: the magnitude of its net flow.
pub open spec fn volume_300s(m: RollingMetricsView) -> int {
    crate::fixed::magnitude(m.net_flow_300s_sol)
}

/// Average trade size of the 300 s window: its volume over its buys and
/// sells, rounded down; none where the window has neither.
pub open spec fn avg_trade_size_300s(m: RollingMetricsView) -> Option<int> {
    if m.buy_count_300s + m.sell_count_300s > 0 {
        Some(volume_300s(m) / (m.buy_count_300s + m.sell_count_300s))
    } else {
        None
    }
}

impl AggregatedTokenState {
    /// Whether the statistics of the aggregate are those of `m`, with the
    /// volume and average trade size derived from them and no prices.
    pub open spec fn holds_metrics(&self, m: RollingMetrics) -> bool {
        &&& self.price_usd is None
        &&& self.price_sol is None
        &&& self.market_cap_usd is None
        &&& self.net_flow_60s_sol == Some(m.net_flow_60s_sol)
        &&& self.net_flow_300s_sol == Some(m.net_flow_300s_sol)
        &&& self.net_flow_900s_sol == Some(m.net_flow_900s_sol)
        &&& self.net_flow_3600s_sol == Some(m.net_flow_3600s_sol)
        &&& self.net_flow_7200s_sol == Some(m.net_flow_7200s_sol)
        &&& self.net_flow_14400s_sol == Some(m.net_flow_14400s_sol)
        &&& self.buy_count_60s == Some(m.buy_count_60s)
        &&& self.sell_count_60s == Some(m.sell_count_60s)
        &&& self.buy_count_300s == Some(m.buy_count_300s)
        &&& self.sell_count_300s == Some(m.sell_count_300s)
        &&& self.buy_count_900s == Some(m.buy_count_900s)
        &&& self.sell_count_900s == Some(m.sell_count_900s)
        &&& self.unique_wallets_300s == Some(m.unique_wallets_300s)
        &&& self.bot_trades_300s == Some(m.bot_trades_count_300s)
        &&& self.bot_wallets_300s == Some(m.bot_wallets_count_300s)
        &&& match self.avg_trade_size_300s_sol {
            Some(size) => avg_trade_size_300s(m@) == Some(size as int),
            None => avg_trade_size_300s(m@) is None,
        }
        &&& match self.volume_300s_sol {
            Some(volume) => volume == volume_300s(m@),
            None => false,
        }
        &&& self.dca_buys_60s == Some(m.dca_buys_60s)
        &&& self.dca_buys_300s == Some(m.dca_buys_300s)
        &&& self.dca_buys_900s == Some(m.dca_buys_900s)
        &&& self.dca_buys_3600s == Some(m.dca_buys_3600s)
        &&& self.dca_buys_14400s == Some(m.dca_buys_14400s)
    }

    /// The aggregate of `mint` from a snapshot of its statistics: filed
    /// under the launch platform of `metadata`, created when `metadata` says
    /// and else at `now`, updated at `now`.
    pub fn from_metrics(
        mint: &str,
        metrics: &RollingMetrics,
        metadata: Option<&TokenMetadata>,
        last_trade_ts: i64,
        now: i64,
    ) -> (res: Self)
        requires
            metrics@.wf(),
        ensures
            res.mint@ == mint@,
            res.source_program@ == source_of(metadata),
            res.last_trade_timestamp == Some(last_trade_ts),
            res.holds_metrics(*metrics),
            res.updated_at == now,
            res.created_at == created_at_of(metadata, now as int),
    {
        let source_program = match metadata {
            Some(m) => match &m.launch_platform {
                Some(platform) => platform.clone(),
                None => "unknown".to_owned(),
            },
            None => "unknown".to_owned(),
        };
        let created_at = match metadata {
            Some(m) => m.created_at,
            None => now,
        };
        let avg_trade_size_300s_sol = Self::compute_avg_trade_size(metrics);
        let volume_300s_sol = Self::compute_volume_300s(metrics);

        AggregatedTokenState {
            mint: mint.to_owned(),
            source_program,
            last_trade_timestamp: Some(last_trade_ts),
            price_usd: None,
            price_sol: None,
            market_cap_usd: None,
            net_flow_60s_sol: Some(metrics.net_flow_60s_sol),
            net_flow_300s_sol: Some(metrics.net_flow_300s_sol),
            net_flow_900s_sol: Some(metrics.net_flow_900s_sol),
            net_flow_3600s_sol: Some(metrics.net_flow_3600s_sol),
            net_flow_7200s_sol: Some(metrics.net_flow_7200s_sol),
            net_flow_14400s_sol: Some(metrics.net_flow_14400s_sol),
            buy_count_60s: Some(metrics.buy_count_60s),
            sell_count_60s: Some(metrics.sell_count_60s),
            buy_count_300s: Some(metrics.buy_count_300s),
            sell_count_300s: Some(metrics.sell_count_300s),
            buy_count_900s: Some(metrics.buy_count_900s),
            sell_count_900s: Some(metrics.sell_count_900s),
            unique_wallets_300s: Some(metrics.unique_wallets_300s),
            bot_trades_300s: Some(metrics.bot_trades_count_300s),
            bot_wallets_300s: Some(metrics.bot_wallets_count_300s),
            avg_trade_size_300s_sol,
            volume_300s_sol: Some(volume_300s_sol),
            dca_buys_60s: Some(metrics.dca_buys_60s),
            dca_buys_300s: Some(metrics.dca_buys_300s),
            dca_buys_900s: Some(metrics.dca_buys_900s),
            dca_buys_3600s: Some(metrics.dca_buys_3600s),
            dca_buys_14400s: Some(metrics.dca_buys_14400s),
            updated_at: now,
            created_at,
        }
    }

    /// Average trade size of the 300 s window in lamports, rounded down;
    /// none where the window has neither buys nor sells.
    pub fn compute_avg_trade_size(metrics: &RollingMetrics) -> (res: Option<i128>)
        requires
            metrics@.wf(),
        ensures
            match res {
                Some(size) => avg_trade_size_300s(metrics@) == Some(size as int),
                None => avg_trade_size_300s(metrics@) is None,
            },
    {
        let total_trades: i32 = metrics.buy_count_300s + metrics.sell_count_300s;
        if total_trades > 0 {
            let volume = Self::compute_volume_300s(metrics);
            assert(0 <= volume / (total_trades as i128) <= volume) by (nonlinear_arith)
                requires
                    volume >= 0,
                    total_trades > 0,
            ;
            Some(volume / total_trades as i128)
        } else {
            None
        }
    }

    /// Volume of the 300 s window in lamports: the magnitude of its net
    /// flow.
    pub fn compute_volume_300s(metrics: &RollingMetrics) -> (volume: i128)
        requires
            metrics@.wf(),
        ensures
            volume == volume_300s(metrics@),
            0 <= volume <= MAX_FLOW,
    {
        if metrics.net_flow_300s_sol >= 0 {
            metrics.net_flow_300s_sol
        } else {
            -metrics.net_flow_300s_sol
        }
    }
}

} // verus!
