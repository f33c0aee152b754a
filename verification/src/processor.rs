//! The dispatcher's step for one normalized trade: from the rolling state of
//! the trade's token and the trade to the next state and the writes to
//! queue.

use vstd::prelude::*;
use crate::db::WriteRequest;
use crate::state::{RollingMetrics, RollingStateView, TokenRollingState};
use crate::trade_extractor::TransactionInfo;
use crate::types::{TradeDirection, TradeEvent, TradeEventView};

verus! {

/// A flow is worth a note in the log once its magnitude is above this many
/// lamports, a hundredth of one unit of the base currency.
pub const NOTABLE_FLOW_LAMPORTS: i128 = 10_000_000;

/// The balance at `index`, zero where there is none.
pub open spec fn balance_or_zero(balances: Seq<u64>, index: int) -> int {
    if 0 <= index < balances.len() {
        balances[index] as int
    } else {
        0
    }
}

/// The gross flow of the fee payer over a transaction, in lamports: the
/// change of its balance with the fee added back.
pub open spec fn fee_payer_flow(info: TransactionInfo) -> int {
    balance_or_zero(info.post_balances@, 0) - balance_or_zero(info.pre_balances@, 0) + info.fee
}

/// The gross flow of the fee payer over a transaction, in lamports.
pub fn fee_payer_net_flow(info: &TransactionInfo) -> (flow: i128)
    ensures
        flow == fee_payer_flow(*info),
{
    let pre_balance: u64 = if info.pre_balances.len() > 0 {
        info.pre_balances[0]
    } else {
        0
    };
    let post_balance: u64 = if info.post_balances.len() > 0 {
        info.post_balances[0]
    } else {
        0
    };
    (post_balance as i128 - pre_balance as i128) + info.fee as i128
}

/// Whether a flow is worth a note in the log.
pub fn is_notable_flow(flow: i128) -> (notable: bool)
    ensures
        notable == (crate::fixed::magnitude(flow as int) > NOTABLE_FLOW_LAMPORTS),
{
    flow > NOTABLE_FLOW_LAMPORTS || flow < -NOTABLE_FLOW_LAMPORTS
}

/// What the dispatcher does with one normalized trade.
#[derive(Debug)]
pub enum Dispatch {
    /// The trade has no direction and is dropped.
    Discarded,
    /// Taking in the trade would overflow a window, a queue, a counter, a
    /// sum of amounts or the eviction cutoff; nothing was changed.
    OverLimit,
    /// The trade was taken in.
    Applied {
        /// The statistics after eviction at the time of the trade.
        metrics: RollingMetrics,
        /// Whether the statistics passed the consistency check.
        consistent: bool,
        /// The requests to queue, in this order.
        writes: Vec<WriteRequest>,
    },
}

/// Whether `e` can be taken in and evicted at its own time: it has a
/// direction, there is room for it, and the eviction cutoffs are
/// representable.
pub open spec fn can_apply(s: RollingStateView, e: TradeEventView) -> bool {
    &&& e.direction != TradeDirection::Unknown
    &&& s.has_room(e)
    &&& e.timestamp - 14400 >= i64::MIN
}

/// The state after `e` is taken in and what is too old at its time is
/// evicted.
pub open spec fn applied(s: RollingStateView, e: TradeEventView) -> RollingStateView {
    s.add_trade(e).evict_old_trades(e.timestamp)
}

/// What an applied trade leaves behind: the state after the trade is taken
/// in and eviction at its time, the snapshot of that state, the outcome of
/// the consistency check, and the two requests to queue, the statistics of
/// the token first, then the trade as it came in.
pub open spec fn is_applied(
    before: RollingStateView,
    after: RollingStateView,
    trade: TradeEvent,
    metrics: RollingMetrics,
    consistent: bool,
    writes: Seq<WriteRequest>,
) -> bool {
    &&& can_apply(before, trade@)
    &&& after == applied(before, trade@)
    &&& metrics@ == after.rolling_metrics()
    &&& metrics@.wf()
    &&& consistent == after.metrics_consistent(metrics@)
    &&& writes.len() == 2
    &&& writes[0] matches WriteRequest::Metrics { mint, metrics: queued } && mint@ == trade.mint@
        && queued == metrics
    &&& writes[1] matches WriteRequest::Trade(queued) && queued@ == trade@
}

/// Whether an instruction is handled at all: not where the signature of its
/// transaction was seen before. An instruction that is not handled has no
/// effect whatever; one that is handled has its signature recorded.
pub fn admits_signature(seen_before: bool) -> (handled: bool)
    ensures
        handled == !seen_before,
{
    !seen_before
}

/// Takes `trade` into the state of its token, evicts at the time of the
/// trade, and returns the snapshot of the statistics with the requests to
/// queue: the statistics of the token first, then the trade as it came in.
/// A trade without direction is dropped.
pub fn process_trade(state: &mut TokenRollingState, trade: TradeEvent) -> (outcome: Dispatch)
    requires
        old(state).wf(),
    ensures
        final(state).wf(),
        match outcome {
            Dispatch::Discarded => {
                &&& trade.direction == TradeDirection::Unknown
                &&& final(state)@ == old(state)@
            },
            Dispatch::OverLimit => {
                &&& trade.direction != TradeDirection::Unknown
                &&& !can_apply(old(state)@, trade@)
                &&& final(state)@ == old(state)@
            },
            Dispatch::Applied { metrics, consistent, writes } => is_applied(
                old(state)@,
                final(state)@,
                trade,
                metrics,
                consistent,
                writes@,
            ),
        },
{
    match trade.direction {
        TradeDirection::Unknown => {
            return Dispatch::Discarded;
        },
        _ => {},
    }
    if trade.timestamp < i64::MIN + 14400 || !state.can_add_trade(&trade) {
        return Dispatch::OverLimit;
    }
    let current_timestamp = trade.timestamp;
    state.add_trade(trade.clone());
    state.evict_old_trades(current_timestamp);

    let metrics = state.compute_rolling_metrics();
    let consistent = state.verify_metrics(&metrics);

    let mut writes: Vec<WriteRequest> = Vec::with_capacity(2);
    writes.push(WriteRequest::Metrics { mint: trade.mint.clone(), metrics });
    writes.push(WriteRequest::Trade(trade));
    Dispatch::Applied { metrics, consistent, writes }
}

/// Handles the first trade of a token, which has no state yet: the state is
/// created only where the trade is taken in, and is then returned with the
/// outcome. A trade without direction, or one over the limits, creates no
/// state.
pub fn process_first_trade(trade: TradeEvent) -> (res: (Dispatch, Option<TokenRollingState>))
    ensures
        match res.0 {
            Dispatch::Discarded => {
                &&& trade.direction == TradeDirection::Unknown
                &&& res.1 is None
            },
            Dispatch::OverLimit => {
                &&& trade.direction != TradeDirection::Unknown
                &&& !can_apply(RollingStateView::empty(trade.mint@), trade@)
                &&& res.1 is None
            },
            Dispatch::Applied { metrics, consistent, writes } => {
                &&& res.1 matches Some(state) && state.wf() && is_applied(
                    RollingStateView::empty(trade.mint@),
                    state@,
                    trade,
                    metrics,
                    consistent,
                    writes@,
                )
            },
        },
{
    match trade.direction {
        TradeDirection::Unknown => {
            return (Dispatch::Discarded, None);
        },
        _ => {},
    }
    let mut state = TokenRollingState::new(trade.mint.clone());
    let outcome = process_trade(&mut state, trade);
    match outcome {
        Dispatch::Applied { metrics, consistent, writes } => (
            Dispatch::Applied { metrics, consistent, writes },
            Some(state),
        ),
        Dispatch::OverLimit => (Dispatch::OverLimit, None),
        Dispatch::Discarded => (Dispatch::Discarded, None),
    }
}

} // verus!
