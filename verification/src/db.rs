//! The write pipeline as far as it decides: what is queued, when a batch is
//! flushed, and how trades are mapped to and from their stored rows.

use vstd::prelude::*;
use crate::signals::Signal;
use crate::state::RollingMetrics;
use crate::types::{TradeDirection, TradeEvent, TradeEventView};

verus! {

/// Capacity of the queue of write requests.
pub const WRITE_QUEUE_CAPACITY: usize = 1000;

/// A batch is flushed once it holds this many requests.
pub const FLUSH_BATCH_SIZE: usize = 100;

/// A batch is flushed once this many milliseconds have passed since the
/// last flush.
pub const FLUSH_INTERVAL_MS: u64 = 100;

/// One request to the writer.
#[derive(Debug, Clone)]
pub enum WriteRequest {
    /// Replace the stored statistics of a token.
    Metrics { mint: String, metrics: RollingMetrics },
    /// Append a trade.
    Trade(TradeEvent),
    /// Append a signal.
    Signal(Signal),
}

/// The stored name of a direction.
pub open spec fn side_name(direction: TradeDirection) -> Seq<char> {
    match direction {
        TradeDirection::Buy => "buy"@,
        TradeDirection::Sell => "sell"@,
        TradeDirection::Unknown => "unknown"@,
    }
}

/// The direction that a stored name stands for; any name other than "buy"
/// and "sell" stands for an unknown direction.
pub open spec fn direction_named(side: Seq<char>) -> TradeDirection {
    if side == "buy"@ {
        TradeDirection::Buy
    } else if side == "sell"@ {
        TradeDirection::Sell
    } else {
        TradeDirection::Unknown
    }
}

/// The stored name of a direction.
pub fn trade_side(direction: TradeDirection) -> (side: &'static str)
    ensures
        side@ == side_name(direction),
{
    match direction {
        TradeDirection::Buy => "buy",
        TradeDirection::Sell => "sell",
        TradeDirection::Unknown => "unknown",
    }
}

/// The direction that a stored name stands for.
pub fn direction_of_side(side: &str) -> (direction: TradeDirection)
    ensures
        direction == direction_named(side@),
{
    let name = side.to_owned();
    if name == "buy".to_owned() {
        TradeDirection::Buy
    } else if name == "sell".to_owned() {
        TradeDirection::Sell
    } else {
        TradeDirection::Unknown
    }
}

/// The stored form of a flag: 1 where it is set, 0 where it is not.
pub fn stored_flag(flag: bool) -> (stored: i32)
    ensures
        stored == if flag {
            1int
        } else {
            0
        },
{
    if flag {
        1
    } else {
        0
    }
}

/// The trade that a stored row stands for. Rows keep neither the token
/// amount nor the source program: the amount reads as zero, and the
/// program as the dollar-cost-averaging program where the row is flagged so
/// and as unknown otherwise.
pub open spec fn row_trade(
    mint: Seq<char>,
    timestamp: int,
    wallet: Seq<char>,
    side: Seq<char>,
    sol_amount: nat,
    is_bot: int,
    is_dca: int,
) -> TradeEventView {
    TradeEventView {
        timestamp,
        mint,
        direction: direction_named(side),
        sol_amount,
        token_amount: 0,
        token_decimals: 0,
        user_account: wallet,
        source_program: if is_dca == 1 {
            "JupiterDCA"@
        } else {
            "Unknown"@
        },
        is_bot: is_bot == 1,
        is_dca: is_dca == 1,
    }
}

/// The trade that a stored row stands for.
pub fn trade_from_row(
    mint: String,
    timestamp: i64,
    wallet: String,
    side: &str,
    sol_amount: u128,
    is_bot: i32,
    is_dca: i32,
) -> (trade: TradeEvent)
    ensures
        trade@ == row_trade(
            mint@,
            timestamp as int,
            wallet@,
            side@,
            sol_amount as nat,
            is_bot as int,
            is_dca as int,
        ),
{
    let source_program = if is_dca == 1 {
        "JupiterDCA".to_owned()
    } else {
        "Unknown".to_owned()
    };
    TradeEvent {
        timestamp,
        mint,
        direction: direction_of_side(side),
        sol_amount,
        token_amount: 0,
        token_decimals: 0,
        user_account: wallet,
        source_program,
        is_bot: is_bot == 1,
        is_dca: is_dca == 1,
    }
}

/// The earliest timestamp that counts as recent at time `now` for a window
/// of `window_seconds`.
pub fn recent_cutoff(now: i64, window_seconds: i64) -> (cutoff: i64)
    requires
        i64::MIN <= now - window_seconds <= i64::MAX,
    ensures
        cutoff == now - window_seconds,
{
    now - window_seconds
}

/// The requests that wait for the next flush, in the order they came in.
#[derive(Debug)]
pub struct WriteBatcher {
    pub pending: Vec<WriteRequest>,
}

/// Whether a batch of `pending` requests is due `elapsed_ms` milliseconds
/// after the last flush: it is full, or the flush interval has passed.
pub open spec fn flush_due(pending: nat, elapsed_ms: u64) -> bool {
    pending >= FLUSH_BATCH_SIZE || elapsed_ms >= FLUSH_INTERVAL_MS
}

impl WriteBatcher {
    /// A batcher with nothing pending.
    pub fn new() -> (res: Self)
        ensures
            res.pending@ == Seq::<WriteRequest>::empty(),
    {
        WriteBatcher { pending: Vec::with_capacity(100) }
    }

    /// Number of pending requests.
    pub fn len(&self) -> (n: usize)
        ensures
            n == self.pending@.len(),
    {
        self.pending.len()
    }

    /// Takes in `request`, `elapsed_ms` milliseconds after the last flush,
    /// and says whether the batch is now due.
    pub fn push(&mut self, request: WriteRequest, elapsed_ms: u64) -> (due: bool)
        ensures
            final(self).pending@ == old(self).pending@.push(request),
            due == flush_due(final(self).pending@.len(), elapsed_ms),
    {
        self.pending.push(request);
        self.pending.len() >= FLUSH_BATCH_SIZE || elapsed_ms >= FLUSH_INTERVAL_MS
    }

    /// Whether a tick of the flush timer finds anything to flush.
    pub fn due_on_tick(&self) -> (due: bool)
        ensures
            due == (self.pending@.len() > 0),
    {
        self.pending.len() > 0
    }

    /// Hands out the pending requests in the order they came in, and leaves
    /// nothing pending.
    pub fn take(&mut self) -> (batch: Vec<WriteRequest>)
        ensures
            batch@ == old(self).pending@,
            final(self).pending@ == Seq::<WriteRequest>::empty(),
    {
        let mut batch: Vec<WriteRequest> = Vec::with_capacity(100);
        core::mem::swap(&mut self.pending, &mut batch);
        batch
    }
}

} // verus!
