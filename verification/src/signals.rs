//! Pattern signals over a metrics snapshot and the recent trades of a token.
//!
//! Each detector is a function of its arguments alone. Strengths and ratios
//! are fixed-point numbers in millionths, flows are in lamports.

use vstd::prelude::*;
use crate::clock::unix_now;
use crate::fixed::{MAX_FLOW, capped_ratio, capped_ratio_ppm, lemma_capped_ratio_bounds};
use crate::inflow::{
    buyers, count_wallets_needed, lemma_buyers_distinct, lemma_inflow_has_buyer, total_inflow,
    wallet_inflow_totals, wallet_inflows, wallets_needed,
};
use crate::sorting::{sort_descending, sorted_descending};
use crate::state::{RollingMetrics, RollingMetricsView};
use crate::types::{TradeEvent, TradeEventView, trade_views};
use crate::windows::{MAX_WINDOW_TRADES, amounts_within};

verus! {

/// Kind of pattern a signal reports.
#[derive(Debug, Clone, Copy, PartialEq, Eq, Hash, Structural)]
pub enum SignalType {
    Breakout,
    Reaccumulation,
    FocusedBuyers,
    Persistence,
    FlowReversal,
    Focused,
    Surge,
    BotDropoff,
    DcaConviction,
}

impl SignalType {
    /// The upper-case name under which the kind is stored.
    pub open spec fn name(self) -> Seq<char> {
        match self {
            SignalType::Breakout => "BREAKOUT"@,
            SignalType::Reaccumulation => "REACCUMULATION"@,
            SignalType::FocusedBuyers => "FOCUSED_BUYERS"@,
            SignalType::Persistence => "PERSISTENCE"@,
            SignalType::FlowReversal => "FLOW_REVERSAL"@,
            SignalType::Focused => "FOCUSED"@,
            SignalType::Surge => "SURGE"@,
            SignalType::BotDropoff => "BOT_DROPOFF"@,
            SignalType::DcaConviction => "DCA_CONVICTION"@,
        }
    }

    /// The upper-case name under which the kind is stored.
    pub fn as_str(&self) -> (s: &'static str)
        ensures
            s@ == self.name(),
    {
        match self {
            SignalType::Breakout => "BREAKOUT",
            SignalType::Reaccumulation => "REACCUMULATION",
            SignalType::FocusedBuyers => "FOCUSED_BUYERS",
            SignalType::Persistence => "PERSISTENCE",
            SignalType::FlowReversal => "FLOW_REVERSAL",
            SignalType::Focused => "FOCUSED",
            SignalType::Surge => "SURGE",
            SignalType::BotDropoff => "BOT_DROPOFF",
            SignalType::DcaConviction => "DCA_CONVICTION",
        }
    }
}

/// One attribute of a signal: a flow in lamports, a ratio in millionths, or
/// a count.
#[derive(Debug, Clone, Copy, PartialEq, Eq, Structural)]
pub enum MetadataValue {
    Flow(i128),
    Ratio(i128),
    Count(i64),
}

/// Mathematical value of a [`MetadataValue`].
pub enum MetadataValueView {
    Flow(int),
    Ratio(int),
    Count(int),
}

impl View for MetadataValue {
    type V = MetadataValueView;

    open spec fn view(&self) -> MetadataValueView {
        match *self {
            MetadataValue::Flow(x) => MetadataValueView::Flow(x as int),
            MetadataValue::Ratio(x) => MetadataValueView::Ratio(x as int),
            MetadataValue::Count(x) => MetadataValueView::Count(x as int),
        }
    }
}

/// A named attribute.
#[derive(Debug, Clone)]
pub struct MetadataEntry {
    pub key: String,
    pub value: MetadataValue,
}

impl View for MetadataEntry {
    type V = (Seq<char>, MetadataValueView);

    open spec fn view(&self) -> (Seq<char>, MetadataValueView) {
        (self.key@, self.value@)
    }
}

/// The attributes of a signal: the inputs its detector decided on, by name.
#[derive(Debug, Clone)]
pub struct SignalMetadata {
    pub entries: Vec<MetadataEntry>,
}

/// The values of a list of attributes, in order.
pub open spec fn entry_views(entries: Seq<MetadataEntry>) -> Seq<(Seq<char>, MetadataValueView)> {
    entries.map_values(|e: MetadataEntry| e@)
}

impl View for SignalMetadata {
    type V = Seq<(Seq<char>, MetadataValueView)>;

    open spec fn view(&self) -> Seq<(Seq<char>, MetadataValueView)> {
        entry_views(self.entries@)
    }
}

/// The value of the first attribute named `key`.
pub open spec fn attribute(
    entries: Seq<(Seq<char>, MetadataValueView)>,
    key: Seq<char>,
) -> Option<MetadataValueView>
    decreases entries.len(),
{
    if entries.len() == 0 {
        None
    } else if entries[0].0 == key {
        Some(entries[0].1)
    } else {
        attribute(entries.drop_first(), key)
    }
}

/// The value of an attribute, where there is one.
pub open spec fn value_view(value: Option<MetadataValue>) -> Option<MetadataValueView> {
    match value {
        Some(v) => Some(v@),
        None => None,
    }
}

impl SignalMetadata {
    pub fn new() -> (res: Self)
        ensures
            res@ == Seq::<(Seq<char>, MetadataValueView)>::empty(),
    {
        let res = SignalMetadata { entries: Vec::new() };
        assert(res@ =~= Seq::<(Seq<char>, MetadataValueView)>::empty());
        res
    }

    /// Number of attributes.
    pub fn len(&self) -> (n: usize)
        ensures
            n == self@.len(),
    {
        self.entries.len()
    }

    /// Appends the attribute `key` with `value`.
    pub fn push(&mut self, key: &str, value: MetadataValue)
        ensures
            final(self)@ == old(self)@.push((key@, value@)),
    {
        let entry = MetadataEntry { key: key.to_owned(), value };
        self.entries.push(entry);
        assert(self@ =~= old(self)@.push((key@, value@)));
    }

    /// The value of the first attribute named `key`.
    pub fn get(&self, key: &str) -> (res: Option<MetadataValue>)
        ensures
            value_view(res) == attribute(self@, key@),
    {
        let wanted = key.to_owned();
        let n = self.entries.len();
        let mut i: usize = 0;
        proof {
            assert(self@.skip(0) =~= self@);
        }
        while i < n
            invariant
                n == self.entries.len(),
                i <= n,
                wanted@ == key@,
                attribute(self@, key@) == attribute(self@.skip(i as int), key@),
            decreases n - i,
        {
            proof {
                assert(self@.skip(i as int).drop_first() =~= self@.skip(i as int + 1));
                assert(self@.skip(i as int)[0] == self.entries[i as int]@);
            }
            if self.entries[i].key == wanted {
                return Some(self.entries[i].value);
            }
            i = i + 1;
        }
        None
    }
}

/// A detected pattern.
///
/// `strength` is in millionths, from 0 to 1 000 000; `window` names the time
/// window the pattern was seen in.
#[derive(Debug, Clone)]
pub struct Signal {
    pub mint: String,
    pub signal_type: SignalType,
    pub strength: i64,
    pub window: String,
    pub timestamp: i64,
    pub metadata: SignalMetadata,
}

/// Mathematical value of a [`Signal`].
pub struct SignalView {
    pub mint: Seq<char>,
    pub signal_type: SignalType,
    pub strength: int,
    pub window: Seq<char>,
    pub timestamp: int,
    pub metadata: Seq<(Seq<char>, MetadataValueView)>,
}

impl View for Signal {
    type V = SignalView;

    open spec fn view(&self) -> SignalView {
        SignalView {
            mint: self.mint@,
            signal_type: self.signal_type,
            strength: self.strength as int,
            window: self.window@,
            timestamp: self.timestamp as int,
            metadata: self.metadata@,
        }
    }
}

/// `x` brought into the range from zero to one whole.
pub open spec fn clamp_unit(x: int) -> int {
    if x < 0 {
        0
    } else if x > 1_000_000 {
        1_000_000
    } else {
        x
    }
}

impl Signal {
    /// A signal with its strength brought into the range from zero to one
    /// whole.
    pub fn new(
        mint: String,
        signal_type: SignalType,
        strength: i64,
        window: String,
        timestamp: i64,
        metadata: SignalMetadata,
    ) -> (res: Self)
        ensures
            res@ == (SignalView {
                mint: mint@,
                signal_type,
                strength: clamp_unit(strength as int),
                window: window@,
                timestamp: timestamp as int,
                metadata: metadata@,
            }),
            0 <= res.strength <= 1_000_000,
    {
        let clamped: i64 = if strength < 0 {
            0
        } else if strength > 1_000_000 {
            1_000_000
        } else {
            strength
        };
        Signal { mint, signal_type, strength: clamped, window, timestamp, metadata }
    }
}

/// A signal in the older form: a severity from 1 to 5 and an optional score
/// in millionths.
#[derive(Debug, Clone)]
pub struct TokenSignal {
    pub mint: String,
    pub signal_type: SignalType,
    pub window_seconds: i32,
    pub severity: i32,
    pub score: Option<i64>,
    pub details_json: Option<String>,
    pub created_at: i64,
}

impl TokenSignal {
    /// A signal of severity 1 without score or details.
    pub fn new(mint: String, signal_type: SignalType, window_seconds: i32, created_at: i64) -> (res:
        Self)
        ensures
            res.mint@ == mint@,
            res.signal_type == signal_type,
            res.window_seconds == window_seconds,
            res.severity == 1,
            res.score is None,
            res.details_json is None,
            res.created_at == created_at,
    {
        TokenSignal {
            mint,
            signal_type,
            window_seconds,
            severity: 1,
            score: None,
            details_json: None,
            created_at,
        }
    }

    /// The same signal with `severity` brought into the range from 1 to 5.
    pub fn with_severity(self, severity: i32) -> (res: Self)
        ensures
            res.severity == if severity < 1 {
                1
            } else if severity > 5 {
                5
            } else {
                severity as int
            },
            res.mint@ == self.mint@,
            res.signal_type == self.signal_type,
            res.window_seconds == self.window_seconds,
            res.score == self.score,
            res.details_json == self.details_json,
            res.created_at == self.created_at,
    {
        let mut res = self;
        res.severity = if severity < 1 {
            1
        } else if severity > 5 {
            5
        } else {
            severity
        };
        res
    }

    /// The same signal with `score`.
    pub fn with_score(self, score: i64) -> (res: Self)
        ensures
            res.score == Some(score),
            res.mint@ == self.mint@,
            res.signal_type == self.signal_type,
            res.window_seconds == self.window_seconds,
            res.severity == self.severity,
            res.details_json == self.details_json,
            res.created_at == self.created_at,
    {
        let mut res = self;
        res.score = Some(score);
        res
    }

    /// The same signal with `details_json`.
    pub fn with_details(self, details_json: String) -> (res: Self)
        ensures
            res.details_json == Some(details_json),
            res.mint@ == self.mint@,
            res.signal_type == self.signal_type,
            res.window_seconds == self.window_seconds,
            res.severity == self.severity,
            res.score == self.score,
            res.created_at == self.created_at,
    {
        let mut res = self;
        res.details_json = Some(details_json);
        res
    }
}

/// The value of an optional signal.
pub open spec fn signal_view(signal: Option<Signal>) -> Option<SignalView> {
    match signal {
        Some(s) => Some(s@),
        None => None,
    }
}

/// The larger of `x` and one unit of the base currency, in lamports.
pub open spec fn at_least_one_sol(x: int) -> int {
    if x > 1_000_000_000 {
        x
    } else {
        1_000_000_000
    }
}

/// Buys and sells in the 300 s window.
pub open spec fn total_trades_300s(m: RollingMetricsView) -> int {
    m.buy_count_300s + m.sell_count_300s
}

/// Share of bot trades among the buys and sells of the 300 s window, in
/// millionths; zero where there are none.
pub open spec fn bot_ratio_ppm(m: RollingMetricsView) -> int {
    if total_trades_300s(m) > 0 {
        (m.bot_trades_count_300s * 1_000_000) / total_trades_300s(m)
    } else {
        0
    }
}

/// Whether the share of bot trades is at most `tenths` tenths.
pub open spec fn bot_ratio_at_most(m: RollingMetricsView, tenths: int) -> bool {
    total_trades_300s(m) <= 0 || m.bot_trades_count_300s * 10 <= tenths * total_trades_300s(m)
}

/// One whole less the share of bot trades, not below zero.
pub open spec fn bot_factor(m: RollingMetricsView) -> int {
    if bot_ratio_ppm(m) >= 1_000_000 {
        0
    } else {
        1_000_000 - bot_ratio_ppm(m)
    }
}

/// The distinct wallets of the 300 s window against twenty, capped at one
/// whole.
pub open spec fn wallet_factor(m: RollingMetricsView) -> int {
    capped_ratio_ppm(m.unique_wallets_300s, 20)
}

/// The larger of `x` and one unit of the base currency, in lamports.
fn one_sol_or_more(x: i128) -> (res: u128)
    ensures
        res == at_least_one_sol(x as int),
{
    if x > 1_000_000_000 {
        x as u128
    } else {
        1_000_000_000
    }
}

/// Share of bot trades in millionths.
fn bot_ratio(metrics: &RollingMetrics) -> (res: i64)
    requires
        metrics@.wf(),
    ensures
        res == bot_ratio_ppm(metrics@),
        res >= 0,
{
    let total: i64 = metrics.buy_count_300s as i64 + metrics.sell_count_300s as i64;
    if total > 0 {
        let scaled: i64 = metrics.bot_trades_count_300s as i64 * 1_000_000;
        assert(scaled / total >= 0) by (nonlinear_arith)
            requires
                scaled >= 0,
                total > 0,
        ;
        scaled / total
    } else {
        0
    }
}

/// Whether the share of bot trades is at most `tenths` tenths.
fn bot_ratio_within(metrics: &RollingMetrics, tenths: i64) -> (res: bool)
    requires
        metrics@.wf(),
        0 <= tenths <= 10,
    ensures
        res == bot_ratio_at_most(metrics@, tenths as int),
{
    let total: i64 = metrics.buy_count_300s as i64 + metrics.sell_count_300s as i64;
    assert(tenths * total <= 10 * total) by (nonlinear_arith)
        requires
            0 <= tenths <= 10,
            0 <= total,
    ;
    assert(0 <= tenths * total) by (nonlinear_arith)
        requires
            0 <= tenths <= 10,
            0 <= total,
    ;
    total <= 0 || metrics.bot_trades_count_300s as i64 * 10 <= tenths * total
}

/// One whole less `ratio`, not below zero.
fn remainder_of_whole(ratio: i64) -> (res: i64)
    requires
        ratio >= 0,
    ensures
        res == if ratio >= 1_000_000 {
            0
        } else {
            1_000_000 - ratio
        },
        0 <= res <= 1_000_000,
{
    if ratio >= 1_000_000 {
        0
    } else {
        1_000_000 - ratio
    }
}

/// What the breakout detector asks for: the 300 s flow is positive and above
/// the 900 s flow, the 60 s flow is above the 300 s flow, at least five
/// distinct wallets traded, and at most three trades in ten are bot trades.
pub open spec fn breakout_triggers(m: RollingMetricsView) -> bool {
    &&& m.net_flow_300s_sol > m.net_flow_900s_sol
    &&& m.net_flow_300s_sol > 0
    &&& m.net_flow_60s_sol > m.net_flow_300s_sol
    &&& m.unique_wallets_300s >= 5
    &&& bot_ratio_at_most(m, 3)
}

/// Strength of a breakout in millionths.
pub open spec fn breakout_strength(m: RollingMetricsView) -> int {
    let acceleration = capped_ratio_ppm(
        m.net_flow_300s_sol - m.net_flow_900s_sol,
        at_least_one_sol(m.net_flow_900s_sol),
    );
    let momentum = capped_ratio_ppm(m.net_flow_60s_sol, at_least_one_sol(m.net_flow_300s_sol));
    (3 * acceleration + 3 * momentum + 2 * wallet_factor(m) + 2 * bot_factor(m)) / 10
}

pub open spec fn breakout_metadata(m: RollingMetricsView) -> Seq<(Seq<char>, MetadataValueView)> {
    seq![
        ("net_flow_60s"@, MetadataValueView::Flow(m.net_flow_60s_sol)),
        ("net_flow_300s"@, MetadataValueView::Flow(m.net_flow_300s_sol)),
        ("net_flow_900s"@, MetadataValueView::Flow(m.net_flow_900s_sol)),
        ("unique_wallets"@, MetadataValueView::Count(m.unique_wallets_300s)),
        ("bot_ratio"@, MetadataValueView::Ratio(bot_ratio_ppm(m))),
    ]
}

/// The breakout signal of a snapshot, where it has one.
pub open spec fn breakout_signal(mint: Seq<char>, m: RollingMetricsView, timestamp: int) -> Option<
    SignalView,
> {
    if breakout_triggers(m) {
        Some(
            SignalView {
                mint,
                signal_type: SignalType::Breakout,
                strength: clamp_unit(breakout_strength(m)),
                window: "300s"@,
                timestamp,
                metadata: breakout_metadata(m),
            },
        )
    } else {
        None
    }
}

/// Detects a breakout: flow that accelerates from the 900 s over the 300 s
/// to the 60 s window, carried by several wallets and few bots.
pub fn evaluate_breakout(mint: &str, metrics: &RollingMetrics, timestamp: i64) -> (res: Option<
    Signal,
>)
    requires
        metrics@.wf(),
    ensures
        signal_view(res) == breakout_signal(mint@, metrics@, timestamp as int),
        res matches Some(signal) ==> 0 <= signal.strength <= 1_000_000,
{
    let net_flow_60s = metrics.net_flow_60s_sol;
    let net_flow_300s = metrics.net_flow_300s_sol;
    let net_flow_900s = metrics.net_flow_900s_sol;
    let unique_wallets = metrics.unique_wallets_300s;
    let ratio = bot_ratio(metrics);

    let is_accelerating = net_flow_300s > net_flow_900s && net_flow_300s > 0;
    let momentum_shift = net_flow_60s > net_flow_300s;
    let has_wallets = unique_wallets >= 5;
    let bot_ratio_ok = bot_ratio_within(metrics, 3);

    if is_accelerating && momentum_shift && has_wallets && bot_ratio_ok {
        let acceleration = capped_ratio(
            (net_flow_300s - net_flow_900s) as u128,
            one_sol_or_more(net_flow_900s),
        );
        let momentum_factor = capped_ratio(net_flow_60s as u128, one_sol_or_more(net_flow_300s));
        let wallet_factor = capped_ratio(unique_wallets as u128, 20);
        let bot_factor = remainder_of_whole(ratio);
        let strength = (3 * acceleration + 3 * momentum_factor + 2 * wallet_factor + 2
            * bot_factor) / 10;

        let mut metadata = SignalMetadata::new();
        metadata.push("net_flow_60s", MetadataValue::Flow(net_flow_60s));
        metadata.push("net_flow_300s", MetadataValue::Flow(net_flow_300s));
        metadata.push("net_flow_900s", MetadataValue::Flow(net_flow_900s));
        metadata.push("unique_wallets", MetadataValue::Count(unique_wallets as i64));
        metadata.push("bot_ratio", MetadataValue::Ratio(ratio as i128));
        assert(metadata@ =~= breakout_metadata(metrics@));

        return Some(
            Signal::new(
                mint.to_owned(),
                SignalType::Breakout,
                strength,
                "300s".to_owned(),
                timestamp,
                metadata,
            ),
        );
    }
    None
}

/// What the reaccumulation detector asks for: dollar-cost-averaging flow
/// from at least two wallets, and a positive 300 s flow above the 900 s flow.
pub open spec fn reaccumulation_triggers(m: RollingMetricsView) -> bool {
    &&& m.dca_flow_300s_sol > 0
    &&& m.dca_unique_wallets_300s >= 2
    &&& m.net_flow_300s_sol > 0
    &&& m.net_flow_300s_sol > m.net_flow_900s_sol
}

/// Strength of a reaccumulation in millionths.
pub open spec fn reaccumulation_strength(m: RollingMetricsView) -> int {
    let dca = capped_ratio_ppm(m.dca_flow_300s_sol, 10_000_000_000);
    let wallets = capped_ratio_ppm(m.dca_unique_wallets_300s, 5);
    let flow = capped_ratio_ppm(m.net_flow_300s_sol, 50_000_000_000);
    let momentum = capped_ratio_ppm(
        m.net_flow_300s_sol - m.net_flow_900s_sol,
        at_least_one_sol(crate::fixed::magnitude(m.net_flow_900s_sol)),
    );
    (3 * dca + 2 * wallets + 3 * flow + 2 * momentum) / 10
}

pub open spec fn reaccumulation_metadata(m: RollingMetricsView) -> Seq<
    (Seq<char>, MetadataValueView),
> {
    seq![
        ("dca_flow"@, MetadataValueView::Flow(m.dca_flow_300s_sol)),
        ("dca_wallets"@, MetadataValueView::Count(m.dca_unique_wallets_300s)),
        ("net_flow_300s"@, MetadataValueView::Flow(m.net_flow_300s_sol)),
        ("net_flow_900s"@, MetadataValueView::Flow(m.net_flow_900s_sol)),
        ("dca_ratio"@, MetadataValueView::Ratio(m.dca_ratio_300s)),
    ]
}

/// The reaccumulation signal of a snapshot, where it has one.
pub open spec fn reaccumulation_signal(
    mint: Seq<char>,
    m: RollingMetricsView,
    timestamp: int,
) -> Option<SignalView> {
    if reaccumulation_triggers(m) {
        Some(
            SignalView {
                mint,
                signal_type: SignalType::Reaccumulation,
                strength: clamp_unit(reaccumulation_strength(m)),
                window: "300s"@,
                timestamp,
                metadata: reaccumulation_metadata(m),
            },
        )
    } else {
        None
    }
}

/// Detects reaccumulation: dollar-cost-averaging buyers behind a flow that
/// gains on the 900 s window.
pub fn evaluate_reaccumulation(mint: &str, metrics: &RollingMetrics, timestamp: i64) -> (res:
    Option<Signal>)
    requires
        metrics@.wf(),
    ensures
        signal_view(res) == reaccumulation_signal(mint@, metrics@, timestamp as int),
        res matches Some(signal) ==> 0 <= signal.strength <= 1_000_000,
{
    let dca_flow = metrics.dca_flow_300s_sol;
    let dca_wallets = metrics.dca_unique_wallets_300s;
    let net_flow_300s = metrics.net_flow_300s_sol;
    let net_flow_900s = metrics.net_flow_900s_sol;

    let dca_active = dca_flow > 0 && dca_wallets >= 2;
    let positive_flow = net_flow_300s > 0;
    let momentum_shift = net_flow_300s > net_flow_900s;

    if dca_active && positive_flow && momentum_shift {
        let dca_factor = capped_ratio(dca_flow as u128, 10_000_000_000);
        let wallet_factor = capped_ratio(dca_wallets as u128, 5);
        let flow_factor = capped_ratio(net_flow_300s as u128, 50_000_000_000);
        let size_900s: i128 = if net_flow_900s >= 0 {
            net_flow_900s
        } else {
            -net_flow_900s
        };
        let momentum_factor = capped_ratio(
            (net_flow_300s - net_flow_900s) as u128,
            one_sol_or_more(size_900s),
        );
        let strength = (3 * dca_factor + 2 * wallet_factor + 3 * flow_factor + 2
            * momentum_factor) / 10;

        let mut metadata = SignalMetadata::new();
        metadata.push("dca_flow", MetadataValue::Flow(dca_flow));
        metadata.push("dca_wallets", MetadataValue::Count(dca_wallets as i64));
        metadata.push("net_flow_300s", MetadataValue::Flow(net_flow_300s));
        metadata.push("net_flow_900s", MetadataValue::Flow(net_flow_900s));
        metadata.push("dca_ratio", MetadataValue::Ratio(metrics.dca_ratio_300s));
        assert(metadata@ =~= reaccumulation_metadata(metrics@));

        return Some(
            Signal::new(
                mint.to_owned(),
                SignalType::Reaccumulation,
                strength,
                "300s".to_owned(),
                timestamp,
                metadata,
            ),
        );
    }
    None
}

/// What the persistence detector asks for: positive flow in the 60 s, 300 s
/// and 900 s windows, at least five distinct wallets, and at most four
/// trades in ten from bots.
pub open spec fn persistence_triggers(m: RollingMetricsView) -> bool {
    &&& m.net_flow_60s_sol > 0
    &&& m.net_flow_300s_sol > 0
    &&& m.net_flow_900s_sol > 0
    &&& m.unique_wallets_300s >= 5
    &&& bot_ratio_at_most(m, 4)
}

/// Strength of a persistence signal in millionths.
pub open spec fn persistence_strength(m: RollingMetricsView) -> int {
    let consistency = 1_000_000 - capped_ratio_ppm(
        crate::fixed::magnitude(m.net_flow_60s_sol - m.net_flow_300s_sol),
        at_least_one_sol(m.net_flow_300s_sol),
    );
    let size = capped_ratio_ppm(m.net_flow_900s_sol, 100_000_000_000);
    (3 * consistency + 3 * size + 2 * wallet_factor(m) + 2 * bot_factor(m)) / 10
}

pub open spec fn persistence_metadata(m: RollingMetricsView) -> Seq<
    (Seq<char>, MetadataValueView),
> {
    seq![
        ("net_flow_60s"@, MetadataValueView::Flow(m.net_flow_60s_sol)),
        ("net_flow_300s"@, MetadataValueView::Flow(m.net_flow_300s_sol)),
        ("net_flow_900s"@, MetadataValueView::Flow(m.net_flow_900s_sol)),
        ("unique_wallets"@, MetadataValueView::Count(m.unique_wallets_300s)),
        ("bot_ratio"@, MetadataValueView::Ratio(bot_ratio_ppm(m))),
    ]
}

/// The persistence signal of a snapshot, where it has one.
pub open spec fn persistence_signal(
    mint: Seq<char>,
    m: RollingMetricsView,
    timestamp: int,
) -> Option<SignalView> {
    if persistence_triggers(m) {
        Some(
            SignalView {
                mint,
                signal_type: SignalType::Persistence,
                strength: clamp_unit(persistence_strength(m)),
                window: "900s"@,
                timestamp,
                metadata: persistence_metadata(m),
            },
        )
    } else {
        None
    }
}

/// Detects persistence: buying that holds across the three shortest windows.
pub fn evaluate_persistence(mint: &str, metrics: &RollingMetrics, timestamp: i64) -> (res: Option<
    Signal,
>)
    requires
        metrics@.wf(),
    ensures
        signal_view(res) == persistence_signal(mint@, metrics@, timestamp as int),
        res matches Some(signal) ==> 0 <= signal.strength <= 1_000_000,
{
    let net_flow_60s = metrics.net_flow_60s_sol;
    let net_flow_300s = metrics.net_flow_300s_sol;
    let net_flow_900s = metrics.net_flow_900s_sol;
    let unique_wallets = metrics.unique_wallets_300s;
    let ratio = bot_ratio(metrics);
    let has_wallets = unique_wallets >= 5;
    let no_bot_surge = bot_ratio_within(metrics, 4);

    if net_flow_60s > 0 && net_flow_300s > 0 && net_flow_900s > 0 && has_wallets && no_bot_surge {
        let gap: i128 = if net_flow_60s >= net_flow_300s {
            net_flow_60s - net_flow_300s
        } else {
            net_flow_300s - net_flow_60s
        };
        let flow_consistency = 1_000_000 - capped_ratio(
            gap as u128,
            one_sol_or_more(net_flow_300s),
        );
        let flow_magnitude = capped_ratio(net_flow_900s as u128, 100_000_000_000);
        let wallet_factor = capped_ratio(unique_wallets as u128, 20);
        let bot_factor = remainder_of_whole(ratio);
        let strength = (3 * flow_consistency + 3 * flow_magnitude + 2 * wallet_factor + 2
            * bot_factor) / 10;

        let mut metadata = SignalMetadata::new();
        metadata.push("net_flow_60s", MetadataValue::Flow(net_flow_60s));
        metadata.push("net_flow_300s", MetadataValue::Flow(net_flow_300s));
        metadata.push("net_flow_900s", MetadataValue::Flow(net_flow_900s));
        metadata.push("unique_wallets", MetadataValue::Count(unique_wallets as i64));
        metadata.push("bot_ratio", MetadataValue::Ratio(ratio as i128));
        assert(metadata@ =~= persistence_metadata(metrics@));

        return Some(
            Signal::new(
                mint.to_owned(),
                SignalType::Persistence,
                strength,
                "900s".to_owned(),
                timestamp,
                metadata,
            ),
        );
    }
    None
}

/// Buys and sells in the 60 s window.
pub open spec fn total_trades_60s(m: RollingMetricsView) -> int {
    m.buy_count_60s + m.sell_count_60s
}

/// Distinct wallets of the 300 s window per trade of the 60 s window, in
/// millionths; zero where the 60 s window has no trade.
pub open spec fn wallets_per_trade_ppm(m: RollingMetricsView) -> int {
    if total_trades_60s(m) > 0 {
        (m.unique_wallets_300s * 1_000_000) / total_trades_60s(m)
    } else {
        0
    }
}

/// What the flow-reversal detector asks for: a negative 60 s flow under a
/// positive 300 s flow, with fewer than one distinct wallet per two trades.
pub open spec fn flow_reversal_triggers(m: RollingMetricsView) -> bool {
    &&& m.net_flow_60s_sol < 0
    &&& m.net_flow_300s_sol > 0
    &&& (total_trades_60s(m) <= 0 || 2 * m.unique_wallets_300s < total_trades_60s(m))
}

/// Strength of a flow reversal in millionths.
pub open spec fn flow_reversal_strength(m: RollingMetricsView) -> int {
    let divergence = capped_ratio_ppm(
        m.net_flow_300s_sol - m.net_flow_60s_sol,
        at_least_one_sol(m.net_flow_300s_sol),
    );
    let size = capped_ratio_ppm(m.net_flow_300s_sol, 50_000_000_000);
    (6 * divergence + 4 * size) / 10
}

pub open spec fn flow_reversal_metadata(m: RollingMetricsView) -> Seq<
    (Seq<char>, MetadataValueView),
> {
    seq![
        ("net_flow_60s"@, MetadataValueView::Flow(m.net_flow_60s_sol)),
        ("net_flow_300s"@, MetadataValueView::Flow(m.net_flow_300s_sol)),
        ("unique_wallets"@, MetadataValueView::Count(m.unique_wallets_300s)),
        ("total_trades_60s"@, MetadataValueView::Count(total_trades_60s(m))),
        ("wallets_per_trade"@, MetadataValueView::Ratio(wallets_per_trade_ppm(m))),
    ]
}

/// The flow-reversal signal of a snapshot, where it has one.
pub open spec fn flow_reversal_signal(
    mint: Seq<char>,
    m: RollingMetricsView,
    timestamp: int,
) -> Option<SignalView> {
    if flow_reversal_triggers(m) {
        Some(
            SignalView {
                mint,
                signal_type: SignalType::FlowReversal,
                strength: clamp_unit(flow_reversal_strength(m)),
                window: "60s"@,
                timestamp,
                metadata: flow_reversal_metadata(m),
            },
        )
    } else {
        None
    }
}

/// Detects a flow reversal: selling in the last minute under a flow that is
/// still positive, among few participants.
pub fn evaluate_flow_reversal(mint: &str, metrics: &RollingMetrics, timestamp: i64) -> (res:
    Option<Signal>)
    requires
        metrics@.wf(),
    ensures
        signal_view(res) == flow_reversal_signal(mint@, metrics@, timestamp as int),
        res matches Some(signal) ==> 0 <= signal.strength <= 1_000_000,
{
    let net_flow_60s = metrics.net_flow_60s_sol;
    let net_flow_300s = metrics.net_flow_300s_sol;
    let unique_wallets = metrics.unique_wallets_300s;
    let flow_60s_negative = net_flow_60s < 0;
    let flow_300s_positive = net_flow_300s > 0;

    let total_trades: i64 = metrics.buy_count_60s as i64 + metrics.sell_count_60s as i64;
    let wallets_per_trade: i64 = if total_trades > 0 {
        let scaled: i64 = unique_wallets as i64 * 1_000_000;
        scaled / total_trades
    } else {
        0
    };
    let wallet_drop = total_trades <= 0 || 2 * (unique_wallets as i64) < total_trades;

    if flow_60s_negative && flow_300s_positive && wallet_drop {
        let divergence_factor = capped_ratio(
            (net_flow_300s - net_flow_60s) as u128,
            one_sol_or_more(net_flow_300s),
        );
        let flow_magnitude = capped_ratio(net_flow_300s as u128, 50_000_000_000);
        let strength = (6 * divergence_factor + 4 * flow_magnitude) / 10;

        let mut metadata = SignalMetadata::new();
        metadata.push("net_flow_60s", MetadataValue::Flow(net_flow_60s));
        metadata.push("net_flow_300s", MetadataValue::Flow(net_flow_300s));
        metadata.push("unique_wallets", MetadataValue::Count(unique_wallets as i64));
        metadata.push("total_trades_60s", MetadataValue::Count(total_trades));
        metadata.push("wallets_per_trade", MetadataValue::Ratio(wallets_per_trade as i128));
        assert(metadata@ =~= flow_reversal_metadata(metrics@));

        return Some(
            Signal::new(
                mint.to_owned(),
                SignalType::FlowReversal,
                strength,
                "60s".to_owned(),
                timestamp,
                metadata,
            ),
        );
    }
    None
}

/// The smallest number of buyers, taken from the largest inflow down, whose
/// inflow makes up seven tenths of all inflow.
pub open spec fn focus_wallets_needed(trades: Seq<TradeEventView>) -> int {
    wallets_needed(sorted_descending(wallet_inflows(trades)), total_inflow(trades))
}

/// What the focused-buyers detector asks for: recent trades, a positive
/// 300 s flow, an inflow of at least one unit of the base currency, and at
/// most 35 in 100 buyers behind seven tenths of the inflow.
pub open spec fn focused_buyers_triggers(m: RollingMetricsView, trades: Seq<TradeEventView>) -> bool {
    &&& trades.len() > 0
    &&& m.net_flow_300s_sol > 0
    &&& total_inflow(trades) >= 1_000_000_000
    &&& 20 * focus_wallets_needed(trades) <= 7 * buyers(trades).len()
}

/// Share of the buyers that are behind seven tenths of the inflow, in
/// millionths.
pub open spec fn focus_score_ppm(trades: Seq<TradeEventView>) -> int {
    (focus_wallets_needed(trades) * 1_000_000) / (buyers(trades).len() as int)
}

/// Strength of a focused-buyers signal in millionths.
pub open spec fn focused_buyers_strength(
    m: RollingMetricsView,
    trades: Seq<TradeEventView>,
) -> int {
    let wallets = buyers(trades).len() as int;
    let concentration = capped_ratio_ppm(
        7 * wallets - 20 * focus_wallets_needed(trades),
        7 * wallets,
    );
    let flow = capped_ratio_ppm(m.net_flow_300s_sol, 50_000_000_000);
    (6 * concentration + 4 * flow) / 10
}

pub open spec fn focused_buyers_metadata(
    m: RollingMetricsView,
    trades: Seq<TradeEventView>,
) -> Seq<(Seq<char>, MetadataValueView)> {
    seq![
        ("f_score"@, MetadataValueView::Ratio(focus_score_ppm(trades))),
        ("wallets_needed"@, MetadataValueView::Count(focus_wallets_needed(trades))),
        ("total_wallets"@, MetadataValueView::Count(buyers(trades).len() as int)),
        ("net_flow_300s"@, MetadataValueView::Flow(m.net_flow_300s_sol)),
        ("total_inflow"@, MetadataValueView::Flow(total_inflow(trades))),
    ]
}

/// The focused-buyers signal of a snapshot and its recent trades, where
/// there is one.
pub open spec fn focused_buyers_signal(
    mint: Seq<char>,
    m: RollingMetricsView,
    trades: Seq<TradeEventView>,
    timestamp: int,
) -> Option<SignalView> {
    if focused_buyers_triggers(m, trades) {
        Some(
            SignalView {
                mint,
                signal_type: SignalType::FocusedBuyers,
                strength: clamp_unit(focused_buyers_strength(m, trades)),
                window: "300s"@,
                timestamp,
                metadata: focused_buyers_metadata(m, trades),
            },
        )
    } else {
        None
    }
}

/// Detects focused buyers: a small share of the buying wallets behind most
/// of the inflow, under a positive flow.
pub fn evaluate_focused_buyers(
    mint: &str,
    metrics: &RollingMetrics,
    recent_trades: &[TradeEvent],
    timestamp: i64,
) -> (res: Option<Signal>)
    requires
        metrics@.wf(),
        recent_trades@.len() <= MAX_WINDOW_TRADES,
        amounts_within(trade_views(recent_trades@)),
    ensures
        signal_view(res) == focused_buyers_signal(
            mint@,
            metrics@,
            trade_views(recent_trades@),
            timestamp as int,
        ),
        res matches Some(signal) ==> 0 <= signal.strength <= 1_000_000,
{
    let ghost trades = trade_views(recent_trades@);
    if recent_trades.len() == 0 || metrics.net_flow_300s_sol <= 0 {
        return None;
    }
    let (inflows, total_inflow) = wallet_inflow_totals(recent_trades);
    if total_inflow < 1_000_000_000 {
        return None;
    }
    let sorted = sort_descending(&inflows);
    proof {
        lemma_inflow_has_buyer(trades);
        lemma_buyers_distinct(trades);
        crate::sorting::lemma_descending_total();
        crate::sorting::amounts(inflows@).lemma_sort_by_ensures(crate::sorting::descending());
        assert forall|j: int| 0 <= j < sorted@.len() implies #[trigger] sorted@[j] <= MAX_FLOW by {
            let x = crate::sorting::amounts(sorted@)[j];
            assert(crate::sorting::amounts(sorted@).contains(x));
            if !crate::sorting::amounts(inflows@).contains(x) {
                assert(!crate::sorting::amounts(sorted@).contains(x));
            }
            let i = choose|i: int|
                0 <= i < crate::sorting::amounts(inflows@).len() && crate::sorting::amounts(
                    inflows@,
                )[i] == x;
            assert(inflows@[i] <= total_inflow);
        }
    }
    let wallets_needed = count_wallets_needed(&sorted, total_inflow);
    let wallet_count = inflows.len();

    if 20 * (wallets_needed as u64) <= 7 * (wallet_count as u64) {
        let f_score: u64 = (wallets_needed as u64 * 1_000_000) / (wallet_count as u64);
        let concentration_factor = capped_ratio(
            (7 * (wallet_count as u64) - 20 * (wallets_needed as u64)) as u128,
            (7 * (wallet_count as u64)) as u128,
        );
        let flow_factor = capped_ratio(metrics.net_flow_300s_sol as u128, 50_000_000_000);
        let strength = (6 * concentration_factor + 4 * flow_factor) / 10;

        let mut metadata = SignalMetadata::new();
        metadata.push("f_score", MetadataValue::Ratio(f_score as i128));
        metadata.push("wallets_needed", MetadataValue::Count(wallets_needed as i64));
        metadata.push("total_wallets", MetadataValue::Count(wallet_count as i64));
        metadata.push("net_flow_300s", MetadataValue::Flow(metrics.net_flow_300s_sol));
        metadata.push("total_inflow", MetadataValue::Flow(total_inflow as i128));
        assert(metadata@ =~= focused_buyers_metadata(metrics@, trades));

        return Some(
            Signal::new(
                mint.to_owned(),
                SignalType::FocusedBuyers,
                strength,
                "300s".to_owned(),
                timestamp,
                metadata,
            ),
        );
    }
    None
}

/// The sequence that holds `signal` where there is one, and nothing
/// otherwise.
pub open spec fn present(signal: Option<SignalView>) -> Seq<SignalView> {
    match signal {
        Some(s) => seq![s],
        None => Seq::empty(),
    }
}

/// The signals of a snapshot and its recent trades at time `now`: breakout,
/// reaccumulation, focused buyers, persistence and flow reversal, in this
/// order, each where its detector finds it.
pub open spec fn signals_at(
    mint: Seq<char>,
    m: RollingMetricsView,
    trades: Seq<TradeEventView>,
    now: int,
) -> Seq<SignalView> {
    present(breakout_signal(mint, m, now)) + present(reaccumulation_signal(mint, m, now))
        + present(focused_buyers_signal(mint, m, trades, now)) + present(
        persistence_signal(mint, m, now),
    ) + present(flow_reversal_signal(mint, m, now))
}

/// The values of a list of signals, in order.
pub open spec fn signal_views(signals: Seq<Signal>) -> Seq<SignalView> {
    signals.map_values(|s: Signal| s@)
}

/// Every signal of a snapshot has a strength between zero and one whole.
pub proof fn lemma_strengths_in_unit(
    mint: Seq<char>,
    m: RollingMetricsView,
    trades: Seq<TradeEventView>,
    now: int,
)
    ensures
        forall|i: int|
            0 <= i < signals_at(mint, m, trades, now).len() ==> 0 <= (#[trigger] signals_at(
                mint,
                m,
                trades,
                now,
            )[i]).strength <= 1_000_000,
{
}

/// On a well-formed snapshot the weighted sum of every detector is between
/// zero and one whole as it stands: bringing it into that range changes
/// nothing.
pub proof fn lemma_strengths_need_no_clamp(m: RollingMetricsView, trades: Seq<TradeEventView>)
    requires
        m.wf(),
    ensures
        breakout_triggers(m) ==> 0 <= breakout_strength(m) <= 1_000_000,
        reaccumulation_triggers(m) ==> 0 <= reaccumulation_strength(m) <= 1_000_000,
        persistence_triggers(m) ==> 0 <= persistence_strength(m) <= 1_000_000,
        flow_reversal_triggers(m) ==> 0 <= flow_reversal_strength(m) <= 1_000_000,
        focused_buyers_triggers(m, trades) ==> 0 <= focused_buyers_strength(m, trades)
            <= 1_000_000,
{
    lemma_capped_ratio_bounds(m.unique_wallets_300s, 20);
    if total_trades_300s(m) > 0 {
        assert(0 <= (m.bot_trades_count_300s * 1_000_000) / total_trades_300s(m))
            by (nonlinear_arith)
            requires
                m.bot_trades_count_300s >= 0,
                total_trades_300s(m) > 0,
        ;
    }
    if breakout_triggers(m) {
        lemma_capped_ratio_bounds(
            m.net_flow_300s_sol - m.net_flow_900s_sol,
            at_least_one_sol(m.net_flow_900s_sol),
        );
        lemma_capped_ratio_bounds(m.net_flow_60s_sol, at_least_one_sol(m.net_flow_300s_sol));
    }
    if reaccumulation_triggers(m) {
        lemma_capped_ratio_bounds(m.dca_flow_300s_sol, 10_000_000_000);
        lemma_capped_ratio_bounds(m.dca_unique_wallets_300s, 5);
        lemma_capped_ratio_bounds(m.net_flow_300s_sol, 50_000_000_000);
        lemma_capped_ratio_bounds(
            m.net_flow_300s_sol - m.net_flow_900s_sol,
            at_least_one_sol(crate::fixed::magnitude(m.net_flow_900s_sol)),
        );
    }
    if persistence_triggers(m) {
        lemma_capped_ratio_bounds(
            crate::fixed::magnitude(m.net_flow_60s_sol - m.net_flow_300s_sol),
            at_least_one_sol(m.net_flow_300s_sol),
        );
        lemma_capped_ratio_bounds(m.net_flow_900s_sol, 100_000_000_000);
    }
    if flow_reversal_triggers(m) {
        lemma_capped_ratio_bounds(
            m.net_flow_300s_sol - m.net_flow_60s_sol,
            at_least_one_sol(m.net_flow_300s_sol),
        );
        lemma_capped_ratio_bounds(m.net_flow_300s_sol, 50_000_000_000);
    }
    if focused_buyers_triggers(m, trades) {
        lemma_inflow_has_buyer(trades);
        crate::inflow::lemma_wallets_needed_least(
            sorted_descending(wallet_inflows(trades)),
            total_inflow(trades),
        );
        lemma_capped_ratio_bounds(
            7 * buyers(trades).len() - 20 * focus_wallets_needed(trades),
            7 * buyers(trades).len() as int,
        );
        lemma_capped_ratio_bounds(m.net_flow_300s_sol, 50_000_000_000);
    }
}

/// Appends `signal` to `signals` where there is one.
fn push_present(signals: &mut Vec<Signal>, signal: Option<Signal>)
    requires
        forall|i: int| 0 <= i < old(signals)@.len() ==> 0 <= (#[trigger] old(signals)@[i]).strength <= 1_000_000,
        signal matches Some(s) ==> 0 <= s.strength <= 1_000_000,
    ensures
        signal_views(final(signals)@) == signal_views(old(signals)@) + present(signal_view(signal)),
        forall|i: int| 0 <= i < final(signals)@.len() ==> 0 <= (#[trigger] final(signals)@[i]).strength <= 1_000_000,
{
    match signal {
        Some(s) => {
            signals.push(s);
            assert(signal_views(signals@) =~= signal_views(old(signals)@) + seq![s@]);
        },
        None => {
            assert(signal_views(signals@) =~= signal_views(old(signals)@) + Seq::<
                SignalView,
            >::empty());
        },
    }
}

/// Runs the five detectors, stamping what they find with the time `now`.
pub fn evaluate_signals_at(
    mint: &str,
    metrics: &RollingMetrics,
    recent_trades: &[TradeEvent],
    now: i64,
) -> (signals: Vec<Signal>)
    requires
        metrics@.wf(),
        recent_trades@.len() <= MAX_WINDOW_TRADES,
        amounts_within(trade_views(recent_trades@)),
    ensures
        signal_views(signals@) == signals_at(
            mint@,
            metrics@,
            trade_views(recent_trades@),
            now as int,
        ),
        forall|i: int| 0 <= i < signals@.len() ==> 0 <= (#[trigger] signals@[i]).strength <= 1_000_000,
{
    let mut signals: Vec<Signal> = Vec::new();
    assert(signal_views(signals@) =~= Seq::<SignalView>::empty());
    push_present(&mut signals, evaluate_breakout(mint, metrics, now));
    push_present(&mut signals, evaluate_reaccumulation(mint, metrics, now));
    push_present(&mut signals, evaluate_focused_buyers(mint, metrics, recent_trades, now));
    push_present(&mut signals, evaluate_persistence(mint, metrics, now));
    push_present(&mut signals, evaluate_flow_reversal(mint, metrics, now));
    assert(signal_views(signals@) =~= signals_at(
        mint@,
        metrics@,
        trade_views(recent_trades@),
        now as int,
    ));
    signals
}

/// Runs the five detectors, stamping what they find with the current time
/// of the system clock. Panics where the clock is set to a time that chrono
/// cannot represent; [`evaluate_signals_at`] takes the time as an argument
/// and never does.
pub fn evaluate_signals(mint: &str, metrics: &RollingMetrics, recent_trades: &[TradeEvent]) -> (signals:
    Vec<Signal>)
    requires
        metrics@.wf(),
        recent_trades@.len() <= MAX_WINDOW_TRADES,
        amounts_within(trade_views(recent_trades@)),
    ensures
        exists|now: i64|
            signal_views(signals@) == signals_at(
                mint@,
                metrics@,
                trade_views(recent_trades@),
                now as int,
            ),
        forall|i: int| 0 <= i < signals@.len() ==> 0 <= (#[trigger] signals@[i]).strength <= 1_000_000,
{
    let now = unix_now();
    evaluate_signals_at(mint, metrics, recent_trades, now)
}

} // verus!
