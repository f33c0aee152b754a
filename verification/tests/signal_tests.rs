use solflow::signals::{
    evaluate_breakout, evaluate_flow_reversal, evaluate_focused_buyers, evaluate_persistence,
    evaluate_reaccumulation, evaluate_signals, evaluate_signals_at, MetadataValue, Signal,
    SignalMetadata, SignalType, TokenSignal,
};
use solflow::state::RollingMetrics;
use solflow::types::{TradeDirection, TradeEvent};

const SOL: i128 = 1_000_000_000;

fn unit(strength: i64) -> f64 {
    strength as f64 / 1e6
}

fn create_test_metrics() -> RollingMetrics {
    RollingMetrics {
        net_flow_60s_sol: 10 * SOL,
        net_flow_300s_sol: 50 * SOL,
        net_flow_900s_sol: 40 * SOL,
        net_flow_3600s_sol: 200 * SOL,
        net_flow_7200s_sol: 300 * SOL,
        net_flow_14400s_sol: 500 * SOL,
        buy_count_60s: 5,
        sell_count_60s: 2,
        buy_count_300s: 25,
        sell_count_300s: 10,
        buy_count_900s: 60,
        sell_count_900s: 30,
        unique_wallets_300s: 15,
        bot_wallets_count_300s: 2,
        bot_trades_count_300s: 5,
        bot_flow_300s_sol: 5 * SOL,
        dca_buys_60s: 2,
        dca_buys_300s: 8,
        dca_buys_900s: 20,
        dca_buys_3600s: 50,
        dca_buys_14400s: 100,
        dca_flow_300s_sol: 15 * SOL,
        dca_unique_wallets_300s: 3,
        dca_ratio_300s: 300_000,
    }
}

fn create_test_trade(wallet: &str, sol_amount: f64, direction: TradeDirection) -> TradeEvent {
    TradeEvent {
        timestamp: 1000,
        mint: "test_mint".to_string(),
        direction,
        sol_amount: (sol_amount * 1e9).round() as u128,
        token_amount: 1000,
        token_decimals: 6,
        user_account: wallet.to_string(),
        source_program: "PumpSwap".to_string(),
        is_bot: false,
        is_dca: false,
    }
}

fn buys(amounts: &[f64]) -> Vec<TradeEvent> {
    amounts
        .iter()
        .enumerate()
        .map(|(i, a)| create_test_trade(&format!("wallet{}", i), *a, TradeDirection::Buy))
        .collect()
}

#[test]
fn test_signal_type_as_str() {
    assert_eq!(SignalType::Breakout.as_str(), "BREAKOUT");
    assert_eq!(SignalType::Reaccumulation.as_str(), "REACCUMULATION");
    assert_eq!(SignalType::FocusedBuyers.as_str(), "FOCUSED_BUYERS");
    assert_eq!(SignalType::Persistence.as_str(), "PERSISTENCE");
    assert_eq!(SignalType::FlowReversal.as_str(), "FLOW_REVERSAL");
}

#[test]
fn legacy_signal_type_names() {
    assert_eq!(SignalType::Focused.as_str(), "FOCUSED");
    assert_eq!(SignalType::Surge.as_str(), "SURGE");
    assert_eq!(SignalType::BotDropoff.as_str(), "BOT_DROPOFF");
    assert_eq!(SignalType::DcaConviction.as_str(), "DCA_CONVICTION");
}

#[test]
fn test_trade_direction_normalization() {
    assert_eq!(TradeDirection::Buy, TradeDirection::Buy);
    assert_eq!(TradeDirection::Sell, TradeDirection::Sell);
}

#[test]
fn test_breakout_signal_triggered() {
    let mut metrics = create_test_metrics();

    metrics.net_flow_60s_sol = 60 * SOL;
    metrics.net_flow_300s_sol = 50 * SOL;
    metrics.net_flow_900s_sol = 40 * SOL;
    metrics.unique_wallets_300s = 10;
    metrics.bot_trades_count_300s = 5;
    metrics.buy_count_300s = 25;
    metrics.sell_count_300s = 10;

    let signal = evaluate_breakout("test_mint", &metrics, 1000);

    assert!(signal.is_some());
    let signal = signal.unwrap();
    assert_eq!(signal.signal_type, SignalType::Breakout);
    assert!(unit(signal.strength) > 0.0 && unit(signal.strength) <= 1.0);
    assert_eq!(signal.window, "300s");
    assert_eq!(signal.mint, "test_mint");
    assert_eq!(signal.timestamp, 1000);
    assert_eq!(signal.strength, 646_428);
}

#[test]
fn test_breakout_signal_not_triggered_high_bot_ratio() {
    let mut metrics = create_test_metrics();

    metrics.net_flow_60s_sol = 60 * SOL;
    metrics.net_flow_300s_sol = 50 * SOL;
    metrics.net_flow_900s_sol = 40 * SOL;
    metrics.unique_wallets_300s = 10;
    metrics.bot_trades_count_300s = 15;
    metrics.buy_count_300s = 25;
    metrics.sell_count_300s = 10;

    let signal = evaluate_breakout("test_mint", &metrics, 1000);

    assert!(signal.is_none());
}

#[test]
fn test_reaccumulation_signal_triggered() {
    let mut metrics = create_test_metrics();

    metrics.dca_flow_300s_sol = 10 * SOL;
    metrics.dca_unique_wallets_300s = 3;
    metrics.net_flow_300s_sol = 50 * SOL;
    metrics.net_flow_900s_sol = 40 * SOL;

    let signal = evaluate_reaccumulation("test_mint", &metrics, 1000);

    assert!(signal.is_some());
    let signal = signal.unwrap();
    assert_eq!(signal.signal_type, SignalType::Reaccumulation);
    assert!(unit(signal.strength) > 0.0 && unit(signal.strength) <= 1.0);
    assert_eq!(signal.window, "300s");
    assert_eq!(signal.strength, 770_000);
}

#[test]
fn test_reaccumulation_signal_not_triggered_insufficient_dca_wallets() {
    let mut metrics = create_test_metrics();

    metrics.dca_flow_300s_sol = 10 * SOL;
    metrics.dca_unique_wallets_300s = 1;
    metrics.net_flow_300s_sol = 50 * SOL;
    metrics.net_flow_900s_sol = 40 * SOL;

    let signal = evaluate_reaccumulation("test_mint", &metrics, 1000);

    assert!(signal.is_none());
}

#[test]
fn test_focused_buyers_signal_triggered() {
    let metrics = create_test_metrics();

    let trades = vec![
        create_test_trade("whale1", 20.0, TradeDirection::Buy),
        create_test_trade("whale2", 15.0, TradeDirection::Buy),
        create_test_trade("whale3", 10.0, TradeDirection::Buy),
        create_test_trade("small1", 1.0, TradeDirection::Buy),
        create_test_trade("small2", 1.0, TradeDirection::Buy),
        create_test_trade("small3", 1.0, TradeDirection::Buy),
        create_test_trade("small4", 1.0, TradeDirection::Buy),
        create_test_trade("small5", 1.0, TradeDirection::Buy),
    ];

    let signal = evaluate_focused_buyers("test_mint", &metrics, &trades, 1000);

    assert!(signal.is_some());
    let signal = signal.unwrap();
    assert_eq!(signal.signal_type, SignalType::FocusedBuyers);
    assert!(unit(signal.strength) > 0.0 && unit(signal.strength) <= 1.0);
    assert_eq!(signal.window, "300s");
    assert_eq!(signal.metadata.get("wallets_needed"), Some(MetadataValue::Count(2)));
    assert_eq!(signal.metadata.get("total_wallets"), Some(MetadataValue::Count(8)));
    assert_eq!(signal.metadata.get("f_score"), Some(MetadataValue::Ratio(250_000)));
    assert_eq!(signal.metadata.get("total_inflow"), Some(MetadataValue::Flow(50 * SOL)));
    assert_eq!(signal.strength, 571_428);
}

#[test]
fn test_focused_buyers_signal_not_triggered_distributed_flow() {
    let metrics = create_test_metrics();

    let mut trades = vec![];
    for i in 0..20 {
        trades.push(create_test_trade(&format!("wallet{}", i), 5.0, TradeDirection::Buy));
    }

    let signal = evaluate_focused_buyers("test_mint", &metrics, &trades, 1000);

    assert!(signal.is_none());
}

#[test]
fn test_persistence_signal_triggered() {
    let mut metrics = create_test_metrics();

    metrics.net_flow_60s_sol = 10 * SOL;
    metrics.net_flow_300s_sol = 50 * SOL;
    metrics.net_flow_900s_sol = 100 * SOL;
    metrics.unique_wallets_300s = 10;
    metrics.bot_trades_count_300s = 5;
    metrics.buy_count_300s = 25;
    metrics.sell_count_300s = 10;

    let signal = evaluate_persistence("test_mint", &metrics, 1000);

    assert!(signal.is_some());
    let signal = signal.unwrap();
    assert_eq!(signal.signal_type, SignalType::Persistence);
    assert!(unit(signal.strength) > 0.0 && unit(signal.strength) <= 1.0);
    assert_eq!(signal.window, "900s");
    assert_eq!(signal.strength, 631_428);
}

#[test]
fn test_persistence_signal_not_triggered_negative_60s() {
    let mut metrics = create_test_metrics();

    metrics.net_flow_60s_sol = -10 * SOL;
    metrics.net_flow_300s_sol = 50 * SOL;
    metrics.net_flow_900s_sol = 100 * SOL;
    metrics.unique_wallets_300s = 10;

    let signal = evaluate_persistence("test_mint", &metrics, 1000);

    assert!(signal.is_none());
}

#[test]
fn test_flow_reversal_signal_triggered() {
    let mut metrics = create_test_metrics();

    metrics.net_flow_60s_sol = -5 * SOL;
    metrics.net_flow_300s_sol = 50 * SOL;
    metrics.buy_count_60s = 10;
    metrics.sell_count_60s = 5;
    metrics.unique_wallets_300s = 5;

    let signal = evaluate_flow_reversal("test_mint", &metrics, 1000);

    assert!(signal.is_some());
    let signal = signal.unwrap();
    assert_eq!(signal.signal_type, SignalType::FlowReversal);
    assert!(unit(signal.strength) > 0.0 && unit(signal.strength) <= 1.0);
    assert_eq!(signal.window, "60s");
    assert_eq!(signal.strength, 1_000_000);
    assert_eq!(signal.metadata.get("total_trades_60s"), Some(MetadataValue::Count(15)));
    assert_eq!(signal.metadata.get("wallets_per_trade"), Some(MetadataValue::Ratio(333_333)));
}

#[test]
fn test_flow_reversal_signal_not_triggered_both_positive() {
    let mut metrics = create_test_metrics();

    metrics.net_flow_60s_sol = 10 * SOL;
    metrics.net_flow_300s_sol = 50 * SOL;

    let signal = evaluate_flow_reversal("test_mint", &metrics, 1000);

    assert!(signal.is_none());
}

#[test]
fn test_evaluate_signals_multiple_triggers() {
    let mut metrics = create_test_metrics();

    metrics.net_flow_60s_sol = 60 * SOL;
    metrics.net_flow_300s_sol = 50 * SOL;
    metrics.net_flow_900s_sol = 40 * SOL;
    metrics.unique_wallets_300s = 10;
    metrics.bot_trades_count_300s = 5;
    metrics.buy_count_300s = 25;
    metrics.sell_count_300s = 10;
    metrics.dca_flow_300s_sol = 10 * SOL;
    metrics.dca_unique_wallets_300s = 3;

    let trades = vec![
        create_test_trade("whale1", 20.0, TradeDirection::Buy),
        create_test_trade("whale2", 15.0, TradeDirection::Buy),
        create_test_trade("small1", 1.0, TradeDirection::Buy),
    ];

    let signals = evaluate_signals("test_mint", &metrics, &trades);

    assert!(signals.len() >= 2);
    assert!(signals.iter().any(|s| s.signal_type == SignalType::Breakout));
    assert!(signals.iter().any(|s| s.signal_type == SignalType::Reaccumulation));
}

#[test]
fn test_signal_strength_bounds() {
    let metrics = create_test_metrics();
    let trades = vec![create_test_trade("wallet1", 50.0, TradeDirection::Buy)];

    let signals = evaluate_signals("test_mint", &metrics, &trades);

    for signal in signals {
        assert!(unit(signal.strength) >= 0.0);
        assert!(unit(signal.strength) <= 1.0);
    }
}

#[test]
fn test_signal_metadata_includes_key_metrics() {
    let metrics = create_test_metrics();

    let signal = evaluate_breakout("test_mint", &metrics, 1000);

    if let Some(signal) = signal {
        assert!(signal.metadata.get("net_flow_60s").is_some());
        assert!(signal.metadata.get("net_flow_300s").is_some());
        assert!(signal.metadata.get("unique_wallets").is_some());
        assert!(signal.metadata.get("bot_ratio").is_some());
    }
}

#[test]
fn breakout_metadata_holds_the_inputs() {
    let mut metrics = create_test_metrics();
    metrics.net_flow_60s_sol = 60 * SOL;
    metrics.unique_wallets_300s = 10;

    let signal = evaluate_breakout("test_mint", &metrics, 1000).unwrap();

    assert_eq!(signal.metadata.len(), 5);
    assert_eq!(signal.metadata.get("net_flow_60s"), Some(MetadataValue::Flow(60 * SOL)));
    assert_eq!(signal.metadata.get("net_flow_300s"), Some(MetadataValue::Flow(50 * SOL)));
    assert_eq!(signal.metadata.get("net_flow_900s"), Some(MetadataValue::Flow(40 * SOL)));
    assert_eq!(signal.metadata.get("unique_wallets"), Some(MetadataValue::Count(10)));
    assert_eq!(signal.metadata.get("bot_ratio"), Some(MetadataValue::Ratio(142_857)));
    assert_eq!(signal.metadata.get("dca_flow"), None);
}

#[test]
fn test_focused_buyers_empty_trades() {
    let metrics = create_test_metrics();
    let trades = vec![];

    let signal = evaluate_focused_buyers("test_mint", &metrics, &trades, 1000);

    assert!(signal.is_none());
}

#[test]
fn test_focused_buyers_negative_net_flow() {
    let mut metrics = create_test_metrics();
    metrics.net_flow_300s_sol = -50 * SOL;

    let trades = vec![
        create_test_trade("whale1", 20.0, TradeDirection::Buy),
        create_test_trade("whale2", 15.0, TradeDirection::Buy),
    ];

    let signal = evaluate_focused_buyers("test_mint", &metrics, &trades, 1000);

    assert!(signal.is_none());
}

#[test]
fn test_breakout_edge_case_zero_trades() {
    let mut metrics = create_test_metrics();

    metrics.buy_count_300s = 0;
    metrics.sell_count_300s = 0;
    metrics.bot_trades_count_300s = 0;

    let signal = evaluate_breakout("test_mint", &metrics, 1000);

    assert!(signal.is_none());
}

#[test]
fn breakout_without_trades_counts_no_bots() {
    let mut metrics = create_test_metrics();
    metrics.net_flow_60s_sol = 60 * SOL;
    metrics.buy_count_300s = 0;
    metrics.sell_count_300s = 0;
    metrics.bot_trades_count_300s = 0;

    let signal = evaluate_breakout("test_mint", &metrics, 1000).unwrap();
    assert_eq!(signal.metadata.get("bot_ratio"), Some(MetadataValue::Ratio(0)));
    assert_eq!(signal.strength, 725_000);
}

#[test]
fn breakout_at_the_bot_ratio_limit() {
    let mut metrics = create_test_metrics();
    metrics.net_flow_60s_sol = 60 * SOL;
    metrics.buy_count_300s = 6;
    metrics.sell_count_300s = 4;
    metrics.bot_trades_count_300s = 3;
    assert!(evaluate_breakout("m", &metrics, 1).is_some());
    metrics.bot_trades_count_300s = 4;
    assert!(evaluate_breakout("m", &metrics, 1).is_none());
    assert!(evaluate_persistence("m", &metrics, 1).is_some());
    metrics.bot_trades_count_300s = 5;
    assert!(evaluate_persistence("m", &metrics, 1).is_none());
}

#[test]
fn breakout_needs_five_wallets() {
    let mut metrics = create_test_metrics();
    metrics.net_flow_60s_sol = 60 * SOL;
    metrics.unique_wallets_300s = 4;
    assert!(evaluate_breakout("m", &metrics, 1).is_none());
    metrics.unique_wallets_300s = 5;
    assert!(evaluate_breakout("m", &metrics, 1).is_some());
}

#[test]
fn breakout_against_a_negative_comparison_window() {
    let mut metrics = create_test_metrics();
    metrics.net_flow_60s_sol = 3 * SOL;
    metrics.net_flow_300s_sol = 2 * SOL;
    metrics.net_flow_900s_sol = -40 * SOL;
    metrics.unique_wallets_300s = 20;
    metrics.bot_trades_count_300s = 0;
    let signal = evaluate_breakout("m", &metrics, 1).unwrap();
    assert_eq!(signal.strength, 1_000_000);
}

#[test]
fn reaccumulation_measures_momentum_against_the_magnitude() {
    let mut metrics = create_test_metrics();
    metrics.dca_flow_300s_sol = 5 * SOL;
    metrics.dca_unique_wallets_300s = 2;
    metrics.net_flow_300s_sol = 25 * SOL;
    metrics.net_flow_900s_sol = -100 * SOL;
    let signal = evaluate_reaccumulation("m", &metrics, 1).unwrap();
    assert_eq!(signal.strength, 580_000);
    assert_eq!(signal.metadata.get("dca_ratio"), Some(MetadataValue::Ratio(300_000)));
    assert_eq!(signal.metadata.get("dca_wallets"), Some(MetadataValue::Count(2)));
}

#[test]
fn flow_reversal_needs_few_wallets_per_trade() {
    let mut metrics = create_test_metrics();
    metrics.net_flow_60s_sol = -5 * SOL;
    metrics.buy_count_60s = 6;
    metrics.sell_count_60s = 4;
    metrics.unique_wallets_300s = 5;
    assert!(evaluate_flow_reversal("m", &metrics, 1).is_none());
    metrics.unique_wallets_300s = 4;
    assert!(evaluate_flow_reversal("m", &metrics, 1).is_some());
    metrics.buy_count_60s = 0;
    metrics.sell_count_60s = 0;
    metrics.unique_wallets_300s = 50;
    let signal = evaluate_flow_reversal("m", &metrics, 1).unwrap();
    assert_eq!(signal.metadata.get("wallets_per_trade"), Some(MetadataValue::Ratio(0)));
}

#[test]
fn flow_reversal_strength_of_a_small_flow() {
    let mut metrics = create_test_metrics();
    metrics.net_flow_60s_sol = -1 * SOL / 4;
    metrics.net_flow_300s_sol = SOL / 2;
    metrics.buy_count_60s = 10;
    metrics.sell_count_60s = 10;
    metrics.unique_wallets_300s = 3;
    let signal = evaluate_flow_reversal("m", &metrics, 1).unwrap();
    assert_eq!(signal.strength, 454_000);
}

#[test]
fn focused_buyers_on_the_listed_distributions() {
    let mut metrics = create_test_metrics();
    metrics.net_flow_300s_sol = 45_200_000_000;

    let six = buys(&[20.0, 15.0, 10.0, 1.0, 1.0, 1.0]);
    let signal = evaluate_focused_buyers("m", &metrics, &six, 1).unwrap();
    assert_eq!(signal.metadata.get("wallets_needed"), Some(MetadataValue::Count(2)));
    assert_eq!(signal.metadata.get("f_score"), Some(MetadataValue::Ratio(333_333)));

    let five = buys(&[30.0, 20.0, 1.0, 1.0, 1.0]);
    assert!(evaluate_focused_buyers("m", &metrics, &five, 1).is_none());

    let ten = buys(&[30.0, 20.0, 10.0, 1.0, 1.0, 1.0, 1.0, 1.0, 1.0, 1.0]);
    let signal = evaluate_focused_buyers("m", &metrics, &ten, 1).unwrap();
    assert_eq!(signal.metadata.get("wallets_needed"), Some(MetadataValue::Count(2)));
    assert_eq!(signal.metadata.get("total_wallets"), Some(MetadataValue::Count(10)));
    assert_eq!(signal.metadata.get("total_inflow"), Some(MetadataValue::Flow(67 * SOL)));
    assert_eq!(signal.strength, 618_742);
}

#[test]
fn focused_buyers_adds_up_each_wallet_and_ignores_sells() {
    let metrics = create_test_metrics();
    let mut trades = vec![
        create_test_trade("small1", 1.0, TradeDirection::Buy),
        create_test_trade("whale", 10.0, TradeDirection::Buy),
        create_test_trade("seller", 500.0, TradeDirection::Sell),
        create_test_trade("small2", 1.0, TradeDirection::Buy),
        create_test_trade("whale", 30.0, TradeDirection::Buy),
        create_test_trade("nobody", 0.0, TradeDirection::Buy),
        create_test_trade("unknown", 9.0, TradeDirection::Unknown),
    ];
    for i in 3..=6 {
        trades.push(create_test_trade(&format!("small{}", i), 1.0, TradeDirection::Buy));
    }
    let signal = evaluate_focused_buyers("m", &metrics, &trades, 1).unwrap();
    assert_eq!(signal.metadata.get("total_wallets"), Some(MetadataValue::Count(7)));
    assert_eq!(signal.metadata.get("wallets_needed"), Some(MetadataValue::Count(1)));
    assert_eq!(signal.metadata.get("total_inflow"), Some(MetadataValue::Flow(46 * SOL)));
    assert_eq!(signal.metadata.get("f_score"), Some(MetadataValue::Ratio(142_857)));
}

#[test]
fn focused_buyers_needs_an_inflow_of_one_sol() {
    let metrics = create_test_metrics();
    let mut trades = buys(&[0.9]);
    trades.extend(buys(&[0.01, 0.01, 0.01]).into_iter().map(|mut t| {
        t.user_account.push('x');
        t
    }));
    assert!(evaluate_focused_buyers("m", &metrics, &trades, 1).is_none());
    let trades = buys(&[0.97, 0.01, 0.01, 0.01]);
    assert!(evaluate_focused_buyers("m", &metrics, &trades, 1).is_some());
}

#[test]
fn signals_come_in_the_order_of_the_detectors() {
    let mut metrics = create_test_metrics();
    metrics.net_flow_60s_sol = 60 * SOL;
    metrics.net_flow_300s_sol = 50 * SOL;
    metrics.net_flow_900s_sol = 40 * SOL;
    metrics.unique_wallets_300s = 10;
    metrics.dca_flow_300s_sol = 10 * SOL;
    let trades = buys(&[30.0, 20.0, 10.0, 1.0, 1.0, 1.0, 1.0, 1.0, 1.0, 1.0]);

    let signals = evaluate_signals_at("test_mint", &metrics, &trades, 77);

    let kinds: Vec<SignalType> = signals.iter().map(|s| s.signal_type).collect();
    assert_eq!(
        kinds,
        vec![
            SignalType::Breakout,
            SignalType::Reaccumulation,
            SignalType::FocusedBuyers,
            SignalType::Persistence,
        ]
    );
    for signal in &signals {
        assert_eq!(signal.timestamp, 77);
        assert_eq!(signal.mint, "test_mint");
        assert!(signal.strength >= 0 && signal.strength <= 1_000_000);
    }
}

#[test]
fn evaluate_signals_stamps_with_the_clock() {
    let mut metrics = create_test_metrics();
    metrics.net_flow_60s_sol = 60 * SOL;
    metrics.unique_wallets_300s = 10;
    let signals = evaluate_signals("test_mint", &metrics, &[]);
    assert!(!signals.is_empty());
    for signal in &signals {
        assert!(signal.timestamp > 1_600_000_000);
    }
}

#[test]
fn no_signal_on_a_flat_market() {
    let metrics = RollingMetrics {
        net_flow_60s_sol: 0,
        net_flow_300s_sol: 0,
        net_flow_900s_sol: 0,
        net_flow_3600s_sol: 0,
        net_flow_7200s_sol: 0,
        net_flow_14400s_sol: 0,
        buy_count_60s: 0,
        sell_count_60s: 0,
        buy_count_300s: 0,
        sell_count_300s: 0,
        buy_count_900s: 0,
        sell_count_900s: 0,
        unique_wallets_300s: 0,
        bot_wallets_count_300s: 0,
        bot_trades_count_300s: 0,
        bot_flow_300s_sol: 0,
        dca_buys_60s: 0,
        dca_buys_300s: 0,
        dca_buys_900s: 0,
        dca_buys_3600s: 0,
        dca_buys_14400s: 0,
        dca_flow_300s_sol: 0,
        dca_unique_wallets_300s: 0,
        dca_ratio_300s: 0,
    };
    assert!(metrics.is_well_formed());
    assert!(evaluate_signals_at("m", &metrics, &buys(&[5.0]), 1).is_empty());
}

#[test]
fn signal_new_clamps_the_strength() {
    let low = Signal::new(
        "m".to_string(),
        SignalType::Surge,
        -5,
        "60s".to_string(),
        9,
        SignalMetadata::new(),
    );
    assert_eq!(low.strength, 0);
    let high = Signal::new(
        "m".to_string(),
        SignalType::Surge,
        1_000_001,
        "60s".to_string(),
        9,
        SignalMetadata::new(),
    );
    assert_eq!(high.strength, 1_000_000);
    let kept = Signal::new(
        "m".to_string(),
        SignalType::Surge,
        250_000,
        "60s".to_string(),
        9,
        SignalMetadata::new(),
    );
    assert_eq!(kept.strength, 250_000);
    assert_eq!(kept.mint, "m");
    assert_eq!(kept.window, "60s");
    assert_eq!(kept.timestamp, 9);
    assert_eq!(kept.signal_type, SignalType::Surge);
    assert_eq!(kept.metadata.len(), 0);
}

#[test]
fn metadata_get_returns_the_first_match() {
    let mut metadata = SignalMetadata::new();
    metadata.push("a", MetadataValue::Count(1));
    metadata.push("b", MetadataValue::Flow(-2));
    metadata.push("a", MetadataValue::Ratio(3));
    assert_eq!(metadata.len(), 3);
    assert_eq!(metadata.get("a"), Some(MetadataValue::Count(1)));
    assert_eq!(metadata.get("b"), Some(MetadataValue::Flow(-2)));
    assert_eq!(metadata.get("c"), None);
}

#[test]
fn token_signal_builders() {
    let signal = TokenSignal::new("m".to_string(), SignalType::Focused, 300, 1234);
    assert_eq!(signal.mint, "m");
    assert_eq!(signal.signal_type, SignalType::Focused);
    assert_eq!(signal.window_seconds, 300);
    assert_eq!(signal.severity, 1);
    assert_eq!(signal.score, None);
    assert_eq!(signal.details_json, None);
    assert_eq!(signal.created_at, 1234);

    let signal = signal.with_severity(9).with_score(750_000).with_details("{}".to_string());
    assert_eq!(signal.severity, 5);
    assert_eq!(signal.score, Some(750_000));
    assert_eq!(signal.details_json, Some("{}".to_string()));
    assert_eq!(signal.window_seconds, 300);

    assert_eq!(TokenSignal::new("m".to_string(), SignalType::Surge, 60, 1).with_severity(0).severity, 1);
    assert_eq!(TokenSignal::new("m".to_string(), SignalType::Surge, 60, 1).with_severity(3).severity, 3);
}
