use solflow::db::{
    direction_of_side, recent_cutoff, stored_flag, trade_from_row, trade_side, WriteBatcher,
    WriteRequest, FLUSH_BATCH_SIZE, FLUSH_INTERVAL_MS, WRITE_QUEUE_CAPACITY,
};
use solflow::fixed::MAX_SOL_AMOUNT;
use solflow::processor::{
    admits_signature, fee_payer_net_flow, is_notable_flow, process_first_trade, process_trade,
    Dispatch,
};
use solflow::state::{RollingMetrics, TokenRollingState};
use solflow::trade_extractor::TransactionInfo;
use solflow::types::{TradeDirection, TradeEvent};

fn create_test_metrics() -> RollingMetrics {
    RollingMetrics {
        net_flow_60s_sol: 10_000_000_000,
        net_flow_300s_sol: 50_000_000_000,
        net_flow_900s_sol: 150_000_000_000,
        net_flow_3600s_sol: 500_000_000_000,
        net_flow_7200s_sol: 800_000_000_000,
        net_flow_14400s_sol: 1_200_000_000_000,
        buy_count_60s: 5,
        sell_count_60s: 2,
        buy_count_300s: 20,
        sell_count_300s: 10,
        buy_count_900s: 50,
        sell_count_900s: 30,
        unique_wallets_300s: 15,
        bot_wallets_count_300s: 2,
        bot_trades_count_300s: 5,
        bot_flow_300s_sol: 8_000_000_000,
        dca_buys_60s: 1,
        dca_buys_300s: 3,
        dca_buys_900s: 8,
        dca_buys_3600s: 20,
        dca_buys_14400s: 40,
        dca_flow_300s_sol: 12_000_000_000,
        dca_unique_wallets_300s: 3,
        dca_ratio_300s: 240_000,
    }
}

fn create_test_trade(timestamp: i64) -> TradeEvent {
    TradeEvent {
        timestamp,
        mint: "test_mint".to_string(),
        direction: TradeDirection::Buy,
        sol_amount: 5_000_000_000,
        token_amount: 1000,
        token_decimals: 6,
        user_account: "test_wallet".to_string(),
        source_program: "PumpSwap".to_string(),
        is_bot: false,
        is_dca: false,
    }
}

#[test]
fn test_trade_direction_mapping() {
    assert_eq!(trade_side(TradeDirection::Buy), "buy");
    assert_eq!(trade_side(TradeDirection::Sell), "sell");
    assert_eq!(trade_side(TradeDirection::Unknown), "unknown");
}

#[test]
fn flags_of_ten_trades_as_stored() {
    let mut rows = Vec::new();
    for i in 0..10 {
        let mut trade = create_test_trade(1000 + i);
        trade.is_bot = i % 3 == 0;
        trade.is_dca = i % 5 == 0;
        rows.push((stored_flag(trade.is_bot), stored_flag(trade.is_dca)));
    }

    assert_eq!(rows.len(), 10);

    let bot_count = rows.iter().filter(|r| r.0 == 1).count();
    assert_eq!(bot_count, 4);

    let dca_count = rows.iter().filter(|r| r.1 == 1).count();
    assert_eq!(dca_count, 2);
}

#[test]
fn sides_read_back_as_directions() {
    assert_eq!(direction_of_side("buy"), TradeDirection::Buy);
    assert_eq!(direction_of_side("sell"), TradeDirection::Sell);
    assert_eq!(direction_of_side("unknown"), TradeDirection::Unknown);
    assert_eq!(direction_of_side("BUY"), TradeDirection::Unknown);
    assert_eq!(direction_of_side(""), TradeDirection::Unknown);
    for d in [TradeDirection::Buy, TradeDirection::Sell, TradeDirection::Unknown] {
        assert_eq!(direction_of_side(trade_side(d)), d);
    }
}

#[test]
fn flags_are_stored_as_zero_and_one() {
    assert_eq!(stored_flag(true), 1);
    assert_eq!(stored_flag(false), 0);
}

#[test]
fn rows_read_back_as_trades() {
    let trade = trade_from_row("m".to_string(), 12, "w".to_string(), "sell", 77, 1, 0);
    assert_eq!(trade.mint, "m");
    assert_eq!(trade.timestamp, 12);
    assert_eq!(trade.user_account, "w");
    assert_eq!(trade.direction, TradeDirection::Sell);
    assert_eq!(trade.sol_amount, 77);
    assert_eq!(trade.token_amount, 0);
    assert_eq!(trade.token_decimals, 0);
    assert_eq!(trade.source_program, "Unknown");
    assert!(trade.is_bot);
    assert!(!trade.is_dca);

    let trade = trade_from_row("m".to_string(), 12, "w".to_string(), "buy", 77, 0, 1);
    assert_eq!(trade.source_program, "JupiterDCA");
    assert!(!trade.is_bot);
    assert!(trade.is_dca);

    let trade = trade_from_row("m".to_string(), 12, "w".to_string(), "other", 77, 2, 2);
    assert_eq!(trade.direction, TradeDirection::Unknown);
    assert_eq!(trade.source_program, "Unknown");
    assert!(!trade.is_bot);
    assert!(!trade.is_dca);
}

#[test]
fn recent_cutoff_is_now_less_the_window() {
    assert_eq!(recent_cutoff(1_000, 300), 700);
    assert_eq!(recent_cutoff(0, 300), -300);
}

#[test]
fn pipeline_constants() {
    assert_eq!(WRITE_QUEUE_CAPACITY, 1000);
    assert_eq!(FLUSH_BATCH_SIZE, 100);
    assert_eq!(FLUSH_INTERVAL_MS, 100);
}

#[test]
fn take_hands_out_the_batch_in_order() {
    let metrics = create_test_metrics();
    let trade = create_test_trade(1000);

    let mut batcher = WriteBatcher::new();
    assert!(!batcher.push(WriteRequest::Metrics { mint: "mint1".to_string(), metrics }, 0));
    assert!(!batcher.push(WriteRequest::Trade(trade.clone()), 0));
    assert!(!batcher.push(WriteRequest::Metrics { mint: "mint2".to_string(), metrics }, 0));

    let batch = batcher.take();

    assert_eq!(batcher.len(), 0);
    assert_eq!(batch.len(), 3);
    assert!(matches!(&batch[0], WriteRequest::Metrics { mint, .. } if mint == "mint1"));
    assert!(matches!(&batch[1], WriteRequest::Trade(t) if t.timestamp == 1000));
    assert!(matches!(&batch[2], WriteRequest::Metrics { mint, .. } if mint == "mint2"));
}

#[test]
fn the_hundredth_request_makes_the_batch_due() {
    let metrics = create_test_metrics();

    let mut batcher = WriteBatcher::new();
    for i in 0..100 {
        let due = batcher.push(WriteRequest::Metrics { mint: format!("mint_{}", i), metrics }, 0);
        assert_eq!(due, i == 99);
    }
    assert_eq!(batcher.take().len(), 100);
}

#[test]
fn a_burst_of_250_requests_takes_three_flushes() {
    let metrics = create_test_metrics();
    let mut batcher = WriteBatcher::new();
    let mut flushed: Vec<usize> = Vec::new();
    for i in 0..250 {
        if batcher.push(WriteRequest::Metrics { mint: format!("mint_{}", i), metrics }, 3) {
            flushed.push(batcher.take().len());
        }
    }
    assert!(batcher.due_on_tick());
    flushed.push(batcher.take().len());
    assert_eq!(flushed, vec![100, 100, 50]);
    assert!(!batcher.due_on_tick());
}

#[test]
fn a_request_after_the_interval_is_flushed_at_once() {
    let mut batcher = WriteBatcher::new();
    assert!(!batcher.push(WriteRequest::Trade(create_test_trade(1)), 99));
    assert!(batcher.push(WriteRequest::Trade(create_test_trade(2)), 100));
    let batch = batcher.take();
    assert_eq!(batch.len(), 2);
    assert!(matches!(&batch[0], WriteRequest::Trade(t) if t.timestamp == 1));
    assert!(matches!(&batch[1], WriteRequest::Trade(t) if t.timestamp == 2));
    assert!(!batcher.due_on_tick());
}

#[test]
fn fee_payer_flow() {
    let info = TransactionInfo {
        block_time: None,
        account_keys: vec!["payer".to_string()],
        pre_balances: vec![1_000_000_000, 5],
        post_balances: vec![900_000_000, 9],
        fee: 5_000,
    };
    assert_eq!(fee_payer_net_flow(&info), -99_995_000);
    let empty = TransactionInfo {
        block_time: None,
        account_keys: vec![],
        pre_balances: vec![],
        post_balances: vec![],
        fee: 7,
    };
    assert_eq!(fee_payer_net_flow(&empty), 7);
}

#[test]
fn notable_flows_are_above_a_hundredth() {
    assert!(!is_notable_flow(0));
    assert!(!is_notable_flow(10_000_000));
    assert!(is_notable_flow(10_000_001));
    assert!(!is_notable_flow(-10_000_000));
    assert!(is_notable_flow(-10_000_001));
}

#[test]
fn process_trade_applies_and_queues() {
    let mut state = TokenRollingState::new("test_mint".to_string());
    let outcome = process_trade(&mut state, create_test_trade(1000));
    match outcome {
        Dispatch::Applied { metrics, consistent, writes } => {
            assert_eq!(metrics.net_flow_60s_sol, 5_000_000_000);
            assert_eq!(metrics.buy_count_60s, 1);
            assert_eq!(metrics.sell_count_60s, 0);
            assert_eq!(metrics.unique_wallets_300s, 1);
            assert!(consistent);
            assert_eq!(writes.len(), 2);
            assert!(matches!(
                &writes[0],
                WriteRequest::Metrics { mint, metrics: m }
                    if mint == "test_mint" && m.net_flow_60s_sol == 5_000_000_000
            ));
            assert!(matches!(
                &writes[1],
                WriteRequest::Trade(t) if t.timestamp == 1000 && t.user_account == "test_wallet"
            ));
        }
        other => panic!("not applied: {:?}", other),
    }
    assert_eq!(state.last_seen_ts, 1000);
    assert_eq!(state.trades_60s.len(), 1);
}

#[test]
fn process_trade_evicts_at_the_time_of_the_trade() {
    let mut state = TokenRollingState::new("test_mint".to_string());
    process_trade(&mut state, create_test_trade(1000));
    let outcome = process_trade(&mut state, create_test_trade(1100));
    match outcome {
        Dispatch::Applied { metrics, .. } => {
            assert_eq!(metrics.buy_count_60s, 1);
            assert_eq!(metrics.buy_count_300s, 2);
            assert_eq!(metrics.net_flow_300s_sol, 10_000_000_000);
        }
        other => panic!("not applied: {:?}", other),
    }
    assert_eq!(state.trades_60s.len(), 1);
    assert_eq!(state.trades_300s.len(), 2);
}

#[test]
fn process_trade_queues_the_trade_as_it_came_in() {
    let mut state = TokenRollingState::new("test_mint".to_string());
    process_trade(&mut state, create_test_trade(1000));
    process_trade(&mut state, create_test_trade(1001));
    let outcome = process_trade(&mut state, create_test_trade(1002));
    assert!(state.trades_60s[2].is_bot);
    match outcome {
        Dispatch::Applied { metrics, writes, .. } => {
            assert_eq!(metrics.bot_trades_count_300s, 1);
            assert!(matches!(&writes[1], WriteRequest::Trade(t) if !t.is_bot));
        }
        other => panic!("not applied: {:?}", other),
    }
}

#[test]
fn process_trade_drops_trades_without_direction() {
    let mut state = TokenRollingState::new("test_mint".to_string());
    let mut trade = create_test_trade(1000);
    trade.direction = TradeDirection::Unknown;
    assert!(matches!(process_trade(&mut state, trade), Dispatch::Discarded));
    assert!(state.trades_60s.is_empty());
    assert_eq!(state.last_seen_ts, 0);
}

#[test]
fn process_trade_refuses_what_eviction_cannot_handle() {
    let mut state = TokenRollingState::new("test_mint".to_string());
    let trade = create_test_trade(i64::MIN + 14_399);
    assert!(matches!(process_trade(&mut state, trade), Dispatch::OverLimit));
    assert!(state.trades_60s.is_empty());
    let trade = create_test_trade(i64::MIN + 14_400);
    assert!(matches!(process_trade(&mut state, trade), Dispatch::Applied { .. }));
}

#[test]
fn process_trade_refuses_an_amount_over_the_limit() {
    let mut state = TokenRollingState::new("test_mint".to_string());
    let mut trade = create_test_trade(1000);
    trade.sol_amount = MAX_SOL_AMOUNT + 1;
    assert!(!state.can_add_trade(&trade));
    assert!(matches!(process_trade(&mut state, trade), Dispatch::OverLimit));
    assert!(state.trades_60s.is_empty());

    let mut trade = create_test_trade(1000);
    trade.sol_amount = MAX_SOL_AMOUNT;
    match process_trade(&mut state, trade) {
        Dispatch::Applied { metrics, .. } => {
            assert_eq!(metrics.net_flow_60s_sol, MAX_SOL_AMOUNT as i128);
        }
        other => panic!("not applied: {:?}", other),
    }
}

#[test]
fn a_seen_signature_is_not_handled_again() {
    assert!(admits_signature(false));
    assert!(!admits_signature(true));
}

#[test]
fn first_trade_creates_the_state() {
    let (outcome, state) = process_first_trade(create_test_trade(1000));
    let state = state.expect("a state");
    assert_eq!(state.mint, "test_mint");
    assert_eq!(state.last_seen_ts, 1000);
    assert_eq!(state.trades_60s.len(), 1);
    assert_eq!(state.unique_wallets_300s.len(), 1);
    match outcome {
        Dispatch::Applied { metrics, consistent, writes } => {
            assert_eq!(metrics.net_flow_60s_sol, 5_000_000_000);
            assert_eq!(metrics.buy_count_60s, 1);
            assert!(consistent);
            assert_eq!(writes.len(), 2);
            assert!(matches!(&writes[0], WriteRequest::Metrics { mint, .. } if mint == "test_mint"));
            assert!(matches!(&writes[1], WriteRequest::Trade(t) if t.timestamp == 1000));
        }
        other => panic!("not applied: {:?}", other),
    }
}

#[test]
fn a_trade_that_is_not_taken_in_creates_no_state() {
    let mut trade = create_test_trade(1000);
    trade.direction = TradeDirection::Unknown;
    let (outcome, state) = process_first_trade(trade);
    assert!(matches!(outcome, Dispatch::Discarded));
    assert!(state.is_none());

    let (outcome, state) = process_first_trade(create_test_trade(i64::MIN));
    assert!(matches!(outcome, Dispatch::OverLimit));
    assert!(state.is_none());
}
