use solflow::state::TokenRollingState;
use solflow::types::{TradeDirection, TradeEvent};

const SOL: u128 = 1_000_000_000;

fn trade(
    timestamp: i64,
    mint: &str,
    direction: TradeDirection,
    sol_amount: u128,
    token_amount: u64,
    user_account: &str,
    source_program: &str,
) -> TradeEvent {
    TradeEvent {
        timestamp,
        mint: mint.to_string(),
        direction,
        sol_amount,
        token_amount,
        token_decimals: 6,
        user_account: user_account.to_string(),
        source_program: source_program.to_string(),
        is_bot: false,
        is_dca: source_program == "JupiterDCA",
    }
}

#[test]
fn test_pumpfun_buy_extraction() {
    let trade_event = trade(
        1000,
        "test_mint_123",
        TradeDirection::Buy,
        3 * SOL / 2,
        1_000_000,
        "user123",
        "Pumpfun",
    );

    assert_eq!(trade_event.direction, TradeDirection::Buy);
    assert_eq!(trade_event.sol_amount as f64 / 1e9, 1.5);
    assert_eq!(trade_event.source_program, "Pumpfun");
}

#[test]
fn test_rolling_state_update() {
    let mint = "test_mint_456".to_string();
    let mut rolling_state = TokenRollingState::new(mint.clone());

    let buy_trade = trade(1000, &mint, TradeDirection::Buy, 2 * SOL, 500_000, "buyer1", "PumpSwap");

    rolling_state.add_trade(buy_trade);
    rolling_state.evict_old_trades(1000);

    let metrics = rolling_state.compute_rolling_metrics();

    assert_eq!(metrics.net_flow_60s_sol as f64 / 1e9, 2.0);
    assert_eq!(metrics.net_flow_60s_sol, 2_000_000_000);
    assert_eq!(metrics.buy_count_60s, 1);
    assert_eq!(metrics.sell_count_60s, 0);
    assert_eq!(metrics.unique_wallets_300s, 1);
}

#[test]
fn test_rolling_state_buy_and_sell() {
    let mint = "test_mint_789".to_string();
    let mut rolling_state = TokenRollingState::new(mint.clone());

    let buy_trade = trade(1000, &mint, TradeDirection::Buy, 5 * SOL, 1_000_000, "buyer1", "Pumpfun");
    let sell_trade = trade(1010, &mint, TradeDirection::Sell, 2 * SOL, 400_000, "seller1", "Pumpfun");

    rolling_state.add_trade(buy_trade);
    rolling_state.add_trade(sell_trade);
    rolling_state.evict_old_trades(1010);

    let metrics = rolling_state.compute_rolling_metrics();

    assert_eq!(metrics.net_flow_60s_sol as f64 / 1e9, 3.0);
    assert_eq!(metrics.buy_count_60s, 1);
    assert_eq!(metrics.sell_count_60s, 1);
}

#[test]
fn test_rolling_state_eviction() {
    let mint = "test_mint_eviction".to_string();
    let mut rolling_state = TokenRollingState::new(mint.clone());

    let old_trade = trade(1000, &mint, TradeDirection::Buy, SOL, 100_000, "old_buyer", "Moonshot");
    let new_trade = trade(1100, &mint, TradeDirection::Buy, 2 * SOL, 200_000, "new_buyer", "Moonshot");

    rolling_state.add_trade(old_trade);
    rolling_state.add_trade(new_trade);
    rolling_state.evict_old_trades(1100);

    let metrics = rolling_state.compute_rolling_metrics();

    assert_eq!(metrics.buy_count_60s, 1);
    assert_eq!(metrics.net_flow_60s_sol as f64 / 1e9, 2.0);
    assert_eq!(metrics.net_flow_300s_sol as f64 / 1e9, 3.0);
}

#[test]
fn test_direction_normalization() {
    assert_eq!(TradeDirection::Buy, TradeDirection::Buy);
    assert_eq!(TradeDirection::Sell, TradeDirection::Sell);
    assert_ne!(TradeDirection::Buy, TradeDirection::Sell);
}

#[test]
fn test_dca_tracking() {
    let mint = "test_mint_dca".to_string();
    let mut rolling_state = TokenRollingState::new(mint.clone());

    let dca_trade = trade(1000, &mint, TradeDirection::Buy, SOL / 2, 50_000, "dca_user", "JupiterDCA");

    rolling_state.add_trade(dca_trade);
    rolling_state.evict_old_trades(1000);

    let metrics = rolling_state.compute_rolling_metrics();

    assert_eq!(metrics.dca_buys_60s, 1);
    assert_eq!(metrics.dca_buys_300s, 1);
}
