use solflow::fixed::{
    capped_ratio, magnitude_of, signed_ratio, MAX_FLOW, MAX_SOL_AMOUNT, PPM,
};
use solflow::inflow::{count_wallets_needed, wallet_inflow_totals};
use solflow::windows::amounts_in_range;
use solflow::sorting::sort_descending;
use solflow::types::{TradeDirection, TradeEvent};

fn trade(wallet: &str, amount: u128, direction: TradeDirection) -> TradeEvent {
    TradeEvent {
        timestamp: 1,
        mint: "m".to_string(),
        direction,
        sol_amount: amount,
        token_amount: 0,
        token_decimals: 6,
        user_account: wallet.to_string(),
        source_program: "PumpSwap".to_string(),
        is_bot: false,
        is_dca: false,
    }
}

#[test]
fn largest_flow_is_trades_times_amount() {
    assert_eq!(MAX_SOL_AMOUNT, 2 * u64::MAX as u128);
    assert_eq!(MAX_FLOW, i32::MAX as i128 * MAX_SOL_AMOUNT as i128);
    assert_eq!(PPM, 1_000_000);
}

#[test]
fn magnitudes() {
    assert_eq!(magnitude_of(0), 0);
    assert_eq!(magnitude_of(-7), 7);
    assert_eq!(magnitude_of(7), 7);
    assert_eq!(magnitude_of(-MAX_FLOW), MAX_FLOW as u128);
}

#[test]
fn signed_ratio_rounds_toward_zero() {
    assert_eq!(signed_ratio(1, 3), 333_333);
    assert_eq!(signed_ratio(-1, 3), -333_333);
    assert_eq!(signed_ratio(1, -3), -333_333);
    assert_eq!(signed_ratio(-1, -3), 333_333);
    assert_eq!(signed_ratio(2, 3), 666_666);
    assert_eq!(signed_ratio(5, 0), 0);
    assert_eq!(signed_ratio(0, 5), 0);
    assert_eq!(signed_ratio(7, 2), 3_500_000);
    assert_eq!(signed_ratio(MAX_FLOW, 1), MAX_FLOW * 1_000_000);
    assert_eq!(signed_ratio(MAX_FLOW, -MAX_FLOW), -1_000_000);
}

#[test]
fn capped_ratio_stops_at_one_whole() {
    assert_eq!(capped_ratio(0, 5), 0);
    assert_eq!(capped_ratio(1, 3), 333_333);
    assert_eq!(capped_ratio(2, 3), 666_666);
    assert_eq!(capped_ratio(3, 3), 1_000_000);
    assert_eq!(capped_ratio(4, 3), 1_000_000);
    assert_eq!(capped_ratio(4 * MAX_FLOW as u128, 1), 1_000_000);
    assert_eq!(capped_ratio(4 * MAX_FLOW as u128 - 1, 4 * MAX_FLOW as u128), 999_999);
}

#[test]
fn sort_descending_orders_and_keeps_everything() {
    assert_eq!(sort_descending(&vec![]), Vec::<u128>::new());
    assert_eq!(sort_descending(&vec![1, 3, 2]), vec![3, 2, 1]);
    assert_eq!(sort_descending(&vec![5, 5, 1, 9, 0, 9]), vec![9, 9, 5, 5, 1, 0]);
    assert_eq!(sort_descending(&vec![1, 2, 3, 4]), vec![4, 3, 2, 1]);
    assert_eq!(sort_descending(&vec![u128::MAX, 0]), vec![u128::MAX, 0]);
}

#[test]
fn inflows_are_added_up_per_buyer_in_order_of_appearance() {
    let trades = vec![
        trade("b", 5, TradeDirection::Buy),
        trade("a", 7, TradeDirection::Buy),
        trade("b", 6, TradeDirection::Buy),
        trade("c", 100, TradeDirection::Sell),
        trade("d", 0, TradeDirection::Buy),
        trade("e", 9, TradeDirection::Unknown),
        trade("a", 1, TradeDirection::Sell),
    ];
    let (inflows, total) = wallet_inflow_totals(&trades);
    assert_eq!(inflows, vec![11, 7]);
    assert_eq!(total, 18);
    let (inflows, total) = wallet_inflow_totals(&[]);
    assert!(inflows.is_empty());
    assert_eq!(total, 0);
}

#[test]
fn wallets_needed_is_the_least_prefix_with_seven_tenths() {
    assert_eq!(count_wallets_needed(&vec![20, 15, 10, 1, 1, 1, 1, 1], 50), 2);
    assert_eq!(count_wallets_needed(&vec![30, 20, 1, 1, 1], 53), 2);
    assert_eq!(count_wallets_needed(&vec![7, 3], 10), 1);
    assert_eq!(count_wallets_needed(&vec![6, 4], 10), 2);
    assert_eq!(count_wallets_needed(&vec![1; 10], 10), 7);
    assert_eq!(count_wallets_needed(&vec![], 0), 0);
    assert_eq!(count_wallets_needed(&vec![1, 1], 100), 2);
    assert_eq!(count_wallets_needed(&vec![5], 0), 1);
}

#[test]
fn amounts_in_range_looks_at_every_trade() {
    assert!(amounts_in_range(&[]));
    assert!(amounts_in_range(&[
        trade("a", 0, TradeDirection::Buy),
        trade("b", MAX_SOL_AMOUNT, TradeDirection::Sell),
    ]));
    assert!(!amounts_in_range(&[
        trade("a", 1, TradeDirection::Buy),
        trade("b", MAX_SOL_AMOUNT + 1, TradeDirection::Unknown),
        trade("c", 1, TradeDirection::Buy),
    ]));
}

#[test]
fn inflows_of_the_largest_amounts_add_up() {
    let trades = vec![
        trade("a", MAX_SOL_AMOUNT, TradeDirection::Buy),
        trade("a", MAX_SOL_AMOUNT, TradeDirection::Buy),
        trade("b", MAX_SOL_AMOUNT, TradeDirection::Buy),
    ];
    let (inflows, total) = wallet_inflow_totals(&trades);
    assert_eq!(inflows, vec![2 * MAX_SOL_AMOUNT, MAX_SOL_AMOUNT]);
    assert_eq!(total, 3 * MAX_SOL_AMOUNT);
}
