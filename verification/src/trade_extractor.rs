//! Normalization of decoded program instructions into [`TradeEvent`]s.
//!
//! The inputs are the plain values that the instructions of each program
//! carry: account keys as text, amounts in base units. Every result is a
//! function of the arguments alone; the time with which a fill of the
//! dollar-cost-averaging program is stamped is one of them.

use vstd::prelude::*;
use crate::fixed::MAX_SOL_AMOUNT;
use crate::types::{TradeDirection, TradeEvent, TradeEventView};

verus! {

/// Mint of the wrapped base currency.
pub open spec fn base_currency_mint() -> Seq<char> {
    "So11111111111111111111111111111111111111112"@
}

/// What the trade instructions read of a transaction.
#[derive(Debug)]
pub struct TransactionInfo {
    /// Block time in epoch seconds, where known.
    pub block_time: Option<i64>,
    /// The static account keys, by account index.
    pub account_keys: Vec<String>,
    /// Balances in lamports before the transaction, by account index.
    pub pre_balances: Vec<u64>,
    /// Balances in lamports after the transaction, by account index.
    pub post_balances: Vec<u64>,
    /// Fee in lamports, paid by the account at index 0.
    pub fee: u64,
}

/// The account keys of a transaction, by account index.
pub open spec fn key_views(keys: Seq<String>) -> Seq<Seq<char>> {
    keys.map_values(|k: String| k@)
}

/// The token and the trader that a buy or a sell names.
#[derive(Debug)]
pub struct TradeAccounts {
    pub mint: String,
    pub user: String,
}

#[derive(Debug, Clone, Copy)]
pub struct PumpfunBuy {
    pub amount: u64,
    pub max_sol_cost: u64,
}

#[derive(Debug, Clone, Copy)]
pub struct PumpfunSell {
    pub amount: u64,
    pub min_sol_output: u64,
}

#[derive(Debug)]
pub enum PumpfunInstruction {
    /// A buy, with its accounts where they could be arranged.
    Buy(Option<TradeAccounts>, PumpfunBuy),
    /// A sell, with its accounts where they could be arranged.
    Sell(Option<TradeAccounts>, PumpfunSell),
    Other,
}

#[derive(Debug)]
pub struct PumpSwapBuyEvent {
    pub timestamp: i64,
    pub pool: String,
    pub user: String,
    pub quote_amount_in: u64,
    pub base_amount_out: u64,
}

#[derive(Debug)]
pub struct PumpSwapSellEvent {
    pub timestamp: i64,
    pub pool: String,
    pub user: String,
    pub quote_amount_out: u64,
    pub base_amount_in: u64,
}

#[derive(Debug, Clone, Copy)]
pub struct PumpSwapBuy {
    pub base_amount_out: u64,
    pub max_quote_amount_in: u64,
}

#[derive(Debug, Clone, Copy)]
pub struct PumpSwapSell {
    pub base_amount_in: u64,
    pub min_quote_amount_out: u64,
}

#[derive(Debug, Clone, Copy)]
pub struct PumpSwapBuyExactQuoteIn {
    pub spendable_quote_in: u64,
    pub min_base_amount_out: u64,
}

#[derive(Debug)]
pub enum PumpSwapInstruction {
    BuyEvent(PumpSwapBuyEvent),
    SellEvent(PumpSwapSellEvent),
    /// A buy, with its accounts where they could be arranged.
    Buy(Option<TradeAccounts>, PumpSwapBuy),
    /// A sell, with its accounts where they could be arranged.
    Sell(Option<TradeAccounts>, PumpSwapSell),
    /// A buy of a fixed quote amount, with its accounts where they could be
    /// arranged.
    BuyExactQuoteIn(Option<TradeAccounts>, PumpSwapBuyExactQuoteIn),
    Other,
}

#[derive(Debug, Clone, Copy)]
pub struct MoonshotTrade {
    pub token_amount: u64,
    pub collateral_amount: u64,
}

#[derive(Debug)]
pub enum MoonshotInstruction {
    /// A buy, with its accounts where they could be arranged.
    Buy(Option<TradeAccounts>, MoonshotTrade),
    /// A sell, with its accounts where they could be arranged.
    Sell(Option<TradeAccounts>, MoonshotTrade),
    Other,
}

#[derive(Debug)]
pub struct DcaFilledEvent {
    pub user_key: String,
    pub input_mint: String,
    pub output_mint: String,
    pub in_amount: u64,
    pub out_amount: u64,
}

#[derive(Debug)]
pub enum JupiterDcaInstruction {
    FilledEvent(DcaFilledEvent),
    Other,
}

/// The instructions of the BonkSwap program; none of them is read as a trade.
#[derive(Debug)]
pub enum BonkswapInstruction {
    Other,
}

/// The value of an optional trade.
pub open spec fn trade_view(trade: Option<TradeEvent>) -> Option<TradeEventView> {
    match trade {
        Some(t) => Some(t@),
        None => None,
    }
}

/// The trade that normalization gives: six token decimals, not yet
/// classified as a bot trade.
pub open spec fn normalized(
    timestamp: int,
    mint: Seq<char>,
    direction: TradeDirection,
    sol_amount: nat,
    token_amount: nat,
    user_account: Seq<char>,
    source_program: Seq<char>,
    is_dca: bool,
) -> TradeEventView {
    TradeEventView {
        timestamp,
        mint,
        direction,
        sol_amount,
        token_amount,
        token_decimals: 6,
        user_account,
        source_program,
        is_bot: false,
        is_dca,
    }
}

/// The block time of a transaction, zero where it is not known.
pub open spec fn block_time_or_zero(block_time: Option<i64>) -> int {
    match block_time {
        Some(t) => t as int,
        None => 0,
    }
}

/// The first index at or after `from` at which `keys` holds `user`.
pub open spec fn first_index_from(keys: Seq<Seq<char>>, user: Seq<char>, from: int) -> Option<int>
    decreases keys.len() - from,
{
    if from >= keys.len() {
        None
    } else if from >= 0 && keys[from] == user {
        Some(from)
    } else {
        first_index_from(keys, user, from + 1)
    }
}

/// The account index of `user`: the first index at which `keys` holds it.
pub open spec fn account_index(keys: Seq<Seq<char>>, user: Seq<char>) -> Option<int> {
    first_index_from(keys, user, 0)
}

/// The change of the balance at `index` over the transaction, with the fee
/// added back where the account paid it.
pub open spec fn balance_delta(info: TransactionInfo, index: int) -> int {
    info.post_balances@[index] - info.pre_balances@[index] + if index == 0 {
        info.fee as int
    } else {
        0
    }
}

/// The amount that `user` realized in the transaction: the magnitude of the
/// balance change of its account. None where the account or one of its
/// balances is not found.
pub open spec fn realized_amount(info: TransactionInfo, user: Seq<char>) -> Option<nat> {
    match account_index(key_views(info.account_keys@), user) {
        Some(index) => if index < info.pre_balances@.len() && index < info.post_balances@.len() {
            Some(crate::fixed::magnitude(balance_delta(info, index)) as nat)
        } else {
            None
        },
        None => None,
    }
}

/// No realized amount is above the largest amount the rolling state takes
/// in.
pub proof fn lemma_realized_amount_in_range(info: TransactionInfo, user: Seq<char>)
    ensures
        realized_amount(info, user) matches Some(amount) ==> amount <= MAX_SOL_AMOUNT,
{
}

/// The realized amount of `user`, and `bound` where it cannot be found.
pub open spec fn realized_or(info: TransactionInfo, user: Seq<char>, bound: u64) -> nat {
    match realized_amount(info, user) {
        Some(amount) => amount,
        None => bound as nat,
    }
}

/// The trade that a fill of the dollar-cost-averaging program stands for at
/// time `now`: a buy where the base currency goes in, a sell where it comes
/// out, none where it is on neither side.
pub open spec fn dca_fill_trade(event: DcaFilledEvent, now: int) -> Option<TradeEventView> {
    if event.input_mint@ == base_currency_mint() {
        Some(
            normalized(
                now,
                event.output_mint@,
                TradeDirection::Buy,
                event.in_amount as nat,
                event.out_amount as nat,
                event.user_key@,
                "JupiterDCA"@,
                true,
            ),
        )
    } else if event.output_mint@ == base_currency_mint() {
        Some(
            normalized(
                now,
                event.input_mint@,
                TradeDirection::Sell,
                event.out_amount as nat,
                event.in_amount as nat,
                event.user_key@,
                "JupiterDCA"@,
                true,
            ),
        )
    } else {
        None
    }
}

/// The trade of an instruction of the dollar-cost-averaging program at time
/// `now`.
pub open spec fn jupiter_dca_trade(instruction: JupiterDcaInstruction, now: int) -> Option<
    TradeEventView,
> {
    match instruction {
        JupiterDcaInstruction::FilledEvent(event) => dca_fill_trade(event, now),
        JupiterDcaInstruction::Other => None,
    }
}

/// The trade of an instruction of the Pumpfun program.
pub open spec fn pumpfun_trade(info: TransactionInfo, instruction: PumpfunInstruction) -> Option<
    TradeEventView,
> {
    match instruction {
        PumpfunInstruction::Buy(Some(accounts), buy) => Some(
            normalized(
                block_time_or_zero(info.block_time),
                accounts.mint@,
                TradeDirection::Buy,
                buy.max_sol_cost as nat,
                buy.amount as nat,
                accounts.user@,
                "Pumpfun"@,
                false,
            ),
        ),
        PumpfunInstruction::Sell(Some(accounts), sell) => Some(
            normalized(
                block_time_or_zero(info.block_time),
                accounts.mint@,
                TradeDirection::Sell,
                sell.min_sol_output as nat,
                sell.amount as nat,
                accounts.user@,
                "Pumpfun"@,
                false,
            ),
        ),
        _ => None,
    }
}

/// The trade of an instruction of the PumpSwap program.
pub open spec fn pumpswap_trade(info: TransactionInfo, instruction: PumpSwapInstruction) -> Option<
    TradeEventView,
> {
    match instruction {
        PumpSwapInstruction::BuyEvent(event) => Some(
            normalized(
                event.timestamp as int,
                event.pool@,
                TradeDirection::Buy,
                event.quote_amount_in as nat,
                event.base_amount_out as nat,
                event.user@,
                "PumpSwap"@,
                false,
            ),
        ),
        PumpSwapInstruction::SellEvent(event) => Some(
            normalized(
                event.timestamp as int,
                event.pool@,
                TradeDirection::Sell,
                event.quote_amount_out as nat,
                event.base_amount_in as nat,
                event.user@,
                "PumpSwap"@,
                false,
            ),
        ),
        PumpSwapInstruction::Buy(Some(accounts), buy) => Some(
            normalized(
                block_time_or_zero(info.block_time),
                accounts.mint@,
                TradeDirection::Buy,
                realized_or(info, accounts.user@, buy.max_quote_amount_in),
                buy.base_amount_out as nat,
                accounts.user@,
                "PumpSwap"@,
                false,
            ),
        ),
        PumpSwapInstruction::Sell(Some(accounts), sell) => Some(
            normalized(
                block_time_or_zero(info.block_time),
                accounts.mint@,
                TradeDirection::Sell,
                realized_or(info, accounts.user@, sell.min_quote_amount_out),
                sell.base_amount_in as nat,
                accounts.user@,
                "PumpSwap"@,
                false,
            ),
        ),
        PumpSwapInstruction::BuyExactQuoteIn(Some(accounts), buy) => Some(
            normalized(
                block_time_or_zero(info.block_time),
                accounts.mint@,
                TradeDirection::Buy,
                realized_or(info, accounts.user@, buy.spendable_quote_in),
                buy.min_base_amount_out as nat,
                accounts.user@,
                "PumpSwap"@,
                false,
            ),
        ),
        _ => None,
    }
}

/// The trade of an instruction of the Moonshot program.
pub open spec fn moonshot_trade(info: TransactionInfo, instruction: MoonshotInstruction) -> Option<
    TradeEventView,
> {
    match instruction {
        MoonshotInstruction::Buy(Some(accounts), trade) => Some(
            normalized(
                block_time_or_zero(info.block_time),
                accounts.mint@,
                TradeDirection::Buy,
                trade.token_amount as nat,
                trade.collateral_amount as nat,
                accounts.user@,
                "Moonshot"@,
                false,
            ),
        ),
        MoonshotInstruction::Sell(Some(accounts), trade) => Some(
            normalized(
                block_time_or_zero(info.block_time),
                accounts.mint@,
                TradeDirection::Sell,
                trade.collateral_amount as nat,
                trade.token_amount as nat,
                accounts.user@,
                "Moonshot"@,
                false,
            ),
        ),
        _ => None,
    }
}

/// The block time of a transaction, zero where it is not known.
fn block_time(info: &TransactionInfo) -> (t: i64)
    ensures
        t == block_time_or_zero(info.block_time),
{
    match info.block_time {
        Some(t) => t,
        None => 0,
    }
}

/// Builds the trade that normalization gives.
fn build_trade(
    timestamp: i64,
    mint: &String,
    direction: TradeDirection,
    sol_amount: u128,
    token_amount: u64,
    user_account: &String,
    source_program: &str,
    is_dca: bool,
) -> (trade: TradeEvent)
    ensures
        trade@ == normalized(
            timestamp as int,
            mint@,
            direction,
            sol_amount as nat,
            token_amount as nat,
            user_account@,
            source_program@,
            is_dca,
        ),
{
    TradeEvent {
        timestamp,
        mint: mint.clone(),
        direction,
        sol_amount,
        token_amount,
        token_decimals: 6,
        user_account: user_account.clone(),
        source_program: source_program.to_owned(),
        is_bot: false,
        is_dca,
    }
}

/// Adapter from the instructions of each program to trades.
pub struct TradeExtractor;

impl TradeExtractor {
    /// A Pumpfun buy: the amount is the declared greatest cost.
    pub fn extract_pumpfun_buy(accounts: &TradeAccounts, instruction: &PumpfunBuy, timestamp: i64) -> (res:
        Option<TradeEvent>)
        ensures
            trade_view(res) == Some(
                normalized(
                    timestamp as int,
                    accounts.mint@,
                    TradeDirection::Buy,
                    instruction.max_sol_cost as nat,
                    instruction.amount as nat,
                    accounts.user@,
                    "Pumpfun"@,
                    false,
                ),
            ),
    {
        Some(
            build_trade(
                timestamp,
                &accounts.mint,
                TradeDirection::Buy,
                instruction.max_sol_cost as u128,
                instruction.amount,
                &accounts.user,
                "Pumpfun",
                false,
            ),
        )
    }

    /// A Pumpfun sell: the amount is the declared least proceeds.
    pub fn extract_pumpfun_sell(
        accounts: &TradeAccounts,
        instruction: &PumpfunSell,
        timestamp: i64,
    ) -> (res: Option<TradeEvent>)
        ensures
            trade_view(res) == Some(
                normalized(
                    timestamp as int,
                    accounts.mint@,
                    TradeDirection::Sell,
                    instruction.min_sol_output as nat,
                    instruction.amount as nat,
                    accounts.user@,
                    "Pumpfun"@,
                    false,
                ),
            ),
    {
        Some(
            build_trade(
                timestamp,
                &accounts.mint,
                TradeDirection::Sell,
                instruction.min_sol_output as u128,
                instruction.amount,
                &accounts.user,
                "Pumpfun",
                false,
            ),
        )
    }

    /// A PumpSwap buy event, keyed by its pool.
    pub fn extract_pumpswap_buy_event(event: &PumpSwapBuyEvent) -> (res: Option<TradeEvent>)
        ensures
            trade_view(res) == Some(
                normalized(
                    event.timestamp as int,
                    event.pool@,
                    TradeDirection::Buy,
                    event.quote_amount_in as nat,
                    event.base_amount_out as nat,
                    event.user@,
                    "PumpSwap"@,
                    false,
                ),
            ),
    {
        Some(
            build_trade(
                event.timestamp,
                &event.pool,
                TradeDirection::Buy,
                event.quote_amount_in as u128,
                event.base_amount_out,
                &event.user,
                "PumpSwap",
                false,
            ),
        )
    }

    /// A PumpSwap sell event, keyed by its pool.
    pub fn extract_pumpswap_sell_event(event: &PumpSwapSellEvent) -> (res: Option<TradeEvent>)
        ensures
            trade_view(res) == Some(
                normalized(
                    event.timestamp as int,
                    event.pool@,
                    TradeDirection::Sell,
                    event.quote_amount_out as nat,
                    event.base_amount_in as nat,
                    event.user@,
                    "PumpSwap"@,
                    false,
                ),
            ),
    {
        Some(
            build_trade(
                event.timestamp,
                &event.pool,
                TradeDirection::Sell,
                event.quote_amount_out as u128,
                event.base_amount_in,
                &event.user,
                "PumpSwap",
                false,
            ),
        )
    }

    /// BonkSwap instructions are not read as trades.
    pub fn extract_bonkswap_event(_accounts: &[String], _timestamp: i64) -> (res: Option<TradeEvent>)
        ensures
            res is None,
    {
        None
    }

    /// A Moonshot buy.
    pub fn extract_moonshot_buy(
        accounts: &TradeAccounts,
        instruction: &MoonshotTrade,
        timestamp: i64,
    ) -> (res: Option<TradeEvent>)
        ensures
            trade_view(res) == Some(
                normalized(
                    timestamp as int,
                    accounts.mint@,
                    TradeDirection::Buy,
                    instruction.token_amount as nat,
                    instruction.collateral_amount as nat,
                    accounts.user@,
                    "Moonshot"@,
                    false,
                ),
            ),
    {
        Some(
            build_trade(
                timestamp,
                &accounts.mint,
                TradeDirection::Buy,
                instruction.token_amount as u128,
                instruction.collateral_amount,
                &accounts.user,
                "Moonshot",
                false,
            ),
        )
    }

    /// A Moonshot sell.
    pub fn extract_moonshot_sell(
        accounts: &TradeAccounts,
        instruction: &MoonshotTrade,
        timestamp: i64,
    ) -> (res: Option<TradeEvent>)
        ensures
            trade_view(res) == Some(
                normalized(
                    timestamp as int,
                    accounts.mint@,
                    TradeDirection::Sell,
                    instruction.collateral_amount as nat,
                    instruction.token_amount as nat,
                    accounts.user@,
                    "Moonshot"@,
                    false,
                ),
            ),
    {
        Some(
            build_trade(
                timestamp,
                &accounts.mint,
                TradeDirection::Sell,
                instruction.collateral_amount as u128,
                instruction.token_amount,
                &accounts.user,
                "Moonshot",
                false,
            ),
        )
    }

    /// A fill of the dollar-cost-averaging program as a trade stamped with
    /// the time `now`: a buy of the output token where the base currency
    /// goes in, a sell of the input token where it comes out, none
    /// otherwise.
    pub fn extract_jupiter_dca_filled_event(event: &DcaFilledEvent, now: i64) -> (res: Option<
        TradeEvent,
    >)
        ensures
            trade_view(res) == dca_fill_trade(*event, now as int),
    {
        let base = "So11111111111111111111111111111111111111112".to_owned();
        if event.input_mint == base {
            Some(
                build_trade(
                    now,
                    &event.output_mint,
                    TradeDirection::Buy,
                    event.in_amount as u128,
                    event.out_amount,
                    &event.user_key,
                    "JupiterDCA",
                    true,
                ),
            )
        } else if event.output_mint == base {
            Some(
                build_trade(
                    now,
                    &event.input_mint,
                    TradeDirection::Sell,
                    event.out_amount as u128,
                    event.in_amount,
                    &event.user_key,
                    "JupiterDCA",
                    true,
                ),
            )
        } else {
            None
        }
    }

    /// The trade of an instruction of the Pumpfun program: of a buy or a
    /// sell whose accounts could be arranged.
    pub fn extract_from_pumpfun(info: &TransactionInfo, instruction: &PumpfunInstruction) -> (res:
        Option<TradeEvent>)
        ensures
            trade_view(res) == pumpfun_trade(*info, *instruction),
            res matches Some(trade) ==> trade.sol_amount <= MAX_SOL_AMOUNT,
    {
        let timestamp = block_time(info);
        match instruction {
            PumpfunInstruction::Buy(Some(accounts), buy) => Self::extract_pumpfun_buy(
                accounts,
                buy,
                timestamp,
            ),
            PumpfunInstruction::Sell(Some(accounts), sell) => Self::extract_pumpfun_sell(
                accounts,
                sell,
                timestamp,
            ),
            _ => None,
        }
    }

    /// The account index of `user`: the first index at which the static
    /// account keys hold it.
    pub fn get_account_index(info: &TransactionInfo, user: &String) -> (res: Option<usize>)
        ensures
            match res {
                Some(i) => account_index(key_views(info.account_keys@), user@) == Some(i as int),
                None => account_index(key_views(info.account_keys@), user@) is None,
            },
    {
        let ghost keys = key_views(info.account_keys@);
        let n = info.account_keys.len();
        let mut i: usize = 0;
        while i < n
            invariant
                n == info.account_keys@.len(),
                keys == key_views(info.account_keys@),
                i <= n,
                account_index(keys, user@) == first_index_from(keys, user@, i as int),
            decreases n - i,
        {
            assert(keys[i as int] == info.account_keys@[i as int]@);
            if info.account_keys[i] == *user {
                return Some(i);
            }
            i = i + 1;
        }
        None
    }

    /// The amount that `user` realized in the transaction, in lamports: the
    /// magnitude of the balance change of its account, the fee added back
    /// where the account paid it, whatever its size. None where the account
    /// or one of its balances is not found.
    pub fn compute_sol_delta_from_metadata(info: &TransactionInfo, user: &String) -> (res: Option<
        u128,
    >)
        ensures
            match res {
                Some(amount) => realized_amount(*info, user@) == Some(amount as nat),
                None => realized_amount(*info, user@) is None,
            },
            res matches Some(amount) ==> amount <= MAX_SOL_AMOUNT,
    {
        let index = match Self::get_account_index(info, user) {
            Some(index) => index,
            None => {
                return None;
            },
        };
        if index >= info.pre_balances.len() || index >= info.post_balances.len() {
            return None;
        }
        let pre_balance = info.pre_balances[index];
        let post_balance = info.post_balances[index];
        let fee: u64 = if index == 0 {
            info.fee
        } else {
            0
        };
        let delta: i128 = (post_balance as i128 - pre_balance as i128) + fee as i128;
        let size: i128 = if delta >= 0 {
            delta
        } else {
            -delta
        };
        Some(size as u128)
    }

    /// The realized amount of `user`, and `bound` where it cannot be found.
    fn realized_or_bound(info: &TransactionInfo, user: &String, bound: u64) -> (amount: u128)
        ensures
            amount == realized_or(*info, user@, bound),
    {
        match Self::compute_sol_delta_from_metadata(info, user) {
            Some(amount) => amount,
            None => bound as u128,
        }
    }

    /// A PumpSwap buy: the amount is what the user's balance shows, and the
    /// declared greatest cost where the balance cannot be found.
    pub fn extract_pumpswap_buy(
        accounts: &TradeAccounts,
        instruction: &PumpSwapBuy,
        info: &TransactionInfo,
    ) -> (res: Option<TradeEvent>)
        ensures
            trade_view(res) == Some(
                normalized(
                    block_time_or_zero(info.block_time),
                    accounts.mint@,
                    TradeDirection::Buy,
                    realized_or(*info, accounts.user@, instruction.max_quote_amount_in),
                    instruction.base_amount_out as nat,
                    accounts.user@,
                    "PumpSwap"@,
                    false,
                ),
            ),
    {
        let timestamp = block_time(info);
        let sol_amount = Self::realized_or_bound(
            info,
            &accounts.user,
            instruction.max_quote_amount_in,
        );
        Some(
            build_trade(
                timestamp,
                &accounts.mint,
                TradeDirection::Buy,
                sol_amount,
                instruction.base_amount_out,
                &accounts.user,
                "PumpSwap",
                false,
            ),
        )
    }

    /// A PumpSwap sell: the amount is what the user's balance shows, and the
    /// declared least proceeds where the balance cannot be found.
    pub fn extract_pumpswap_sell(
        accounts: &TradeAccounts,
        instruction: &PumpSwapSell,
        info: &TransactionInfo,
    ) -> (res: Option<TradeEvent>)
        ensures
            trade_view(res) == Some(
                normalized(
                    block_time_or_zero(info.block_time),
                    accounts.mint@,
                    TradeDirection::Sell,
                    realized_or(*info, accounts.user@, instruction.min_quote_amount_out),
                    instruction.base_amount_in as nat,
                    accounts.user@,
                    "PumpSwap"@,
                    false,
                ),
            ),
    {
        let timestamp = block_time(info);
        let sol_amount = Self::realized_or_bound(
            info,
            &accounts.user,
            instruction.min_quote_amount_out,
        );
        Some(
            build_trade(
                timestamp,
                &accounts.mint,
                TradeDirection::Sell,
                sol_amount,
                instruction.base_amount_in,
                &accounts.user,
                "PumpSwap",
                false,
            ),
        )
    }

    /// A PumpSwap buy of a fixed quote amount: the amount is what the user's
    /// balance shows, and the spendable amount where the balance cannot be
    /// found.
    pub fn extract_pumpswap_buy_exact_quote_in(
        accounts: &TradeAccounts,
        instruction: &PumpSwapBuyExactQuoteIn,
        info: &TransactionInfo,
    ) -> (res: Option<TradeEvent>)
        ensures
            trade_view(res) == Some(
                normalized(
                    block_time_or_zero(info.block_time),
                    accounts.mint@,
                    TradeDirection::Buy,
                    realized_or(*info, accounts.user@, instruction.spendable_quote_in),
                    instruction.min_base_amount_out as nat,
                    accounts.user@,
                    "PumpSwap"@,
                    false,
                ),
            ),
    {
        let timestamp = block_time(info);
        let sol_amount = Self::realized_or_bound(
            info,
            &accounts.user,
            instruction.spendable_quote_in,
        );
        Some(
            build_trade(
                timestamp,
                &accounts.mint,
                TradeDirection::Buy,
                sol_amount,
                instruction.min_base_amount_out,
                &accounts.user,
                "PumpSwap",
                false,
            ),
        )
    }

    /// The trade of an instruction of the PumpSwap program: of an event, or
    /// of a swap whose accounts could be arranged.
    pub fn extract_from_pumpswap(info: &TransactionInfo, instruction: &PumpSwapInstruction) -> (res:
        Option<TradeEvent>)
        ensures
            trade_view(res) == pumpswap_trade(*info, *instruction),
            res matches Some(trade) ==> trade.sol_amount <= MAX_SOL_AMOUNT,
    {
        match instruction {
            PumpSwapInstruction::BuyEvent(event) => Self::extract_pumpswap_buy_event(event),
            PumpSwapInstruction::SellEvent(event) => Self::extract_pumpswap_sell_event(event),
            PumpSwapInstruction::Buy(Some(accounts), buy) => Self::extract_pumpswap_buy(
                accounts,
                buy,
                info,
            ),
            PumpSwapInstruction::Sell(Some(accounts), sell) => Self::extract_pumpswap_sell(
                accounts,
                sell,
                info,
            ),
            PumpSwapInstruction::BuyExactQuoteIn(
                Some(accounts),
                buy,
            ) => Self::extract_pumpswap_buy_exact_quote_in(accounts, buy, info),
            _ => None,
        }
    }

    /// The trade of an instruction of the Moonshot program: of a buy or a
    /// sell whose accounts could be arranged.
    pub fn extract_from_moonshot(info: &TransactionInfo, instruction: &MoonshotInstruction) -> (res:
        Option<TradeEvent>)
        ensures
            trade_view(res) == moonshot_trade(*info, *instruction),
            res matches Some(trade) ==> trade.sol_amount <= MAX_SOL_AMOUNT,
    {
        let timestamp = block_time(info);
        match instruction {
            MoonshotInstruction::Buy(Some(accounts), trade) => Self::extract_moonshot_buy(
                accounts,
                trade,
                timestamp,
            ),
            MoonshotInstruction::Sell(Some(accounts), trade) => Self::extract_moonshot_sell(
                accounts,
                trade,
                timestamp,
            ),
            _ => None,
        }
    }

    /// The trade of an instruction of the dollar-cost-averaging program: of
    /// a fill, stamped with the time `now`.
    pub fn extract_from_jupiter_dca(instruction: &JupiterDcaInstruction, now: i64) -> (res: Option<
        TradeEvent,
    >)
        ensures
            trade_view(res) == jupiter_dca_trade(*instruction, now as int),
            res matches Some(trade) ==> trade.sol_amount <= MAX_SOL_AMOUNT,
    {
        match instruction {
            JupiterDcaInstruction::FilledEvent(event) => Self::extract_jupiter_dca_filled_event(
                event,
                now,
            ),
            JupiterDcaInstruction::Other => None,
        }
    }

    /// BonkSwap instructions are not read as trades.
    pub fn extract_from_bonkswap(_instruction: &BonkswapInstruction) -> (res: Option<TradeEvent>)
        ensures
            res is None,
    {
        None
    }
}

} // verus!
