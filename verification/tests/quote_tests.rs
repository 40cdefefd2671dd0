use raydium_swap::SwapError;
use raydium_swap::address::Address;
use raydium_swap::api_v3::ApiV3Client;
use raydium_swap::executor::{RaydiumAmm, RaydiumAmmExecutorOpts, resolve_pool_id};
use raydium_swap::math::{SwapDirection, amount_with_slippage, swap_exact_amount};
use raydium_swap::quote::{
    AmmKeys, MarketKeys, OpenOrderBalances, PoolStateSnapshot, ResolvedPool, effective_reserves,
};
use raydium_swap::types::{SwapExecutionMode, SwapInput};

fn addr(n: u64) -> Address {
    Address::from_words(n, n.wrapping_mul(7), n.wrapping_add(99), n ^ 0xabcd)
}

fn amm_keys(coin_mint: Address, pc_mint: Address) -> AmmKeys {
    AmmKeys {
        amm_pool: addr(10),
        amm_coin_mint: coin_mint,
        amm_pc_mint: pc_mint,
        amm_authority: addr(11),
        amm_target: addr(12),
        amm_coin_vault: addr(13),
        amm_pc_vault: addr(14),
        amm_lp_mint: addr(15),
        amm_open_order: addr(16),
        market_program: addr(17),
        market: addr(18),
        nonce: 3,
    }
}

fn market_keys() -> MarketKeys {
    MarketKeys {
        event_queue: addr(20),
        bids: addr(21),
        asks: addr(22),
        coin_vault: addr(23),
        pc_vault: addr(24),
        vault_signer_key: addr(25),
    }
}

fn executor() -> RaydiumAmm {
    RaydiumAmm::new(
        RaydiumAmmExecutorOpts {
            priority_fee: None,
            cu_limits: None,
            wrap_and_unwrap_sol: None,
            get_market_keys_by_api: None,
        },
        ApiV3Client::new(None),
    )
}

fn resolved_pool(
    pc_vault_amount: u64,
    coin_vault_amount: u64,
    fee_numerator: u64,
    fee_denominator: u64,
    coin_mint: Address,
    pc_mint: Address,
) -> ResolvedPool {
    ResolvedPool {
        snapshot: PoolStateSnapshot {
            pool_id: addr(10),
            pc_vault_amount,
            coin_vault_amount,
            fee_numerator,
            fee_denominator,
            coin_decimals: 9,
            pc_decimals: 6,
            orderbook_adjustment: None,
        },
        amm_keys: amm_keys(coin_mint, pc_mint),
        market_keys: market_keys(),
    }
}

#[test]
fn exact_in_scenario_constant_product_minus_fee() {
    let coin_mint = addr(1);
    let pc_mint = addr(2);
    let pool = resolved_pool(50_000_000_000, 1_000_000_000_000, 25, 10000, coin_mint, pc_mint);
    let input = SwapInput {
        input_token_mint: coin_mint,
        output_token_mint: pc_mint,
        slippage_bps: 1000,
        amount: 1_000_000_000,
        mode: SwapExecutionMode::ExactIn,
        market: Some(addr(10)),
    };
    let quote = executor().quote(&input, Some(&pool)).unwrap();
    // fee = ceil(1_000_000_000 * 25 / 10000) = 2_500_000;
    // out = floor(50e9 * 997_500_000 / (1e12 + 997_500_000)) = 49_825_299;
    // threshold = floor(out * 9000 / 10000) = 44_842_769.
    assert_eq!(quote.other_amount, 49_825_299);
    assert_eq!(quote.other_amount_threshold, 44_842_769);
    assert!(quote.other_amount_threshold <= quote.other_amount * 9 / 10);
    assert!(quote.amount_specified_is_input);
    assert_eq!(quote.input_mint_decimals, 9);
    assert_eq!(quote.output_mint_decimals, 6);
    assert_eq!(quote.market, addr(10));
}

#[test]
fn equal_assets_fail_before_pool_is_consulted() {
    let mint = addr(1);
    let input = SwapInput {
        input_token_mint: mint,
        output_token_mint: mint,
        slippage_bps: 100,
        amount: 1_000,
        mode: SwapExecutionMode::ExactIn,
        market: None,
    };
    // No resolved pool is supplied at all: the request must already be
    // rejected as invalid, not reported as a missing pool.
    let r = executor().quote(&input, None);
    assert_eq!(r.unwrap_err(), SwapError::InvalidRequest);
}

#[test]
fn out_of_range_slippage_is_invalid() {
    let pool = resolved_pool(1_000_000, 1_000_000, 25, 10000, addr(1), addr(2));
    let input = SwapInput {
        input_token_mint: addr(1),
        output_token_mint: addr(2),
        slippage_bps: 10001,
        amount: 1_000,
        mode: SwapExecutionMode::ExactIn,
        market: None,
    };
    assert_eq!(executor().quote(&input, Some(&pool)).unwrap_err(), SwapError::InvalidRequest);
}

#[test]
fn missing_pool_is_reported() {
    let input = SwapInput {
        input_token_mint: addr(1),
        output_token_mint: addr(2),
        slippage_bps: 100,
        amount: 1_000,
        mode: SwapExecutionMode::ExactIn,
        market: None,
    };
    assert_eq!(executor().quote(&input, None).unwrap_err(), SwapError::PoolNotFound);
}

#[test]
fn zero_slippage_threshold_equals_counter_amount() {
    let pool = resolved_pool(50_000_000_000, 1_000_000_000_000, 25, 10000, addr(1), addr(2));
    let input = SwapInput {
        input_token_mint: addr(1),
        output_token_mint: addr(2),
        slippage_bps: 0,
        amount: 1_000_000_000,
        mode: SwapExecutionMode::ExactIn,
        market: None,
    };
    let quote = executor().quote(&input, Some(&pool)).unwrap();
    assert_eq!(quote.other_amount_threshold, quote.other_amount);
}

#[test]
fn exact_out_threshold_is_a_maximum() {
    let pool = resolved_pool(50_000_000_000, 1_000_000_000_000, 25, 10000, addr(1), addr(2));
    let input = SwapInput {
        input_token_mint: addr(1),
        output_token_mint: addr(2),
        slippage_bps: 500,
        amount: 10_000_000,
        mode: SwapExecutionMode::ExactOut,
        market: None,
    };
    let quote = executor().quote(&input, Some(&pool)).unwrap();
    assert!(!quote.amount_specified_is_input);
    assert!(quote.other_amount_threshold >= quote.other_amount);
}

#[test]
fn zero_fee_denominator_is_divide_by_zero() {
    let pool = resolved_pool(1_000_000, 1_000_000, 0, 0, addr(1), addr(2));
    let input = SwapInput {
        input_token_mint: addr(1),
        output_token_mint: addr(2),
        slippage_bps: 0,
        amount: 1_000,
        mode: SwapExecutionMode::ExactIn,
        market: None,
    };
    assert_eq!(executor().quote(&input, Some(&pool)).unwrap_err(), SwapError::DivideByZero);
}

#[test]
fn exact_out_draining_the_reserve_overflows() {
    let pool = resolved_pool(1_000_000, 1_000_000, 25, 10000, addr(1), addr(2));
    let input = SwapInput {
        input_token_mint: addr(1),
        output_token_mint: addr(2),
        slippage_bps: 0,
        // Asking for more than the pc reserve holds.
        amount: 2_000_000,
        mode: SwapExecutionMode::ExactOut,
        market: None,
    };
    assert_eq!(
        executor().quote(&input, Some(&pool)).unwrap_err(),
        SwapError::ArithmeticOverflow
    );
}

#[test]
fn orderbook_balances_merge_into_reserves() {
    let snapshot = PoolStateSnapshot {
        pool_id: addr(10),
        pc_vault_amount: 1_000,
        coin_vault_amount: 2_000,
        fee_numerator: 25,
        fee_denominator: 10000,
        coin_decimals: 9,
        pc_decimals: 6,
        orderbook_adjustment: Some(OpenOrderBalances {
            native_pc_total: 500,
            native_coin_total: 700,
        }),
    };
    assert_eq!(effective_reserves(&snapshot).unwrap(), (1_500, 2_700));
}

#[test]
fn orderbook_merge_overflow_is_reported() {
    let snapshot = PoolStateSnapshot {
        pool_id: addr(10),
        pc_vault_amount: u64::MAX,
        coin_vault_amount: 0,
        fee_numerator: 25,
        fee_denominator: 10000,
        coin_decimals: 9,
        pc_decimals: 6,
        orderbook_adjustment: Some(OpenOrderBalances {
            native_pc_total: 1,
            native_coin_total: 0,
        }),
    };
    assert_eq!(effective_reserves(&snapshot).unwrap_err(), SwapError::ArithmeticOverflow);
}

#[test]
fn quoting_is_direction_symmetric() {
    // Trading coin for pc on reserves (pc, coin) prices exactly as trading
    // pc for coin on the reserves written in the other order.
    let a = swap_exact_amount(
        50_000_000_000,
        1_000_000_000_000,
        25,
        10000,
        SwapDirection::Coin2Pc,
        1_000_000_000,
        true,
    )
    .unwrap();
    let b = swap_exact_amount(
        1_000_000_000_000,
        50_000_000_000,
        25,
        10000,
        SwapDirection::Pc2Coin,
        1_000_000_000,
        true,
    )
    .unwrap();
    assert_eq!(a, b);
}

#[test]
fn round_trip_never_profits() {
    // Quote an exact-in swap, then ask the inverse question: what input
    // would buy exactly that output? The answer never exceeds the original
    // fee-net input, so the two quotes are pool-consistent inverses.
    let pc: u64 = 50_000_000_000;
    let coin: u64 = 1_000_000_000_000;
    let out = swap_exact_amount(pc, coin, 0, 1, SwapDirection::Coin2Pc, 997_500_000, true)
        .unwrap();
    assert_eq!(out, 49_825_299);
    let back = swap_exact_amount(pc, coin, 0, 1, SwapDirection::Coin2Pc, out, false).unwrap();
    assert!(back <= 997_500_000);
    assert_eq!(back, 997_499_995);
    // And the exact-out quote suffices: paying it buys the output back.
    let covered = swap_exact_amount(pc, coin, 0, 1, SwapDirection::Coin2Pc, back, true).unwrap();
    assert!(covered >= out);
    // Recomputing exact-in the other way around never profits either.
    let reversed = swap_exact_amount(pc, coin, 0, 1, SwapDirection::Pc2Coin, out, true).unwrap();
    assert_eq!(reversed, 995_513_944);
    assert!(reversed <= 997_500_000);
}

#[test]
fn pool_override_wins_over_discovery() {
    let mut input = SwapInput {
        input_token_mint: addr(1),
        output_token_mint: addr(2),
        slippage_bps: 100,
        amount: 1_000,
        mode: SwapExecutionMode::ExactIn,
        market: Some(addr(77)),
    };
    // With an explicit override, discovery's answer is ignored.
    assert_eq!(resolve_pool_id(&input, Some(addr(88))), Some(addr(77)));
    assert_eq!(resolve_pool_id(&input, None), Some(addr(77)));
    // Without one, discovery decides.
    input.market = None;
    assert_eq!(resolve_pool_id(&input, Some(addr(88))), Some(addr(88)));
    assert_eq!(resolve_pool_id(&input, None), None);
}

#[test]
fn slippage_rounds_toward_the_pool() {
    // Down for a minimum output, up for a maximum input.
    assert_eq!(amount_with_slippage(999, 1, false).unwrap(), 998);
    assert_eq!(amount_with_slippage(999, 1, true).unwrap(), 1000);
    assert_eq!(amount_with_slippage(999, 0, false).unwrap(), 999);
    assert_eq!(amount_with_slippage(999, 0, true).unwrap(), 999);
    assert_eq!(
        amount_with_slippage(u64::MAX, 1, true).unwrap_err(),
        SwapError::ArithmeticOverflow
    );
}
