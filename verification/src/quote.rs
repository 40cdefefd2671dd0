//! Pool state snapshots and the quote computation.
//!
//! A [`PoolStateSnapshot`] is an immutable, point-in-time view of one pool's
//! reserves, taken from a single batched account read so that every figure
//! reflects the same ledger state. Quoting merges any resting orderbook
//! balances into the vault balances, chooses the swap direction from the
//! requested mints, and prices the request on the constant-product curve.

use vstd::prelude::*;

use crate::SwapError;
use crate::address::Address;
use crate::math::{
    SwapDirection, exact_err_spec, exact_ok_spec, exact_value_spec, fee_amount_spec,
    in_reserve_spec, lemma_swap_out_bounded, out_reserve_spec, slippage_down_spec,
    slippage_up_spec, swap_in_spec,
};
use crate::types::SwapInput;

verus! {

/// The address bundle of the AMM pool accounts that the swap instruction
/// references.
#[derive(Copy, Clone, Debug, PartialEq, Eq, Structural)]
pub struct AmmKeys {
    pub amm_pool: Address,
    pub amm_coin_mint: Address,
    pub amm_pc_mint: Address,
    pub amm_authority: Address,
    pub amm_target: Address,
    pub amm_coin_vault: Address,
    pub amm_pc_vault: Address,
    pub amm_lp_mint: Address,
    pub amm_open_order: Address,
    pub market_program: Address,
    pub market: Address,
    pub nonce: u8,
}

/// The address bundle of the pool's companion orderbook market accounts.
#[derive(Copy, Clone, Debug, PartialEq, Eq, Structural)]
pub struct MarketKeys {
    pub event_queue: Address,
    pub bids: Address,
    pub asks: Address,
    pub coin_vault: Address,
    pub pc_vault: Address,
    pub vault_signer_key: Address,
}

/// Liquidity of a hybrid pool resting as open limit orders on its companion
/// orderbook, already net of pending fee withdrawals. It must be merged into
/// the vault balances for correct pricing.
#[derive(Copy, Clone, Debug, PartialEq, Eq, Structural)]
pub struct OpenOrderBalances {
    pub native_pc_total: u64,
    pub native_coin_total: u64,
}

/// An immutable, point-in-time view of one pool's priced state. Created
/// fresh for each quote and discarded afterwards: reserves move between
/// ledger states, so a snapshot is never cached.
#[derive(Copy, Clone, Debug, PartialEq, Eq, Structural)]
pub struct PoolStateSnapshot {
    pub pool_id: Address,
    pub pc_vault_amount: u64,
    pub coin_vault_amount: u64,
    pub fee_numerator: u64,
    pub fee_denominator: u64,
    pub coin_decimals: u8,
    pub pc_decimals: u8,
    pub orderbook_adjustment: Option<OpenOrderBalances>,
}

/// A pool resolved for a request: its snapshot and the address bundles
/// needed to encode the swap instruction against it.
#[derive(Copy, Clone, Debug, PartialEq, Eq, Structural)]
pub struct ResolvedPool {
    pub snapshot: PoolStateSnapshot,
    pub amm_keys: AmmKeys,
    pub market_keys: MarketKeys,
}

/// A priced swap: the counter-amount and its slippage threshold, together
/// with everything the instruction plan needs to execute it. Immutable;
/// consumed exactly once by the plan builder.
#[derive(Copy, Clone, Debug, PartialEq, Eq, Structural)]
pub struct RaydiumAmmQuote {
    /// The address of the AMM pool.
    pub market: Address,
    /// The input mint.
    pub input_mint: Address,
    /// The output mint.
    pub output_mint: Address,
    /// The amount specified by the request.
    pub amount: u64,
    /// The counter-amount: output bought for an exact-in swap, input
    /// charged for an exact-out swap.
    pub other_amount: u64,
    /// The counter-amount adjusted by the slippage tolerance: the worst
    /// acceptable value the swap will still execute at.
    pub other_amount_threshold: u64,
    /// Whether the specified amount is in terms of the input token.
    pub amount_specified_is_input: bool,
    /// The input mint's decimal precision.
    pub input_mint_decimals: u8,
    /// The output mint's decimal precision.
    pub output_mint_decimals: u8,
    /// The pool's account addresses.
    pub amm_keys: AmmKeys,
    /// The companion market's account addresses.
    pub market_keys: MarketKeys,
}

/// The pool's effective pc-side liquidity: the vault balance plus any
/// resting orderbook balance.
pub open spec fn total_pc_spec(snapshot: PoolStateSnapshot) -> int {
    snapshot.pc_vault_amount + (match snapshot.orderbook_adjustment {
        Some(b) => b.native_pc_total as int,
        None => 0,
    })
}

/// The pool's effective coin-side liquidity: the vault balance plus any
/// resting orderbook balance.
pub open spec fn total_coin_spec(snapshot: PoolStateSnapshot) -> int {
    snapshot.coin_vault_amount + (match snapshot.orderbook_adjustment {
        Some(b) => b.native_coin_total as int,
        None => 0,
    })
}

/// The effective reserves of the pool: raw vault balances when no orderbook
/// adjustment is active, else vault balances merged with the resting order
/// balances. Ignoring resting orders would understate a hybrid pool's
/// liquidity and skew the quote.
pub fn effective_reserves(snapshot: &PoolStateSnapshot) -> (r: Result<(u64, u64), SwapError>)
    ensures
        r is Ok <==> total_pc_spec(*snapshot) <= u64::MAX && total_coin_spec(*snapshot)
            <= u64::MAX,
        (r matches Ok(p) ==> p.0 == total_pc_spec(*snapshot) && p.1 == total_coin_spec(
            *snapshot,
        )),
        (r is Err ==> r == Err::<(u64, u64), SwapError>(SwapError::ArithmeticOverflow)),
{
    match snapshot.orderbook_adjustment {
        None => Ok((snapshot.pc_vault_amount, snapshot.coin_vault_amount)),
        Some(balances) => {
            let pc: u64 = match snapshot.pc_vault_amount.checked_add(balances.native_pc_total) {
                Some(v) => v,
                None => {
                    return Err(SwapError::ArithmeticOverflow);
                },
            };
            let coin: u64 = match snapshot.coin_vault_amount.checked_add(
                balances.native_coin_total,
            ) {
                Some(v) => v,
                None => {
                    return Err(SwapError::ArithmeticOverflow);
                },
            };
            Ok((pc, coin))
        },
    }
}

/// Unwraps one batched account read: a batch is usable only when every
/// requested account came back, and a missing one reports malformed data.
/// The values keep their order.
pub fn require_accounts<T>(accounts: Vec<Option<T>>) -> (r: Result<Vec<T>, SwapError>)
    ensures
        r is Ok <==> (forall|i: int| 0 <= i < accounts@.len() ==> accounts@[i] is Some),
        (r matches Ok(v) ==> v@.len() == accounts@.len() && (forall|i: int|
            0 <= i < accounts@.len() ==> v@[i] == accounts@[i]->Some_0)),
        (r is Err ==> r == Err::<Vec<T>, SwapError>(SwapError::MalformedAccountData)),
{
    let n = accounts.len();
    let mut k: usize = 0;
    while k < n
        invariant
            n == accounts@.len(),
            k <= n,
            forall|i: int| 0 <= i < k ==> accounts@[i] is Some,
        decreases n - k,
    {
        if accounts[k].is_none() {
            proof {
                assert(!(forall|i: int|
                    0 <= i < accounts@.len() ==> accounts@[i] is Some)) by {
                    assert(0 <= k < accounts@.len() && !(accounts@[k as int] is Some));
                }
            }
            return Err(SwapError::MalformedAccountData);
        }
        k = k + 1;
    }
    let mut input = accounts;
    let mut out: Vec<T> = Vec::new();
    let mut k: usize = 0;
    while k < n
        invariant
            n == accounts@.len(),
            k <= n,
            input@ == accounts@.skip(k as int),
            out@.len() == k,
            forall|i: int| 0 <= i < n ==> accounts@[i] is Some,
            forall|i: int| 0 <= i < k ==> out@[i] == accounts@[i]->Some_0,
        decreases n - k,
    {
        let item: Option<T> = input.remove(0);
        proof {
            assert(item == accounts@[k as int]);
            assert(input@ =~= accounts@.skip(k as int + 1));
        }
        let ghost prev = out@;
        let t: T = item.unwrap();
        out.push(t);
        proof {
            assert forall|i: int| 0 <= i < (k as int) + 1 implies out@[i]
                == accounts@[i]->Some_0 by {
                if i < k as int {
                    assert(out@[i] == prev[i]);
                } else {
                    assert(out@[i] == t);
                }
            }
        }
        k = k + 1;
    }
    Ok(out)
}

/// The swap direction implied by the requested mints: coin to pc exactly
/// when the input is the pool's coin mint and the output its pc mint.
pub open spec fn direction_spec(
    input_mint: Address,
    output_mint: Address,
    keys: AmmKeys,
) -> SwapDirection {
    if input_mint == keys.amm_coin_mint && output_mint == keys.amm_pc_mint {
        SwapDirection::Coin2Pc
    } else {
        SwapDirection::Pc2Coin
    }
}

/// What a quote returns, for every request and every resolved pool state:
/// the request is rejected when its assets coincide or its slippage
/// tolerance is out of range, fails when no pool resolves, and otherwise
/// prices the request on the constant-product curve over the pool's
/// effective reserves, with the slippage threshold rounded in the pool's
/// favor.
pub open spec fn quote_spec(
    swap_input: SwapInput,
    pool: Option<ResolvedPool>,
) -> Result<RaydiumAmmQuote, SwapError> {
    if swap_input.input_token_mint == swap_input.output_token_mint
        || swap_input.slippage_bps > 10000 {
        Err(SwapError::InvalidRequest)
    } else {
        match pool {
            None => Err(SwapError::PoolNotFound),
            Some(p) => {
                let tpc = total_pc_spec(p.snapshot);
                let tcoin = total_coin_spec(p.snapshot);
                if tpc > u64::MAX || tcoin > u64::MAX {
                    Err(SwapError::ArithmeticOverflow)
                } else {
                    let dir = direction_spec(
                        swap_input.input_token_mint,
                        swap_input.output_token_mint,
                        p.amm_keys,
                    );
                    let base_in = swap_input.mode.amount_specified_is_input_spec();
                    let fnum = p.snapshot.fee_numerator as int;
                    let fden = p.snapshot.fee_denominator as int;
                    let amount = swap_input.amount as int;
                    let bps = swap_input.slippage_bps as int;
                    if !exact_ok_spec(tpc, tcoin, fnum, fden, dir, amount, base_in) {
                        Err(exact_err_spec(tpc, tcoin, fnum, fden, dir, amount, base_in))
                    } else {
                        let v = exact_value_spec(tpc, tcoin, fnum, fden, dir, amount, base_in);
                        if !base_in && slippage_up_spec(v, bps) > u64::MAX {
                            Err(SwapError::ArithmeticOverflow)
                        } else {
                            let threshold = if base_in {
                                slippage_down_spec(v, bps)
                            } else {
                                slippage_up_spec(v, bps)
                            };
                            Ok(
                                RaydiumAmmQuote {
                                    market: p.snapshot.pool_id,
                                    input_mint: swap_input.input_token_mint,
                                    output_mint: swap_input.output_token_mint,
                                    amount: swap_input.amount,
                                    other_amount: v as u64,
                                    other_amount_threshold: threshold as u64,
                                    amount_specified_is_input: base_in,
                                    input_mint_decimals: if dir is Coin2Pc {
                                        p.snapshot.coin_decimals
                                    } else {
                                        p.snapshot.pc_decimals
                                    },
                                    output_mint_decimals: if dir is Coin2Pc {
                                        p.snapshot.pc_decimals
                                    } else {
                                        p.snapshot.coin_decimals
                                    },
                                    amm_keys: p.amm_keys,
                                    market_keys: p.market_keys,
                                },
                            )
                        }
                    }
                }
            },
        }
    }
}

/// For every request a quote accepts, the returned threshold is never more
/// favorable to the caller than the counter-amount: at most the
/// counter-amount when the request fixes the input (a minimum acceptable
/// output), at least the counter-amount when it fixes the output (a maximum
/// acceptable input), and exactly the counter-amount when the slippage
/// tolerance is zero.
pub proof fn lemma_quote_threshold_directional(swap_input: SwapInput, pool: Option<ResolvedPool>)
    ensures
        quote_spec(swap_input, pool) matches Ok(q) ==> {
            &&& (q.amount_specified_is_input ==> q.other_amount_threshold <= q.other_amount)
            &&& (!q.amount_specified_is_input ==> q.other_amount_threshold >= q.other_amount)
            &&& (swap_input.slippage_bps == 0 ==> q.other_amount_threshold == q.other_amount)
        },
{
    let r = quote_spec(swap_input, pool);
    if r is Ok {
        let p = pool->Some_0;
        let tpc = total_pc_spec(p.snapshot);
        let tcoin = total_coin_spec(p.snapshot);
        let dir = direction_spec(
            swap_input.input_token_mint,
            swap_input.output_token_mint,
            p.amm_keys,
        );
        let base_in = swap_input.mode.amount_specified_is_input_spec();
        let fnum = p.snapshot.fee_numerator as int;
        let fden = p.snapshot.fee_denominator as int;
        let amount = swap_input.amount as int;
        let bps = swap_input.slippage_bps as int;
        let v = exact_value_spec(tpc, tcoin, fnum, fden, dir, amount, base_in);
        lemma_exact_value_in_range(tpc, tcoin, fnum, fden, dir, amount, base_in);
        crate::math::lemma_threshold_is_directional(v, bps, base_in);
    }
}

/// A successful exact-amount computation yields a value that fits the
/// 64-bit amount range.
pub proof fn lemma_exact_value_in_range(
    total_pc: int,
    total_coin: int,
    fee_numerator: int,
    fee_denominator: int,
    direction: SwapDirection,
    amount_specified: int,
    swap_base_in: bool,
)
    requires
        0 <= total_pc <= u64::MAX,
        0 <= total_coin <= u64::MAX,
        0 <= amount_specified <= u64::MAX,
        0 <= fee_numerator,
        0 <= fee_denominator,
        exact_ok_spec(
            total_pc,
            total_coin,
            fee_numerator,
            fee_denominator,
            direction,
            amount_specified,
            swap_base_in,
        ),
    ensures
        0 <= exact_value_spec(
            total_pc,
            total_coin,
            fee_numerator,
            fee_denominator,
            direction,
            amount_specified,
            swap_base_in,
        ) <= u64::MAX,
{
    let inr = in_reserve_spec(direction, total_pc, total_coin);
    let outr = out_reserve_spec(direction, total_pc, total_coin);
    if swap_base_in {
        let fee = fee_amount_spec(amount_specified, fee_numerator, fee_denominator);
        lemma_swap_out_bounded(amount_specified - fee, inr, outr);
    } else {
        let before = swap_in_spec(amount_specified, inr, outr);
        vstd::arithmetic::mul::lemma_mul_nonnegative(inr, amount_specified);
        vstd::arithmetic::div_mod::lemma_div_pos_is_pos(
            inr * amount_specified + (outr - amount_specified) - 1,
            outr - amount_specified,
        );
        vstd::arithmetic::mul::lemma_mul_nonnegative(before, fee_denominator);
        vstd::arithmetic::div_mod::lemma_div_pos_is_pos(
            before * fee_denominator + (fee_denominator - fee_numerator) - 1,
            fee_denominator - fee_numerator,
        );
    }
}

} // verus!
