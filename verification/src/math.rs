//! Constant-product swap arithmetic.
//!
//! A pool holds two reserves, the "coin" side and the "pc" side, and prices a
//! swap by the constant-product curve net of a proportional fee. All rounding
//! is toward the pool's favor: amounts paid out are rounded down, amounts
//! charged are rounded up.

use vstd::prelude::*;
use vstd::arithmetic::div_mod::{
    lemma_div_is_ordered, lemma_div_multiples_vanish, lemma_fundamental_div_mod,
    lemma_fundamental_div_mod_converse,
};
use vstd::arithmetic::mul::{lemma_mul_inequality, lemma_mul_is_commutative};

use crate::SwapError;

verus! {

/// Which side of the pool the swap puts in: `Coin2Pc` trades the coin side
/// for the pc side, `Pc2Coin` the reverse.
#[derive(Clone, Copy, Debug, PartialEq, Eq, Structural)]
pub enum SwapDirection {
    Coin2Pc,
    Pc2Coin,
}

/// The reserve of the asset the swap pays in.
pub open spec fn in_reserve_spec(direction: SwapDirection, total_pc: int, total_coin: int) -> int {
    match direction {
        SwapDirection::Coin2Pc => total_coin,
        SwapDirection::Pc2Coin => total_pc,
    }
}

/// The reserve of the asset the swap pays out.
pub open spec fn out_reserve_spec(direction: SwapDirection, total_pc: int, total_coin: int) -> int {
    match direction {
        SwapDirection::Coin2Pc => total_pc,
        SwapDirection::Pc2Coin => total_coin,
    }
}

/// Division rounded up.
pub open spec fn ceil_div_spec(a: int, b: int) -> int
    recommends
        a >= 0,
        b > 0,
{
    (a + b - 1) / b
}

/// The amount paid out for `amount_in` (already net of fees) against the
/// given reserves, by the constant-product curve, rounded down.
pub open spec fn swap_out_spec(amount_in: int, in_reserve: int, out_reserve: int) -> int
    recommends
        in_reserve + amount_in > 0,
{
    (out_reserve * amount_in) / (in_reserve + amount_in)
}

/// The amount (gross of fees) that must be paid in to draw `amount_out` from
/// the given reserves, by the constant-product curve, rounded up.
pub open spec fn swap_in_spec(amount_out: int, in_reserve: int, out_reserve: int) -> int
    recommends
        0 <= amount_out < out_reserve,
{
    ceil_div_spec(in_reserve * amount_out, out_reserve - amount_out)
}

/// The proportional fee charged on `amount`, rounded up.
pub open spec fn fee_amount_spec(amount: int, fee_numerator: int, fee_denominator: int) -> int
    recommends
        amount >= 0,
        fee_denominator > 0,
{
    ceil_div_spec(amount * fee_numerator, fee_denominator)
}

/// An amount grossed up so that deducting the proportional fee leaves at
/// least the original amount, rounded up.
pub open spec fn gross_up_spec(amount: int, fee_numerator: int, fee_denominator: int) -> int
    recommends
        amount >= 0,
        fee_denominator > fee_numerator,
{
    ceil_div_spec(amount * fee_denominator, fee_denominator - fee_numerator)
}

/// An amount reduced by the slippage tolerance in basis points, rounded down.
pub open spec fn slippage_down_spec(amount: int, slippage_bps: int) -> int
    recommends
        amount >= 0,
        0 <= slippage_bps <= 10000,
{
    (amount * (10000 - slippage_bps)) / 10000
}

/// An amount raised by the slippage tolerance in basis points, rounded up.
pub open spec fn slippage_up_spec(amount: int, slippage_bps: int) -> int
    recommends
        amount >= 0,
        0 <= slippage_bps <= 10000,
{
    ceil_div_spec(amount * (10000 + slippage_bps), 10000)
}

/// Division of `a` by `b`, rounded up.
pub fn ceil_div_u128(a: u128, b: u128) -> (r: u128)
    requires
        b > 0,
    ensures
        r == ceil_div_spec(a as int, b as int),
{
    let q: u128 = a / b;
    let rem: u128 = a % b;
    proof {
        lemma_fundamental_div_mod(a as int, b as int);
        if rem == 0 {
            lemma_fundamental_div_mod_converse(
                a as int + b as int - 1,
                b as int,
                q as int,
                b as int - 1,
            );
        } else {
            lemma_mul_inequality(1, b as int, q as int);
            lemma_mul_is_commutative(q as int, b as int);
            assert((q as int + 1) * (b as int) == q as int * b as int + b as int)
                by (nonlinear_arith);
            lemma_fundamental_div_mod_converse(
                a as int + b as int - 1,
                b as int,
                q as int + 1,
                rem as int - 1,
            );
        }
    }
    if rem != 0 {
        q + 1
    } else {
        q
    }
}

/// The quotient `(out_reserve * amount_in) / (in_reserve + amount_in)` never
/// exceeds the paying reserve: a swap cannot drain more than what is there.
pub proof fn lemma_swap_out_bounded(amount_in: int, in_reserve: int, out_reserve: int)
    requires
        amount_in >= 0,
        in_reserve >= 0,
        out_reserve >= 0,
        in_reserve + amount_in > 0,
    ensures
        0 <= swap_out_spec(amount_in, in_reserve, out_reserve) <= out_reserve,
{
    let denom = in_reserve + amount_in;
    lemma_mul_inequality(amount_in, denom, out_reserve);
    lemma_mul_is_commutative(amount_in, out_reserve);
    lemma_mul_is_commutative(denom, out_reserve);
    lemma_div_is_ordered(out_reserve * amount_in, out_reserve * denom, denom);
    lemma_div_multiples_vanish(out_reserve, denom);
    assert(denom * out_reserve == out_reserve * denom);
    vstd::arithmetic::div_mod::lemma_div_pos_is_pos(out_reserve * amount_in, denom);
    vstd::arithmetic::mul::lemma_mul_nonnegative(out_reserve, amount_in);
}

/// Rounding up never falls below rounding down.
pub proof fn lemma_ceil_div_ge_floor(a: int, b: int)
    requires
        a >= 0,
        b > 0,
    ensures
        ceil_div_spec(a, b) >= a / b,
{
    lemma_div_is_ordered(a, a + b - 1, b);
}

/// The amount paid out for `amount_in`, net of nothing, by the
/// constant-product curve, rounded down in the pool's favor.
pub fn swap_token_amount_base_in(
    amount_in: u64,
    total_pc: u64,
    total_coin: u64,
    direction: SwapDirection,
) -> (r: Result<u64, SwapError>)
    ensures
        ({
            let inr = in_reserve_spec(direction, total_pc as int, total_coin as int);
            let outr = out_reserve_spec(direction, total_pc as int, total_coin as int);
            &&& r is Ok <==> inr + amount_in > 0
            &&& (r matches Ok(v) ==> v == swap_out_spec(amount_in as int, inr, outr))
            &&& (r is Err ==> r == Err::<u64, SwapError>(SwapError::DivideByZero))
        }),
{
    let (in_r, out_r): (u64, u64) = match direction {
        SwapDirection::Coin2Pc => (total_coin, total_pc),
        SwapDirection::Pc2Coin => (total_pc, total_coin),
    };
    let denom: u128 = in_r as u128 + amount_in as u128;
    if denom == 0 {
        return Err(SwapError::DivideByZero);
    }
    proof {
        lemma_mul_u64_fits_u128(out_r as int, amount_in as int);
    }
    let num: u128 = out_r as u128 * amount_in as u128;
    let out: u128 = num / denom;
    proof {
        lemma_swap_out_bounded(amount_in as int, in_r as int, out_r as int);
    }
    Ok(out as u64)
}

/// The amount that must be paid in to draw `amount_out`, gross of nothing,
/// by the constant-product curve, rounded up in the pool's favor.
pub fn swap_token_amount_base_out(
    amount_out: u64,
    total_pc: u64,
    total_coin: u64,
    direction: SwapDirection,
) -> (r: Result<u128, SwapError>)
    ensures
        ({
            let inr = in_reserve_spec(direction, total_pc as int, total_coin as int);
            let outr = out_reserve_spec(direction, total_pc as int, total_coin as int);
            &&& r is Ok <==> amount_out < outr
            &&& (r matches Ok(v) ==> v == swap_in_spec(amount_out as int, inr, outr))
            &&& (amount_out > outr ==> r == Err::<u128, SwapError>(SwapError::ArithmeticOverflow))
            &&& (amount_out == outr ==> r == Err::<u128, SwapError>(SwapError::DivideByZero))
        }),
{
    let (in_r, out_r): (u64, u64) = match direction {
        SwapDirection::Coin2Pc => (total_coin, total_pc),
        SwapDirection::Pc2Coin => (total_pc, total_coin),
    };
    if amount_out > out_r {
        return Err(SwapError::ArithmeticOverflow);
    }
    let denom: u64 = out_r - amount_out;
    if denom == 0 {
        return Err(SwapError::DivideByZero);
    }
    proof {
        lemma_mul_u64_fits_u128(in_r as int, amount_out as int);
    }
    let num: u128 = in_r as u128 * amount_out as u128;
    Ok(ceil_div_u128(num, denom as u128))
}

/// Whether the full exact-amount computation succeeds: the fee math is well
/// formed and the curve has liquidity to price the request.
pub open spec fn exact_ok_spec(
    total_pc: int,
    total_coin: int,
    fee_numerator: int,
    fee_denominator: int,
    direction: SwapDirection,
    amount_specified: int,
    swap_base_in: bool,
) -> bool {
    let inr = in_reserve_spec(direction, total_pc, total_coin);
    let outr = out_reserve_spec(direction, total_pc, total_coin);
    if swap_base_in {
        let fee = fee_amount_spec(amount_specified, fee_numerator, fee_denominator);
        &&& fee_denominator > 0
        &&& fee <= amount_specified
        &&& inr + (amount_specified - fee) > 0
    } else {
        let before = swap_in_spec(amount_specified, inr, outr);
        &&& amount_specified < outr
        &&& fee_denominator > fee_numerator
        &&& before * fee_denominator <= u128::MAX
        &&& gross_up_spec(before, fee_numerator, fee_denominator) <= u64::MAX
    }
}

/// The counter-amount of a successful exact-amount computation: for an
/// exact-in swap, the output bought by the input net of fee; for an
/// exact-out swap, the input charged, grossed up by the fee.
pub open spec fn exact_value_spec(
    total_pc: int,
    total_coin: int,
    fee_numerator: int,
    fee_denominator: int,
    direction: SwapDirection,
    amount_specified: int,
    swap_base_in: bool,
) -> int
    recommends
        exact_ok_spec(
            total_pc,
            total_coin,
            fee_numerator,
            fee_denominator,
            direction,
            amount_specified,
            swap_base_in,
        ),
{
    let inr = in_reserve_spec(direction, total_pc, total_coin);
    let outr = out_reserve_spec(direction, total_pc, total_coin);
    if swap_base_in {
        let fee = fee_amount_spec(amount_specified, fee_numerator, fee_denominator);
        swap_out_spec(amount_specified - fee, inr, outr)
    } else {
        gross_up_spec(swap_in_spec(amount_specified, inr, outr), fee_numerator, fee_denominator)
    }
}

/// The error a failing exact-amount computation reports, by the first
/// condition that fails.
pub open spec fn exact_err_spec(
    total_pc: int,
    total_coin: int,
    fee_numerator: int,
    fee_denominator: int,
    direction: SwapDirection,
    amount_specified: int,
    swap_base_in: bool,
) -> SwapError {
    let inr = in_reserve_spec(direction, total_pc, total_coin);
    let outr = out_reserve_spec(direction, total_pc, total_coin);
    if swap_base_in {
        if fee_denominator <= 0 {
            SwapError::DivideByZero
        } else if fee_amount_spec(amount_specified, fee_numerator, fee_denominator)
            > amount_specified {
            SwapError::ArithmeticOverflow
        } else {
            SwapError::DivideByZero
        }
    } else {
        if amount_specified > outr {
            SwapError::ArithmeticOverflow
        } else if amount_specified == outr {
            SwapError::DivideByZero
        } else if fee_numerator > fee_denominator {
            SwapError::ArithmeticOverflow
        } else if fee_numerator == fee_denominator {
            SwapError::DivideByZero
        } else {
            SwapError::ArithmeticOverflow
        }
    }
}

/// The counter-amount for a swap of `amount_specified`: the output bought
/// when the amount is the input (`swap_base_in`), else the input charged,
/// in both cases net of the pool's proportional fee and rounded in the
/// pool's favor.
pub fn swap_exact_amount(
    total_pc: u64,
    total_coin: u64,
    fee_numerator: u64,
    fee_denominator: u64,
    direction: SwapDirection,
    amount_specified: u64,
    swap_base_in: bool,
) -> (r: Result<u64, SwapError>)
    ensures
        r is Ok <==> exact_ok_spec(
            total_pc as int,
            total_coin as int,
            fee_numerator as int,
            fee_denominator as int,
            direction,
            amount_specified as int,
            swap_base_in,
        ),
        (r matches Ok(v) ==> v == exact_value_spec(
            total_pc as int,
            total_coin as int,
            fee_numerator as int,
            fee_denominator as int,
            direction,
            amount_specified as int,
            swap_base_in,
        )),
        (r matches Err(e) ==> e == exact_err_spec(
            total_pc as int,
            total_coin as int,
            fee_numerator as int,
            fee_denominator as int,
            direction,
            amount_specified as int,
            swap_base_in,
        )),
{
    let (in_r, out_r): (u64, u64) = match direction {
        SwapDirection::Coin2Pc => (total_coin, total_pc),
        SwapDirection::Pc2Coin => (total_pc, total_coin),
    };
    if swap_base_in {
        if fee_denominator == 0 {
            return Err(SwapError::DivideByZero);
        }
        proof {
            lemma_mul_u64_fits_u128(amount_specified as int, fee_numerator as int);
        }
        let fee: u128 = ceil_div_u128(
            amount_specified as u128 * fee_numerator as u128,
            fee_denominator as u128,
        );
        if fee > amount_specified as u128 {
            return Err(SwapError::ArithmeticOverflow);
        }
        let after_fee: u64 = amount_specified - (fee as u64);
        let denom: u128 = in_r as u128 + after_fee as u128;
        if denom == 0 {
            return Err(SwapError::DivideByZero);
        }
        proof {
            lemma_mul_u64_fits_u128(out_r as int, after_fee as int);
        }
        let num: u128 = out_r as u128 * after_fee as u128;
        let out: u128 = num / denom;
        proof {
            lemma_swap_out_bounded(after_fee as int, in_r as int, out_r as int);
        }
        Ok(out as u64)
    } else {
        if amount_specified > out_r {
            return Err(SwapError::ArithmeticOverflow);
        }
        let denom: u64 = out_r - amount_specified;
        if denom == 0 {
            return Err(SwapError::DivideByZero);
        }
        proof {
            lemma_mul_u64_fits_u128(in_r as int, amount_specified as int);
        }
        let before: u128 = ceil_div_u128(
            in_r as u128 * amount_specified as u128,
            denom as u128,
        );
        if fee_numerator > fee_denominator {
            return Err(SwapError::ArithmeticOverflow);
        }
        let fee_sub: u64 = fee_denominator - fee_numerator;
        if fee_sub == 0 {
            return Err(SwapError::DivideByZero);
        }
        let num: u128 = match before.checked_mul(fee_denominator as u128) {
            Some(n) => n,
            None => {
                return Err(SwapError::ArithmeticOverflow);
            },
        };
        let gross: u128 = ceil_div_u128(num, fee_sub as u128);
        if gross > u64::MAX as u128 {
            return Err(SwapError::ArithmeticOverflow);
        }
        Ok(gross as u64)
    }
}

/// Applies the slippage tolerance to a counter-amount: down to a minimum
/// acceptable output (`round_up` false), or up to a maximum acceptable
/// input (`round_up` true). Rounding is toward the pool's favor either way.
pub fn amount_with_slippage(amount: u64, slippage_bps: u16, round_up: bool) -> (r: Result<
    u64,
    SwapError,
>)
    requires
        slippage_bps <= 10000,
    ensures
        round_up ==> {
            &&& r is Ok <==> slippage_up_spec(amount as int, slippage_bps as int) <= u64::MAX
            &&& (r matches Ok(v) ==> v == slippage_up_spec(amount as int, slippage_bps as int)
                && v >= amount)
            &&& (r is Err ==> r == Err::<u64, SwapError>(SwapError::ArithmeticOverflow))
            &&& (slippage_bps == 0 ==> r == Ok::<u64, SwapError>(amount))
        },
        !round_up ==> {
            &&& r is Ok
            &&& (r matches Ok(v) ==> v == slippage_down_spec(amount as int, slippage_bps as int)
                && v <= amount)
            &&& (slippage_bps == 0 ==> r == Ok::<u64, SwapError>(amount))
        },
{
    if round_up {
        let factor: u128 = 10000 + slippage_bps as u128;
        proof {
            lemma_mul_u64_fits_u128(amount as int, factor as int);
        }
        let raised: u128 = ceil_div_u128(amount as u128 * factor, 10000);
        proof {
            lemma_slippage_up_ge(amount as int, slippage_bps as int);
        }
        if raised > u64::MAX as u128 {
            Err(SwapError::ArithmeticOverflow)
        } else {
            Ok(raised as u64)
        }
    } else {
        let factor: u128 = 10000 - slippage_bps as u128;
        proof {
            lemma_mul_u64_fits_u128(amount as int, factor as int);
        }
        let lowered: u128 = (amount as u128 * factor) / 10000;
        proof {
            lemma_slippage_down_le(amount as int, slippage_bps as int);
        }
        Ok(lowered as u64)
    }
}

/// Lowering by slippage never raises the amount, and a zero tolerance
/// leaves it unchanged.
pub proof fn lemma_slippage_down_le(amount: int, slippage_bps: int)
    requires
        amount >= 0,
        0 <= slippage_bps <= 10000,
    ensures
        0 <= slippage_down_spec(amount, slippage_bps) <= amount,
        slippage_bps == 0 ==> slippage_down_spec(amount, slippage_bps) == amount,
{
    lemma_mul_inequality(10000 - slippage_bps, 10000, amount);
    lemma_mul_is_commutative(10000 - slippage_bps, amount);
    lemma_mul_is_commutative(10000, amount);
    lemma_div_is_ordered(amount * (10000 - slippage_bps), amount * 10000, 10000);
    lemma_div_multiples_vanish(amount, 10000);
    vstd::arithmetic::mul::lemma_mul_nonnegative(amount, 10000 - slippage_bps);
    vstd::arithmetic::div_mod::lemma_div_pos_is_pos(amount * (10000 - slippage_bps), 10000);
}

/// Raising by slippage never lowers the amount, and a zero tolerance
/// leaves it unchanged.
pub proof fn lemma_slippage_up_ge(amount: int, slippage_bps: int)
    requires
        amount >= 0,
        0 <= slippage_bps <= 10000,
    ensures
        slippage_up_spec(amount, slippage_bps) >= amount,
        slippage_bps == 0 ==> slippage_up_spec(amount, slippage_bps) == amount,
{
    lemma_mul_inequality(10000, 10000 + slippage_bps, amount);
    lemma_mul_is_commutative(10000 + slippage_bps, amount);
    lemma_mul_is_commutative(10000, amount);
    lemma_div_is_ordered(amount * 10000, amount * (10000 + slippage_bps), 10000);
    lemma_div_multiples_vanish(amount, 10000);
    lemma_ceil_div_ge_floor(amount * (10000 + slippage_bps), 10000);
    vstd::arithmetic::mul::lemma_mul_nonnegative(amount, 10000 + slippage_bps);
    if slippage_bps == 0 {
        lemma_fundamental_div_mod_converse(
            amount * 10000 + 10000 - 1,
            10000,
            amount,
            10000 - 1,
        );
        lemma_mul_is_commutative(amount, 10000);
    }
}

/// The slippage-adjusted threshold is never more favorable to the caller
/// than the counter-amount itself, and equals it exactly when the
/// tolerance is zero.
pub proof fn lemma_threshold_is_directional(amount: int, slippage_bps: int, swap_base_in: bool)
    requires
        amount >= 0,
        0 <= slippage_bps <= 10000,
    ensures
        swap_base_in ==> slippage_down_spec(amount, slippage_bps) <= amount,
        !swap_base_in ==> slippage_up_spec(amount, slippage_bps) >= amount,
        slippage_bps == 0 ==> slippage_down_spec(amount, slippage_bps) == amount
            && slippage_up_spec(amount, slippage_bps) == amount,
{
    lemma_slippage_down_le(amount, slippage_bps);
    lemma_slippage_up_ge(amount, slippage_bps);
}

/// The counter-amount together with its slippage threshold: the minimum
/// acceptable output for an exact-in swap, or the maximum acceptable input
/// for an exact-out swap.
pub fn swap_with_slippage(
    total_pc: u64,
    total_coin: u64,
    fee_numerator: u64,
    fee_denominator: u64,
    direction: SwapDirection,
    amount_specified: u64,
    swap_base_in: bool,
    slippage_bps: u16,
) -> (r: Result<(u64, u64), SwapError>)
    requires
        slippage_bps <= 10000,
    ensures
        (r matches Ok(p) ==> {
            let v = exact_value_spec(
                total_pc as int,
                total_coin as int,
                fee_numerator as int,
                fee_denominator as int,
                direction,
                amount_specified as int,
                swap_base_in,
            );
            &&& exact_ok_spec(
                total_pc as int,
                total_coin as int,
                fee_numerator as int,
                fee_denominator as int,
                direction,
                amount_specified as int,
                swap_base_in,
            )
            &&& p.0 == v
            &&& (swap_base_in ==> p.1 == slippage_down_spec(v, slippage_bps as int) && p.1 <= p.0)
            &&& (!swap_base_in ==> p.1 == slippage_up_spec(v, slippage_bps as int) && p.1 >= p.0)
            &&& (slippage_bps == 0 ==> p.1 == p.0)
        }),
        ({
            let ok = exact_ok_spec(
                total_pc as int,
                total_coin as int,
                fee_numerator as int,
                fee_denominator as int,
                direction,
                amount_specified as int,
                swap_base_in,
            );
            let v = exact_value_spec(
                total_pc as int,
                total_coin as int,
                fee_numerator as int,
                fee_denominator as int,
                direction,
                amount_specified as int,
                swap_base_in,
            );
            let e = exact_err_spec(
                total_pc as int,
                total_coin as int,
                fee_numerator as int,
                fee_denominator as int,
                direction,
                amount_specified as int,
                swap_base_in,
            );
            &&& (r is Ok <==> ok && (swap_base_in || slippage_up_spec(v, slippage_bps as int)
                <= u64::MAX))
            &&& (!ok ==> r == Err::<(u64, u64), SwapError>(e))
            &&& (ok && !swap_base_in && slippage_up_spec(v, slippage_bps as int) > u64::MAX
                ==> r == Err::<(u64, u64), SwapError>(SwapError::ArithmeticOverflow))
        }),
{
    let other_amount: u64 = swap_exact_amount(
        total_pc,
        total_coin,
        fee_numerator,
        fee_denominator,
        direction,
        amount_specified,
        swap_base_in,
    )?;
    let threshold: u64 = amount_with_slippage(other_amount, slippage_bps, !swap_base_in)?;
    Ok((other_amount, threshold))
}

/// Quoting is order-direction symmetric: trading coin for pc against
/// reserves `(pc, coin)` prices exactly as trading pc for coin against the
/// reserves written in the other order.
pub proof fn lemma_quote_direction_symmetric(
    total_pc: int,
    total_coin: int,
    fee_numerator: int,
    fee_denominator: int,
    amount_specified: int,
    swap_base_in: bool,
)
    ensures
        exact_ok_spec(
            total_pc,
            total_coin,
            fee_numerator,
            fee_denominator,
            SwapDirection::Coin2Pc,
            amount_specified,
            swap_base_in,
        ) == exact_ok_spec(
            total_coin,
            total_pc,
            fee_numerator,
            fee_denominator,
            SwapDirection::Pc2Coin,
            amount_specified,
            swap_base_in,
        ),
        exact_value_spec(
            total_pc,
            total_coin,
            fee_numerator,
            fee_denominator,
            SwapDirection::Coin2Pc,
            amount_specified,
            swap_base_in,
        ) == exact_value_spec(
            total_coin,
            total_pc,
            fee_numerator,
            fee_denominator,
            SwapDirection::Pc2Coin,
            amount_specified,
            swap_base_in,
        ),
{
}

/// A round trip never profits: paying the quoted output of an exact-in swap
/// back into the pool to ask for that same output never demands more than
/// the original (fee-net) input. The two quotes are pool-consistent inverses
/// within their rounding.
pub proof fn lemma_round_trip_never_profits(amount_in: int, in_reserve: int, out_reserve: int)
    requires
        amount_in >= 0,
        in_reserve > 0,
        out_reserve > 0,
    ensures
        ({
            let o = swap_out_spec(amount_in, in_reserve, out_reserve);
            &&& o < out_reserve
            &&& swap_in_spec(o, in_reserve, out_reserve) <= amount_in
        }),
{
    let denom = in_reserve + amount_in;
    let o = swap_out_spec(amount_in, in_reserve, out_reserve);
    lemma_swap_out_bounded(amount_in, in_reserve, out_reserve);
    lemma_fundamental_div_mod(out_reserve * amount_in, denom);
    // From the floor definition: o * denom <= out_reserve * amount_in.
    assert(o * denom <= out_reserve * amount_in) by (nonlinear_arith)
        requires
            denom > 0,
            out_reserve * amount_in == denom * o + (out_reserve * amount_in) % denom,
            (out_reserve * amount_in) % denom >= 0,
    ;
    // The payout side stays strictly below the reserve.
    assert(o < out_reserve) by (nonlinear_arith)
        requires
            o * denom <= out_reserve * amount_in,
            denom == in_reserve + amount_in,
            in_reserve > 0,
            out_reserve > 0,
            amount_in >= 0,
            0 <= o <= out_reserve,
    ;
    // Rearranged: the reverse quote's numerator is bounded by its scaled input.
    assert(in_reserve * o <= amount_in * (out_reserve - o)) by (nonlinear_arith)
        requires
            o * denom <= out_reserve * amount_in,
            denom == in_reserve + amount_in,
    ;
    let b = out_reserve - o;
    lemma_div_is_ordered(in_reserve * o + b - 1, amount_in * b + b - 1, b);
    lemma_fundamental_div_mod_converse(amount_in * b + b - 1, b, amount_in, b - 1);
}

/// Recomputing an exact-in quote in the other direction never profits
/// either: feeding the quoted output back in, priced the other way around
/// on the same snapshot, returns at most the original input. (The shortfall
/// is not bounded by rounding alone: both legs move the price against the
/// caller on the unchanged reserves.)
pub proof fn lemma_reverse_quote_never_profits(amount_in: int, in_reserve: int, out_reserve: int)
    requires
        amount_in >= 0,
        in_reserve > 0,
        out_reserve > 0,
    ensures
        ({
            let o = swap_out_spec(amount_in, in_reserve, out_reserve);
            swap_out_spec(o, out_reserve, in_reserve) <= amount_in
        }),
{
    let o = swap_out_spec(amount_in, in_reserve, out_reserve);
    let denom = in_reserve + amount_in;
    lemma_swap_out_bounded(amount_in, in_reserve, out_reserve);
    lemma_fundamental_div_mod(out_reserve * amount_in, denom);
    // From the floor definition: o * denom <= out_reserve * amount_in.
    assert(o * denom <= out_reserve * amount_in) by (nonlinear_arith)
        requires
            denom > 0,
            out_reserve * amount_in == denom * o + (out_reserve * amount_in) % denom,
            (out_reserve * amount_in) % denom >= 0,
    ;
    // Rearranged: the reverse leg's numerator is bounded by its scaled input.
    assert(in_reserve * o <= amount_in * (out_reserve + o)) by (nonlinear_arith)
        requires
            o * denom <= out_reserve * amount_in,
            denom == in_reserve + amount_in,
            o >= 0,
            amount_in >= 0,
    ;
    lemma_div_is_ordered(in_reserve * o, amount_in * (out_reserve + o), out_reserve + o);
    lemma_div_multiples_vanish(amount_in, out_reserve + o);
    lemma_mul_is_commutative(amount_in, out_reserve + o);
}

/// An exact-out quote suffices: paying the input it charges buys at least
/// the requested output back from the same reserves. Together with
/// [`lemma_round_trip_never_profits`] this makes the two quote directions
/// pool-consistent inverses within their rounding.
pub proof fn lemma_exact_out_covers_request(amount_out: int, in_reserve: int, out_reserve: int)
    requires
        in_reserve > 0,
        0 <= amount_out < out_reserve,
    ensures
        swap_out_spec(swap_in_spec(amount_out, in_reserve, out_reserve), in_reserve, out_reserve)
            >= amount_out,
{
    let b = out_reserve - amount_out;
    let a = in_reserve * amount_out;
    let x = swap_in_spec(amount_out, in_reserve, out_reserve);
    vstd::arithmetic::mul::lemma_mul_nonnegative(in_reserve, amount_out);
    lemma_fundamental_div_mod(a + b - 1, b);
    // Rounding up covers the numerator: x * b >= a.
    assert(x * b >= a) by (nonlinear_arith)
        requires
            b > 0,
            a >= 0,
            a + b - 1 == b * x + (a + b - 1) % b,
            0 <= (a + b - 1) % b < b,
    ;
    vstd::arithmetic::div_mod::lemma_div_pos_is_pos(a + b - 1, b);
    // Rearranged: the forward payout of x clears the requested amount.
    assert(out_reserve * x >= amount_out * (in_reserve + x)) by (nonlinear_arith)
        requires
            x * b >= a,
            b == out_reserve - amount_out,
            a == in_reserve * amount_out,
    ;
    lemma_div_is_ordered(amount_out * (in_reserve + x), out_reserve * x, in_reserve + x);
    lemma_div_multiples_vanish(amount_out, in_reserve + x);
    lemma_mul_is_commutative(amount_out, in_reserve + x);
}

/// The product of two 64-bit values fits in 128 bits.
pub proof fn lemma_mul_u64_fits_u128(x: int, y: int)
    requires
        0 <= x <= u64::MAX,
        0 <= y <= u64::MAX,
    ensures
        0 <= x * y <= u64::MAX * u64::MAX < u128::MAX,
{
    lemma_mul_inequality(x, u64::MAX as int, y);
    lemma_mul_is_commutative(u64::MAX as int, y);
    lemma_mul_inequality(y, u64::MAX as int, u64::MAX as int);
    vstd::arithmetic::mul::lemma_mul_nonnegative(x, y);
}

} // verus!
