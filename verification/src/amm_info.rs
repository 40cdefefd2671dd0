//! The decoded state of an AMM pool account.
//!
//! The byte-level account codec is an external concern; these types hold
//! what it produces, laid out field by field as the on-chain account stores
//! them. The cumulative swap totals arrive as 16 raw little-endian bytes
//! and are read into 128-bit integers here.

use vstd::prelude::*;
use vstd::bytes::{spec_u64_from_le_bytes, u64_from_le_bytes};
use vstd::slice::slice_subrange;

use crate::address::Address;
use crate::quote::{OpenOrderBalances, PoolStateSnapshot};

verus! {

/// The value of 16 bytes read as one little-endian 128-bit integer: the low
/// eight bytes, plus the high eight bytes scaled by 2 to the 64th.
pub open spec fn u128_le_spec(s: Seq<u8>) -> int
    recommends
        s.len() == 16,
{
    spec_u64_from_le_bytes(s.subrange(0, 8)) + 0x1_0000_0000_0000_0000
        * spec_u64_from_le_bytes(s.subrange(8, 16))
}

/// Reads 16 bytes as one little-endian 128-bit integer.
pub fn u128_from_le_bytes(bytes: &[u8]) -> (r: u128)
    requires
        bytes@.len() == 16,
    ensures
        r == u128_le_spec(bytes@),
{
    let lo: u64 = u64_from_le_bytes(slice_subrange(bytes, 0, 8));
    let hi: u64 = u64_from_le_bytes(slice_subrange(bytes, 8, 16));
    lo as u128 + 0x1_0000_0000_0000_0000u128 * hi as u128
}

/// The pool's fee schedule, each rate a numerator over a denominator.
#[derive(Clone, Copy, Debug, PartialEq, Eq, Structural)]
pub struct Fees {
    /// Minimum separated numerator.
    pub min_separate_numerator: u64,
    /// Minimum separated denominator.
    pub min_separate_denominator: u64,
    /// Trade fee numerator.
    pub trade_fee_numerator: u64,
    /// Trade fee denominator.
    pub trade_fee_denominator: u64,
    /// Profit-and-loss numerator.
    pub pnl_numerator: u64,
    /// Profit-and-loss denominator.
    pub pnl_denominator: u64,
    /// Swap fee numerator.
    pub swap_fee_numerator: u64,
    /// Swap fee denominator.
    pub swap_fee_denominator: u64,
}

/// The pool's statistical state. The four cumulative swap totals are kept
/// as the 16 raw little-endian bytes the account stores.
#[derive(Clone, Copy, Debug)]
pub struct StateData {
    /// Delayed coin profit to take.
    pub need_take_pnl_coin: u64,
    /// Delayed pc profit to take.
    pub need_take_pnl_pc: u64,
    /// Total pc profit taken.
    pub total_pnl_pc: u64,
    /// Total coin profit taken.
    pub total_pnl_coin: u64,
    /// The pool's opening time.
    pub pool_open_time: u64,
    /// Reserved for future layout growth.
    pub padding: [u64; 2],
    /// When the pool switched from orderbook-only to initialized.
    pub orderbook_to_init_time: u64,
    /// Cumulative coin paid in by swaps, 16 little-endian bytes.
    pub swap_coin_in_amount: [u8; 16],
    /// Cumulative pc paid out by swaps, 16 little-endian bytes.
    pub swap_pc_out_amount: [u8; 16],
    /// Accumulated pc taken as swap fees.
    pub swap_acc_pc_fee: u64,
    /// Cumulative pc paid in by swaps, 16 little-endian bytes.
    pub swap_pc_in_amount: [u8; 16],
    /// Cumulative coin paid out by swaps, 16 little-endian bytes.
    pub swap_coin_out_amount: [u8; 16],
    /// Accumulated coin taken as swap fees.
    pub swap_acc_coin_fee: u64,
}

impl StateData {
    /// The four cumulative swap totals — coin in, pc out, pc in, coin
    /// out — read little-endian from their byte fields.
    pub fn swap_totals(&self) -> (r: (u128, u128, u128, u128))
        ensures
            r.0 == u128_le_spec(self.swap_coin_in_amount@),
            r.1 == u128_le_spec(self.swap_pc_out_amount@),
            r.2 == u128_le_spec(self.swap_pc_in_amount@),
            r.3 == u128_le_spec(self.swap_coin_out_amount@),
    {
        (
            u128_from_le_bytes(self.swap_coin_in_amount.as_slice()),
            u128_from_le_bytes(self.swap_pc_out_amount.as_slice()),
            u128_from_le_bytes(self.swap_pc_in_amount.as_slice()),
            u128_from_le_bytes(self.swap_coin_out_amount.as_slice()),
        )
    }
}

/// The decoded AMM pool account, field by field as the on-chain account
/// lays it out.
#[derive(Clone, Copy, Debug)]
pub struct AmmInfo {
    /// Initialization status.
    pub status: u64,
    /// The nonce the pool's program authority was derived with.
    pub nonce: u64,
    /// Maximum order count.
    pub order_num: u64,
    /// Order depth range; 5 means 5%.
    pub depth: u64,
    /// The coin side's decimal precision.
    pub coin_decimals: u64,
    /// The pc side's decimal precision.
    pub pc_decimals: u64,
    /// Machine state.
    pub state: u64,
    /// Reset flag.
    pub reset_flag: u64,
    /// Minimum size; 1 means one millionth.
    pub min_size: u64,
    /// Volume cut-ratio numerator over `sys_decimal_value`.
    pub vol_max_cut_ratio: u64,
    /// Amount-wave numerator over `sys_decimal_value`.
    pub amount_wave: u64,
    /// Coin lot size; 1 means one millionth.
    pub coin_lot_size: u64,
    /// Pc lot size; 1 means one millionth.
    pub pc_lot_size: u64,
    /// Minimum current-price multiplier.
    pub min_price_multiplier: u64,
    /// Maximum current-price multiplier.
    pub max_price_multiplier: u64,
    /// The value coin and pc amounts are normalized by.
    pub sys_decimal_value: u64,
    /// The fee schedule.
    pub fees: Fees,
    /// The statistical state.
    pub state_data: StateData,
    /// The coin vault.
    pub coin_vault: Address,
    /// The pc vault.
    pub pc_vault: Address,
    /// The coin vault's mint.
    pub coin_vault_mint: Address,
    /// The pc vault's mint.
    pub pc_vault_mint: Address,
    /// The liquidity-provider mint.
    pub lp_mint: Address,
    /// The pool's open-orders account.
    pub open_orders: Address,
    /// The companion market.
    pub market: Address,
    /// The companion market's program.
    pub market_program: Address,
    /// The pool's target-orders account.
    pub target_orders: Address,
    /// Reserved for future layout growth.
    pub padding1: [u64; 8],
    /// The pool's owner.
    pub amm_owner: Address,
    /// The outstanding liquidity-provider amount.
    pub lp_amount: u64,
    /// Client order id.
    pub client_order_id: u64,
    /// Reserved for future layout growth.
    pub padding2: [u64; 2],
}

impl AmmInfo {
    /// The point-in-time snapshot of this pool priced by a quote: the
    /// given vault balances and orderbook adjustment, with the pool's swap
    /// fee and decimal precisions.
    pub fn snapshot(
        &self,
        pool_id: Address,
        pc_vault_amount: u64,
        coin_vault_amount: u64,
        orderbook_adjustment: Option<OpenOrderBalances>,
    ) -> (r: PoolStateSnapshot)
        ensures
            r == (PoolStateSnapshot {
                pool_id,
                pc_vault_amount,
                coin_vault_amount,
                fee_numerator: self.fees.swap_fee_numerator,
                fee_denominator: self.fees.swap_fee_denominator,
                coin_decimals: self.coin_decimals as u8,
                pc_decimals: self.pc_decimals as u8,
                orderbook_adjustment,
            }),
    {
        PoolStateSnapshot {
            pool_id,
            pc_vault_amount,
            coin_vault_amount,
            fee_numerator: self.fees.swap_fee_numerator,
            fee_denominator: self.fees.swap_fee_denominator,
            coin_decimals: #[verifier::truncate] (self.coin_decimals as u8),
            pc_decimals: #[verifier::truncate] (self.pc_decimals as u8),
            orderbook_adjustment,
        }
    }
}

} // verus!
