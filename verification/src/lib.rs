//! Quoting and instruction assembly for swaps against a Raydium AMM
//! liquidity pool.
//!
//! The crate computes constant-product swap quotes with slippage thresholds
//! from a point-in-time snapshot of the pool's reserves, and assembles the
//! ordered instruction plan for an atomic swap transaction: token-account
//! setup, native-asset wrapping, the swap itself, compute-budget and
//! priority-fee instructions, and cleanup.

use vstd::prelude::*;

pub mod address;
pub mod amm_info;
pub mod api;
pub mod api_v3;
pub mod ata;
pub mod builder;
pub mod executor;
pub mod instruction;
pub mod math;
pub mod quote;
pub mod token;
pub mod types;

verus! {

/// The errors a quote or plan construction can end in.
#[derive(Clone, Copy, Debug, PartialEq, Eq, Structural)]
pub enum SwapError {
    /// The request itself is malformed: equal input and output assets, or a
    /// slippage tolerance over 100%.
    InvalidRequest,
    /// No pool resolves for the requested asset pair.
    PoolNotFound,
    /// A required on-chain account was missing or could not be decoded.
    MalformedAccountData,
    /// Fee or ratio arithmetic left the representable range.
    ArithmeticOverflow,
    /// A ratio computation had a zero denominator.
    DivideByZero,
    /// The swap instruction could not be encoded for want of required keys.
    /// A [`quote::RaydiumAmmQuote`] always carries complete key bundles, so
    /// the planner never reports this; it is left to callers that assemble
    /// instructions from looser sources.
    InstructionEncodingError,
    /// A plan was finalized without a swap instruction.
    IncompletePlanError,
    /// The compute-unit simulation gave no usable answer. The planner treats
    /// that as degraded, not fatal — it omits the compute-limit instruction
    /// instead of failing — so this is left to callers that need to surface
    /// the condition itself.
    SimulationUnavailable,
}

} // verus!
