//! Swap requests and configuration.

use vstd::prelude::*;

use crate::address::Address;

verus! {

/// How the compute-unit limit of the transaction is chosen: measured by a
/// dry-run simulation, or fixed by the caller.
#[derive(Copy, Clone, Debug, PartialEq, Eq, Structural)]
pub enum ComputeUnitLimits {
    Dynamic,
    Fixed(u64),
}

impl Default for ComputeUnitLimits {
    fn default() -> (r: Self)
        ensures
            r == ComputeUnitLimits::Dynamic,
    {
        ComputeUnitLimits::Dynamic
    }
}

/// The priority-fee strategy: a per-compute-unit price derived from a target
/// total fee, a fixed per-compute-unit price, or a direct tip transfer.
/// Exactly one strategy is selected.
#[derive(Copy, Clone, Debug, PartialEq, Eq, Structural)]
pub enum PriorityFeeConfig {
    DynamicMultiplier(u64),
    FixedCuPrice(u64),
    JitoTip(u64),
}

/// The base configuration of a swap executor. Any field left `None` falls
/// back to the executor's defaults.
#[derive(Copy, Clone, Debug, PartialEq, Eq, Structural)]
pub struct SwapConfig {
    pub priority_fee: Option<PriorityFeeConfig>,
    pub cu_limits: Option<ComputeUnitLimits>,
    pub wrap_and_unwrap_sol: Option<bool>,
    pub as_legacy_transaction: Option<bool>,
}

/// Per-call overrides of a [`SwapConfig`]: each field set here wins over the
/// base configuration.
#[derive(Copy, Clone, Debug, PartialEq, Eq, Structural)]
pub struct SwapConfigOverrides {
    pub priority_fee: Option<PriorityFeeConfig>,
    pub cu_limits: Option<ComputeUnitLimits>,
    pub wrap_and_unwrap_sol: Option<bool>,
    pub destination_token_account: Option<Address>,
    pub as_legacy_transaction: Option<bool>,
}

impl Default for SwapConfigOverrides {
    fn default() -> (r: Self)
        ensures
            r == (SwapConfigOverrides {
                priority_fee: None,
                cu_limits: None,
                wrap_and_unwrap_sol: None,
                destination_token_account: None,
                as_legacy_transaction: None,
            }),
    {
        SwapConfigOverrides {
            priority_fee: None,
            cu_limits: None,
            wrap_and_unwrap_sol: None,
            destination_token_account: None,
            as_legacy_transaction: None,
        }
    }
}

/// The priority-fee intent after merging overrides over a base
/// configuration: the override wins where set, else the base applies.
pub open spec fn merged_priority_fee(
    config: SwapConfig,
    overrides: Option<SwapConfigOverrides>,
) -> Option<PriorityFeeConfig> {
    match overrides {
        Some(o) => if o.priority_fee is Some {
            o.priority_fee
        } else {
            config.priority_fee
        },
        None => config.priority_fee,
    }
}

/// The compute-limit intent after merging overrides over a base
/// configuration.
pub open spec fn merged_cu_limits(
    config: SwapConfig,
    overrides: Option<SwapConfigOverrides>,
) -> Option<ComputeUnitLimits> {
    match overrides {
        Some(o) => if o.cu_limits is Some {
            o.cu_limits
        } else {
            config.cu_limits
        },
        None => config.cu_limits,
    }
}

/// Whether native-asset wrapping is enabled after merging overrides over a
/// base configuration; enabled when neither says otherwise.
pub open spec fn merged_wrap_and_unwrap_sol(
    config: SwapConfig,
    overrides: Option<SwapConfigOverrides>,
) -> bool {
    match overrides {
        Some(o) => match o.wrap_and_unwrap_sol {
            Some(w) => w,
            None => match config.wrap_and_unwrap_sol {
                Some(w) => w,
                None => true,
            },
        },
        None => match config.wrap_and_unwrap_sol {
            Some(w) => w,
            None => true,
        },
    }
}

/// The destination-account override, which only the per-call overrides can
/// set; without one the plan creates the user's own associated account.
pub open spec fn merged_destination(overrides: Option<SwapConfigOverrides>) -> Option<Address> {
    match overrides {
        Some(o) => o.destination_token_account,
        None => None,
    }
}

/// A swap request: trade `amount` units between the two asset mints at the
/// given slippage tolerance, optionally against an explicitly chosen pool.
#[derive(Copy, Clone, Debug, PartialEq, Eq, Structural)]
pub struct SwapInput {
    pub input_token_mint: Address,
    pub output_token_mint: Address,
    pub slippage_bps: u16,
    pub amount: u64,
    pub mode: SwapExecutionMode,
    pub market: Option<Address>,
}

/// Whether the specified amount is what the caller pays in (`ExactIn`) or
/// what the caller wants out (`ExactOut`).
#[derive(Copy, Clone, Debug, PartialEq, Eq, Structural)]
pub enum SwapExecutionMode {
    ExactIn,
    ExactOut,
}

impl SwapExecutionMode {
    /// Whether this mode specifies the amount in terms of the input token.
    pub open spec fn amount_specified_is_input_spec(&self) -> bool {
        *self is ExactIn
    }

    /// Whether this mode specifies the amount in terms of the input token.
    pub fn amount_specified_is_input(&self) -> (r: bool)
        ensures
            r == self.amount_specified_is_input_spec(),
    {
        matches!(self, SwapExecutionMode::ExactIn)
    }
}

} // verus!
