//! The swap executor: configuration and quoting.
//!
//! Network I/O stays outside this crate: the caller resolves the pool,
//! fetches its accounts in one batched read, decodes them into a
//! [`ResolvedPool`], and hands the result in. Quoting itself is pure.

use vstd::prelude::*;

use crate::SwapError;
use crate::api_v3::ApiV3Client;
use crate::builder::{
    SwapInstructionsBuilder, SwapInstructionsBuilderView, TransactionShell, cu_limit_spec,
    final_sequence_spec, priority_fee_cb_append_spec, priority_fee_err_spec,
    priority_fee_ok_spec, tip_account_spec, wrap_cleanup_spec, wrap_setup_seq_spec,
};
use crate::instruction::{
    Instruction, InstructionView, amm_v4_program_id, amm_v4_program_spec,
    set_compute_unit_limit_ix_spec, swap_base_in, swap_base_in_ix_spec, swap_base_out,
    swap_base_out_ix_spec, token_program_id, token_program_spec, transfer_ix_spec,
};
use crate::address::Address;
use crate::ata::ata_address_spec;
use crate::math::{SwapDirection, swap_with_slippage};
use crate::quote::{RaydiumAmmQuote, ResolvedPool, effective_reserves, quote_spec};
use crate::types::{
    ComputeUnitLimits, PriorityFeeConfig, SwapConfig, SwapConfigOverrides, SwapInput,
    merged_cu_limits, merged_priority_fee, merged_wrap_and_unwrap_sol,
};

verus! {

/// A quoting and plan-building executor for one AMM program, carrying the
/// base swap configuration and the pool-listing client its callers use to
/// resolve pools.
#[derive(Clone, Debug)]
pub struct RaydiumAmm {
    /// The pool-listing API client callers resolve pools with.
    pub api: ApiV3Client,
    /// The base swap configuration; per-call overrides win over it.
    pub config: SwapConfig,
    /// Whether callers should resolve market keys through the listing API
    /// rather than from on-chain market accounts.
    pub get_market_keys_by_api: bool,
}

/// The options an executor is created from. Any field left `None` falls
/// back to the executor's defaults.
#[derive(Clone, Copy, Debug, PartialEq, Eq, Structural)]
pub struct RaydiumAmmExecutorOpts {
    pub priority_fee: Option<PriorityFeeConfig>,
    pub cu_limits: Option<ComputeUnitLimits>,
    pub wrap_and_unwrap_sol: Option<bool>,
    pub get_market_keys_by_api: Option<bool>,
}

impl Default for RaydiumAmmExecutorOpts {
    fn default() -> (r: Self)
        ensures
            r == (RaydiumAmmExecutorOpts {
                priority_fee: None,
                cu_limits: None,
                wrap_and_unwrap_sol: None,
                get_market_keys_by_api: None,
            }),
    {
        RaydiumAmmExecutorOpts {
            priority_fee: None,
            cu_limits: None,
            wrap_and_unwrap_sol: None,
            get_market_keys_by_api: None,
        }
    }
}

/// The resolved pool behind an optional reference, as quoting sees it.
pub open spec fn resolved_pool_spec(pool: Option<&ResolvedPool>) -> Option<ResolvedPool> {
    match pool {
        Some(p) => Some(*p),
        None => None,
    }
}

impl RaydiumAmm {
    /// An executor over the given options: the base configuration takes the
    /// options' fee and wrapping choices, transactions are built legacy, and
    /// market keys come through the listing API unless the options say
    /// otherwise.
    pub fn new(config: RaydiumAmmExecutorOpts, api: ApiV3Client) -> (r: Self)
        ensures
            r.config == (SwapConfig {
                priority_fee: config.priority_fee,
                cu_limits: config.cu_limits,
                wrap_and_unwrap_sol: config.wrap_and_unwrap_sol,
                as_legacy_transaction: Some(true),
            }),
            r.get_market_keys_by_api == (match config.get_market_keys_by_api {
                Some(g) => g,
                None => true,
            }),
            r.api.base_url_spec() == api.base_url_spec(),
    {
        let RaydiumAmmExecutorOpts {
            priority_fee,
            cu_limits,
            wrap_and_unwrap_sol,
            get_market_keys_by_api,
        } = config;
        RaydiumAmm {
            api,
            get_market_keys_by_api: match get_market_keys_by_api {
                Some(g) => g,
                None => true,
            },
            config: SwapConfig {
                priority_fee,
                cu_limits,
                wrap_and_unwrap_sol,
                as_legacy_transaction: Some(true),
            },
        }
    }

    /// Replaces the base swap configuration.
    pub fn update_config(&mut self, config: &SwapConfig)
        ensures
            final(self).config == *config,
            final(self).get_market_keys_by_api == old(self).get_market_keys_by_api,
            final(self).api.base_url_spec() == old(self).api.base_url_spec(),
    {
        self.config = *config;
    }

    /// Prices a swap request against a resolved pool: exactly the result of
    /// [`quote_spec`], for every request and every pool state. A request
    /// whose assets coincide is rejected before the pool is looked at.
    pub fn quote(&self, swap_input: &SwapInput, pool: Option<&ResolvedPool>) -> (r: Result<
        RaydiumAmmQuote,
        SwapError,
    >)
        ensures
            r == quote_spec(*swap_input, resolved_pool_spec(pool)),
    {
        if swap_input.input_token_mint == swap_input.output_token_mint {
            return Err(SwapError::InvalidRequest);
        }
        if swap_input.slippage_bps > 10000 {
            return Err(SwapError::InvalidRequest);
        }
        let pool: &ResolvedPool = match pool {
            Some(p) => p,
            None => {
                return Err(SwapError::PoolNotFound);
            },
        };
        let (total_pc, total_coin): (u64, u64) = effective_reserves(&pool.snapshot)?;
        let coin_to_pc: bool = swap_input.input_token_mint == pool.amm_keys.amm_coin_mint
            && swap_input.output_token_mint == pool.amm_keys.amm_pc_mint;
        let direction: SwapDirection = if coin_to_pc {
            SwapDirection::Coin2Pc
        } else {
            SwapDirection::Pc2Coin
        };
        let base_in: bool = swap_input.mode.amount_specified_is_input();
        let (other_amount, other_amount_threshold): (u64, u64) = swap_with_slippage(
            total_pc,
            total_coin,
            pool.snapshot.fee_numerator,
            pool.snapshot.fee_denominator,
            direction,
            swap_input.amount,
            base_in,
            swap_input.slippage_bps,
        )?;
        Ok(
            RaydiumAmmQuote {
                market: pool.snapshot.pool_id,
                input_mint: swap_input.input_token_mint,
                output_mint: swap_input.output_token_mint,
                amount: swap_input.amount,
                other_amount,
                other_amount_threshold,
                amount_specified_is_input: base_in,
                input_mint_decimals: if coin_to_pc {
                    pool.snapshot.coin_decimals
                } else {
                    pool.snapshot.pc_decimals
                },
                output_mint_decimals: if coin_to_pc {
                    pool.snapshot.pc_decimals
                } else {
                    pool.snapshot.coin_decimals
                },
                amm_keys: pool.amm_keys,
                market_keys: pool.market_keys,
            },
        )
    }
}

/// The pool a request resolves to: its explicit override when one is given,
/// else whatever pool discovery found.
pub open spec fn resolved_pool_id_spec(
    swap_input: SwapInput,
    discovered: Option<Address>,
) -> Option<Address> {
    if swap_input.market is Some {
        swap_input.market
    } else {
        discovered
    }
}

/// Resolves the pool identity for a request: the request's explicit pool
/// override is used verbatim; only a request without one falls back to the
/// result of pool discovery (see [`crate::api_v3::find_pool_id`]), so
/// discovery need not be queried at all when an override is present.
pub fn resolve_pool_id(swap_input: &SwapInput, discovered: Option<Address>) -> (r: Option<
    Address,
>)
    ensures
        r == resolved_pool_id_spec(*swap_input, discovered),
        (swap_input.market is Some ==> r == swap_input.market),
        (swap_input.market is None ==> r == discovered),
{
    match swap_input.market {
        Some(m) => Some(m),
        None => discovered,
    }
}

/// The overrides behind an optional reference, as the merge sees them.
pub open spec fn overrides_spec(overrides: Option<&SwapConfigOverrides>) -> Option<
    SwapConfigOverrides,
> {
    match overrides {
        Some(o) => Some(*o),
        None => None,
    }
}

/// The amount of input tokens the plan wraps: the specified amount when it
/// is the input, else the charged counter-amount.
pub open spec fn plan_input_amount_spec(output: RaydiumAmmQuote) -> u64 {
    if output.amount_specified_is_input {
        output.amount
    } else {
        output.other_amount
    }
}

/// The swap instruction a plan carries for a quote: fixing the input with
/// the threshold as minimum output, or fixing the output with the
/// threshold as maximum input, between the user's associated token
/// accounts.
pub open spec fn plan_swap_ix_spec(user: Address, output: RaydiumAmmQuote) -> InstructionView {
    let source = ata_address_spec(user, output.input_mint, token_program_spec());
    let destination = ata_address_spec(user, output.output_mint, token_program_spec());
    if output.amount_specified_is_input {
        swap_base_in_ix_spec(
            amm_v4_program_spec(),
            output.amm_keys,
            output.market_keys,
            source,
            destination,
            user,
            output.amount,
            output.other_amount_threshold,
        )
    } else {
        swap_base_out_ix_spec(
            amm_v4_program_spec(),
            output.amm_keys,
            output.market_keys,
            source,
            destination,
            user,
            output.other_amount_threshold,
            output.amount,
        )
    }
}

/// The plan a build produces, for given merged settings and the unit count
/// a simulation measured: the compute-budget list holds the chosen limit
/// and then any fee-price instruction; the setup list holds account
/// creation and wrapping and then any tip transfer to `tip_recipient`; the
/// swap instruction is set; cleanup unwinds any wrapping.
pub open spec fn make_swap_builder_spec(
    user: Address,
    output: RaydiumAmmQuote,
    priority_fee: Option<PriorityFeeConfig>,
    cu_limits: Option<ComputeUnitLimits>,
    wrap_and_unwrap_sol: bool,
    destination_token_account: Option<Address>,
    simulated_units: Option<u64>,
    tip_recipient: Option<Address>,
) -> SwapInstructionsBuilderView {
    let input_amount = plan_input_amount_spec(output);
    let setup_base = wrap_setup_seq_spec(
        user,
        wrap_and_unwrap_sol,
        input_amount,
        output.input_mint,
        output.output_mint,
        token_program_spec(),
        token_program_spec(),
        destination_token_account,
    );
    let tip_amount = match priority_fee {
        Some(PriorityFeeConfig::JitoTip(t)) => t,
        _ => 0u64,
    };
    let setup = match tip_recipient {
        Some(recipient) => setup_base.push(transfer_ix_spec(user, recipient, tip_amount)),
        None => setup_base,
    };
    let cu_l = cu_limit_spec(cu_limits, simulated_units);
    let cb = (match cu_l {
        Some(v) => seq![set_compute_unit_limit_ix_spec(v)],
        None => Seq::<InstructionView>::empty(),
    }) + priority_fee_cb_append_spec(priority_fee, cu_l);
    SwapInstructionsBuilderView {
        compute_budget_instructions: cb,
        setup_instructions: setup,
        swap_instruction: Some(plan_swap_ix_spec(user, output)),
        cleanup_instruction: wrap_cleanup_spec(
            user,
            wrap_and_unwrap_sol,
            output.input_mint,
            output.output_mint,
            token_program_spec(),
            token_program_spec(),
            destination_token_account,
            None,
        ),
        address_lookup_table_addresses: Seq::empty(),
    }
}

/// Whether a plan build succeeds: a fixed compute limit must fit 32 bits
/// and the priority-fee computation must go through.
pub open spec fn make_swap_ok_spec(
    priority_fee: Option<PriorityFeeConfig>,
    cu_limits: Option<ComputeUnitLimits>,
    simulated_units: Option<u64>,
) -> bool {
    &&& (cu_limits matches Some(ComputeUnitLimits::Fixed(f)) ==> f <= u32::MAX)
    &&& priority_fee_ok_spec(priority_fee, cu_limit_spec(cu_limits, simulated_units))
}

/// The error a failing plan build reports: the compute-limit failure first,
/// then the priority-fee failure.
pub open spec fn make_swap_err_spec(
    priority_fee: Option<PriorityFeeConfig>,
    cu_limits: Option<ComputeUnitLimits>,
    simulated_units: Option<u64>,
) -> SwapError {
    if !(match cu_limits {
        Some(ComputeUnitLimits::Fixed(f)) => f <= u32::MAX,
        _ => true,
    }) {
        SwapError::ArithmeticOverflow
    } else {
        priority_fee_err_spec(priority_fee, cu_limit_spec(cu_limits, simulated_units))
    }
}

/// Building a plan is deterministic apart from the randomly chosen tip
/// recipient: two plans built from the same quote, the same merged
/// settings and the same measured unit count are structurally identical,
/// and so are their finalized instruction sequences.
pub proof fn lemma_plan_idempotent(
    user: Address,
    output: RaydiumAmmQuote,
    priority_fee: Option<PriorityFeeConfig>,
    cu_limits: Option<ComputeUnitLimits>,
    wrap_and_unwrap_sol: bool,
    destination_token_account: Option<Address>,
    simulated_units: Option<u64>,
    b1: SwapInstructionsBuilderView,
    b2: SwapInstructionsBuilderView,
)
    requires
        !(priority_fee matches Some(PriorityFeeConfig::JitoTip(_))),
        b1 == make_swap_builder_spec(
            user,
            output,
            priority_fee,
            cu_limits,
            wrap_and_unwrap_sol,
            destination_token_account,
            simulated_units,
            None,
        ),
        b2 == make_swap_builder_spec(
            user,
            output,
            priority_fee,
            cu_limits,
            wrap_and_unwrap_sol,
            destination_token_account,
            simulated_units,
            None,
        ),
    ensures
        b1 == b2,
        final_sequence_spec(b1) == final_sequence_spec(b2),
{
}

impl RaydiumAmm {
    /// The draft plan for a quote: account setup, wrapping and the swap
    /// instruction, with no compute-budget or fee instructions yet. This is
    /// the partial plan a dry-run simulation measures.
    pub fn swap_draft(
        &self,
        input_pubkey: Address,
        output: &RaydiumAmmQuote,
        overrides: Option<&SwapConfigOverrides>,
    ) -> (r: SwapInstructionsBuilder)
        ensures
            r@ == make_swap_builder_spec(
                input_pubkey,
                *output,
                None,
                None,
                merged_wrap_and_unwrap_sol(self.config, overrides_spec(overrides)),
                crate::types::merged_destination(overrides_spec(overrides)),
                None,
                None,
            ),
    {
        let wrap_and_unwrap_sol: bool = match overrides {
            Some(o) => match o.wrap_and_unwrap_sol {
                Some(w) => w,
                None => match self.config.wrap_and_unwrap_sol {
                    Some(w) => w,
                    None => true,
                },
            },
            None => match self.config.wrap_and_unwrap_sol {
                Some(w) => w,
                None => true,
            },
        };
        let destination_token_account: Option<crate::address::Address> = match overrides {
            Some(o) => o.destination_token_account,
            None => None,
        };
        let input_amount: u64 = if output.amount_specified_is_input {
            output.amount
        } else {
            output.other_amount
        };
        let mut builder = SwapInstructionsBuilder::default();
        let atas = match builder.handle_token_wrapping_and_accounts_creation(
            input_pubkey,
            wrap_and_unwrap_sol,
            input_amount,
            output.input_mint,
            output.output_mint,
            token_program_id(),
            token_program_id(),
            destination_token_account,
        ) {
            Ok(a) => a,
            // Account setup states that it always succeeds.
            Err(_) => vstd::pervasive::unreached(),
        };
        let instruction: Instruction = if output.amount_specified_is_input {
            swap_base_in(
                &amm_v4_program_id(),
                &output.amm_keys,
                &output.market_keys,
                &atas.input_ata,
                &atas.output_ata,
                &input_pubkey,
                output.amount,
                output.other_amount_threshold,
            )
        } else {
            swap_base_out(
                &amm_v4_program_id(),
                &output.amm_keys,
                &output.market_keys,
                &atas.input_ata,
                &atas.output_ata,
                &input_pubkey,
                output.other_amount_threshold,
                output.amount,
            )
        };
        builder.swap_instruction = Some(instruction);
        proof {
            assert(builder@.setup_instructions =~= make_swap_builder_spec(
                input_pubkey,
                *output,
                None,
                None,
                merged_wrap_and_unwrap_sol(self.config, overrides_spec(overrides)),
                crate::types::merged_destination(overrides_spec(overrides)),
                None,
                None,
            ).setup_instructions);
            assert(builder@.compute_budget_instructions =~= make_swap_builder_spec(
                input_pubkey,
                *output,
                None,
                None,
                merged_wrap_and_unwrap_sol(self.config, overrides_spec(overrides)),
                crate::types::merged_destination(overrides_spec(overrides)),
                None,
                None,
            ).compute_budget_instructions);
            assert(builder@.address_lookup_table_addresses =~= Seq::<
                crate::address::Address,
            >::empty());
        }
        builder
    }

    /// The full plan for a quote: the draft, then the compute-budget limit
    /// chosen from the merged intent and the simulated unit count, then the
    /// priority-fee instruction or tip. Deterministic apart from the tip
    /// recipient.
    pub fn make_swap(
        &self,
        input_pubkey: Address,
        output: &RaydiumAmmQuote,
        overrides: Option<&SwapConfigOverrides>,
        simulated_units: Option<u64>,
    ) -> (r: Result<SwapInstructionsBuilder, SwapError>)
        ensures
            ({
                let pf = merged_priority_fee(self.config, overrides_spec(overrides));
                let cul = merged_cu_limits(self.config, overrides_spec(overrides));
                let wrap = merged_wrap_and_unwrap_sol(self.config, overrides_spec(overrides));
                let dest = crate::types::merged_destination(overrides_spec(overrides));
                &&& (r is Ok <==> make_swap_ok_spec(pf, cul, simulated_units))
                &&& (r is Err ==> r == Err::<SwapInstructionsBuilder, SwapError>(
                    make_swap_err_spec(pf, cul, simulated_units),
                ))
                &&& (r is Ok && !(pf matches Some(PriorityFeeConfig::JitoTip(_)))
                    ==> r->Ok_0@ == make_swap_builder_spec(
                    input_pubkey,
                    *output,
                    pf,
                    cul,
                    wrap,
                    dest,
                    simulated_units,
                    None,
                ))
                &&& (r is Ok && (pf matches Some(PriorityFeeConfig::JitoTip(_)))
                    ==> exists|i: int|
                    0 <= i < 8 && r->Ok_0@ == make_swap_builder_spec(
                        input_pubkey,
                        *output,
                        pf,
                        cul,
                        wrap,
                        dest,
                        simulated_units,
                        Some(tip_account_spec(i)),
                    ))
            }),
    {
        let priority_fee: Option<PriorityFeeConfig> = match overrides {
            Some(o) => match o.priority_fee {
                Some(p) => Some(p),
                None => self.config.priority_fee,
            },
            None => self.config.priority_fee,
        };
        let cu_limits: Option<ComputeUnitLimits> = match overrides {
            Some(o) => match o.cu_limits {
                Some(c) => Some(c),
                None => self.config.cu_limits,
            },
            None => self.config.cu_limits,
        };
        let mut builder = self.swap_draft(input_pubkey, output, overrides);
        let compute_units: Option<u32> = builder.handle_compute_units_params(
            cu_limits,
            simulated_units,
        )?;
        builder.handle_priority_fee_params(priority_fee, compute_units, input_pubkey)?;
        Ok(builder)
    }

    /// The finalized instruction sequence for a quote: compute-budget
    /// instructions, setup, the swap, and any cleanup, in that order.
    pub fn swap_instructions(
        &self,
        input_pubkey: Address,
        output: &RaydiumAmmQuote,
        overrides: Option<&SwapConfigOverrides>,
        simulated_units: Option<u64>,
    ) -> (r: Result<Vec<Instruction>, SwapError>)
        ensures
            ({
                let pf = merged_priority_fee(self.config, overrides_spec(overrides));
                let cul = merged_cu_limits(self.config, overrides_spec(overrides));
                let wrap = merged_wrap_and_unwrap_sol(self.config, overrides_spec(overrides));
                let dest = crate::types::merged_destination(overrides_spec(overrides));
                &&& (r is Ok <==> make_swap_ok_spec(pf, cul, simulated_units))
                &&& (r is Err ==> r == Err::<Vec<Instruction>, SwapError>(
                    make_swap_err_spec(pf, cul, simulated_units),
                ))
                &&& (r is Ok && !(pf matches Some(PriorityFeeConfig::JitoTip(_)))
                    ==> r->Ok_0.deep_view() == final_sequence_spec(
                    make_swap_builder_spec(
                        input_pubkey,
                        *output,
                        pf,
                        cul,
                        wrap,
                        dest,
                        simulated_units,
                        None,
                    ),
                ))
                &&& (r is Ok && (pf matches Some(PriorityFeeConfig::JitoTip(_)))
                    ==> exists|i: int|
                    0 <= i < 8 && r->Ok_0.deep_view() == final_sequence_spec(
                        make_swap_builder_spec(
                            input_pubkey,
                            *output,
                            pf,
                            cul,
                            wrap,
                            dest,
                            simulated_units,
                            Some(tip_account_spec(i)),
                        ),
                    ))
            }),
    {
        let builder = self.make_swap(input_pubkey, output, overrides, simulated_units)?;
        match builder.build_instructions() {
            Ok(v) => Ok(v),
            // The plan always carries a swap instruction.
            Err(_) => vstd::pervasive::unreached(),
        }
    }

    /// The signable transaction shell for a quote: the finalized sequence
    /// with the user as fee payer and the block reference left for the
    /// caller to fill before signing.
    pub fn swap_transaction(
        &self,
        input_pubkey: Address,
        output: &RaydiumAmmQuote,
        overrides: Option<&SwapConfigOverrides>,
        simulated_units: Option<u64>,
    ) -> (r: Result<TransactionShell, SwapError>)
        ensures
            ({
                let pf = merged_priority_fee(self.config, overrides_spec(overrides));
                let cul = merged_cu_limits(self.config, overrides_spec(overrides));
                let wrap = merged_wrap_and_unwrap_sol(self.config, overrides_spec(overrides));
                let dest = crate::types::merged_destination(overrides_spec(overrides));
                &&& (r is Ok <==> make_swap_ok_spec(pf, cul, simulated_units))
                &&& (r is Err ==> r == Err::<TransactionShell, SwapError>(
                    make_swap_err_spec(pf, cul, simulated_units),
                ))
                &&& (r matches Ok(t) ==> t@.fee_payer == Some(input_pubkey)
                    && t@.recent_blockhash is None)
                &&& (r is Ok && !(pf matches Some(PriorityFeeConfig::JitoTip(_)))
                    ==> r->Ok_0@.instructions == final_sequence_spec(
                    make_swap_builder_spec(
                        input_pubkey,
                        *output,
                        pf,
                        cul,
                        wrap,
                        dest,
                        simulated_units,
                        None,
                    ),
                ))
                &&& (r is Ok && (pf matches Some(PriorityFeeConfig::JitoTip(_)))
                    ==> exists|i: int|
                    0 <= i < 8 && r->Ok_0@.instructions == final_sequence_spec(
                        make_swap_builder_spec(
                            input_pubkey,
                            *output,
                            pf,
                            cul,
                            wrap,
                            dest,
                            simulated_units,
                            Some(tip_account_spec(i)),
                        ),
                    ))
            }),
    {
        let builder = self.make_swap(input_pubkey, output, overrides, simulated_units)?;
        match builder.build_transaction(Some(&input_pubkey), None) {
            Ok(t) => Ok(t),
            // The plan always carries a swap instruction.
            Err(_) => vstd::pervasive::unreached(),
        }
    }
}

} // verus!
