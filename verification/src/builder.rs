//! The instruction plan builder.
//!
//! A plan accumulates compute-budget instructions, setup instructions
//! (account creation and native-asset wrapping), the single swap
//! instruction, and an optional cleanup instruction, and finalizes them in
//! exactly that order: budget instructions configure execution limits for
//! everything after them, and cleanup must run last so it observes
//! post-swap balances.

use vstd::prelude::*;

use crate::SwapError;
use crate::address::Address;
use crate::ata::ata_address_spec;
use crate::instruction::{
    Instruction, InstructionView, close_account, close_account_ix_spec,
    create_associated_token_account_idempotent, create_ata_idempotent_ix_spec, native_mint,
    native_mint_spec, set_compute_unit_limit, set_compute_unit_limit_ix_spec,
    set_compute_unit_price, set_compute_unit_price_ix_spec, sync_native, sync_native_ix_spec,
    token_program_id, token_program_spec, transfer, transfer_ix_spec,
};
use crate::math::ceil_div_spec;
use crate::types::{ComputeUnitLimits, PriorityFeeConfig};

verus! {

/// The compute-unit count assumed when none was set or measured.
pub const DEFAULT_INSTRUCTION_COMPUTE_UNIT: u32 = 200_000;

/// Micro-lamports in one lamport.
pub const MICRO_LAMPORTS_PER_LAMPORT: u64 = 1_000_000;

/// The safety margin added to a simulated compute-unit count, absorbing
/// estimation variance between simulation and execution.
pub const COMPUTE_UNIT_MARGIN: u32 = 50_000;

/// The lamports of target priority fee that one step of the fee multiplier
/// stands for.
pub const PRIORITY_FEE_BASE_LAMPORTS: u64 = 100_000;

/// The mathematical view of a plan under construction.
pub struct SwapInstructionsBuilderView {
    pub compute_budget_instructions: Seq<InstructionView>,
    pub setup_instructions: Seq<InstructionView>,
    pub swap_instruction: Option<InstructionView>,
    pub cleanup_instruction: Option<InstructionView>,
    pub address_lookup_table_addresses: Seq<Address>,
}

/// A plan under construction. Owned by one build; finalized exactly once by
/// [`SwapInstructionsBuilder::build_instructions`] or
/// [`SwapInstructionsBuilder::build_transaction`].
#[derive(Clone, Debug)]
pub struct SwapInstructionsBuilder {
    pub compute_budget_instructions: Vec<Instruction>,
    pub setup_instructions: Vec<Instruction>,
    pub swap_instruction: Option<Instruction>,
    pub cleanup_instruction: Option<Instruction>,
    pub address_lookup_table_addresses: Vec<Address>,
}

impl View for SwapInstructionsBuilder {
    type V = SwapInstructionsBuilderView;

    open spec fn view(&self) -> SwapInstructionsBuilderView {
        SwapInstructionsBuilderView {
            compute_budget_instructions: self.compute_budget_instructions.deep_view(),
            setup_instructions: self.setup_instructions.deep_view(),
            swap_instruction: self.swap_instruction.deep_view(),
            cleanup_instruction: self.cleanup_instruction.deep_view(),
            address_lookup_table_addresses: self.address_lookup_table_addresses@,
        }
    }
}

/// An empty plan.
pub open spec fn empty_builder_spec() -> SwapInstructionsBuilderView {
    SwapInstructionsBuilderView {
        compute_budget_instructions: Seq::empty(),
        setup_instructions: Seq::empty(),
        swap_instruction: None,
        cleanup_instruction: None,
        address_lookup_table_addresses: Seq::empty(),
    }
}

impl Default for SwapInstructionsBuilder {
    fn default() -> (r: Self)
        ensures
            r@ == empty_builder_spec(),
    {
        let r = SwapInstructionsBuilder {
            compute_budget_instructions: Vec::new(),
            setup_instructions: Vec::new(),
            swap_instruction: None,
            cleanup_instruction: None,
            address_lookup_table_addresses: Vec::new(),
        };
        proof {
            assert(r@.compute_budget_instructions =~= empty_builder_spec().compute_budget_instructions);
            assert(r@.setup_instructions =~= empty_builder_spec().setup_instructions);
            assert(r@.address_lookup_table_addresses
                =~= empty_builder_spec().address_lookup_table_addresses);
        }
        r
    }
}

/// The user's associated token accounts on both legs of a swap.
#[derive(Copy, Clone, Debug, PartialEq, Eq, Structural)]
pub struct UserAssociatedTokenAccounts {
    pub input_ata: Address,
    pub output_ata: Address,
}

/// The setup instructions that account creation and native-asset wrapping
/// append, in order: when the input is the native mint and wrapping is
/// enabled, an idempotent create of its wrapped account, a native transfer
/// of the input amount and a balance sync — with wrapping disabled the
/// input leg emits nothing; then, when no explicit destination account is
/// given, an idempotent create of the output account.
pub open spec fn wrap_setup_seq_spec(
    user: Address,
    wrap_and_unwrap_sol: bool,
    input_amount: u64,
    input_mint: Address,
    output_mint: Address,
    input_token_program: Address,
    output_token_program: Address,
    destination_token_account: Option<Address>,
) -> Seq<InstructionView> {
    let input_ata = ata_address_spec(user, input_mint, input_token_program);
    let native_part = if input_mint == native_mint_spec() && wrap_and_unwrap_sol {
        seq![
            create_ata_idempotent_ix_spec(user, user, input_mint, token_program_spec()),
            transfer_ix_spec(user, input_ata, input_amount),
            sync_native_ix_spec(input_ata),
        ]
    } else {
        Seq::empty()
    };
    let dest_part = if destination_token_account is None {
        seq![create_ata_idempotent_ix_spec(user, user, output_mint, output_token_program)]
    } else {
        Seq::empty()
    };
    native_part + dest_part
}

/// The cleanup instruction left after account setup: closing the wrapped
/// native account of whichever leg used one, reclaiming its rent. The
/// output leg's close wins where both legs set one.
pub open spec fn wrap_cleanup_spec(
    user: Address,
    wrap_and_unwrap_sol: bool,
    input_mint: Address,
    output_mint: Address,
    input_token_program: Address,
    output_token_program: Address,
    destination_token_account: Option<Address>,
    old_cleanup: Option<InstructionView>,
) -> Option<InstructionView> {
    let after_input = if input_mint == native_mint_spec() && wrap_and_unwrap_sol {
        Some(
            close_account_ix_spec(
                ata_address_spec(user, input_mint, input_token_program),
                user,
                user,
            ),
        )
    } else {
        old_cleanup
    };
    if destination_token_account is None && wrap_and_unwrap_sol && output_mint
        == native_mint_spec() {
        Some(
            close_account_ix_spec(
                ata_address_spec(user, output_mint, output_token_program),
                user,
                user,
            ),
        )
    } else {
        after_input
    }
}

/// The compute-unit limit chosen for a plan: a fixed intent gives its own
/// count, a dynamic intent gives the simulated count plus the safety
/// margin — or no limit at all when the simulation reported nothing or the
/// sum leaves the 32-bit range. No intent gives no limit.
pub open spec fn cu_limit_spec(
    compute_limits: Option<ComputeUnitLimits>,
    simulated_units: Option<u64>,
) -> Option<u32> {
    match compute_limits {
        None => None,
        Some(ComputeUnitLimits::Dynamic) => match simulated_units {
            None => None,
            Some(u) => if u + COMPUTE_UNIT_MARGIN <= u32::MAX {
                Some((u + COMPUTE_UNIT_MARGIN) as u32)
            } else {
                None
            },
        },
        Some(ComputeUnitLimits::Fixed(f)) => Some(f as u32),
    }
}

/// The per-compute-unit price, in micro-lamports, that guarantees a total
/// priority fee of at least `priority_fee` lamports over `compute_units`
/// units, saturated to the 64-bit range: the exact price is
/// `ceil(priority_fee * 1_000_000 / compute_units)`, matching the network's
/// rule of rounding the charged fee down from price times limit.
pub open spec fn cu_price_spec(priority_fee: int, compute_units: int) -> int
    recommends
        priority_fee >= 0,
        compute_units > 0,
{
    let exact = ceil_div_spec(priority_fee * (MICRO_LAMPORTS_PER_LAMPORT as int), compute_units);
    if exact > u64::MAX {
        u64::MAX as int
    } else {
        exact
    }
}

/// The priority-fee instructions appended to the compute-budget list: a
/// fixed-price intent emits its own price, a multiplier intent emits the
/// derived price, and a tip or absent intent emits nothing here.
pub open spec fn priority_fee_cb_append_spec(
    priority_fee_config: Option<PriorityFeeConfig>,
    compute_units: Option<u32>,
) -> Seq<InstructionView> {
    match priority_fee_config {
        Some(PriorityFeeConfig::FixedCuPrice(p)) => seq![set_compute_unit_price_ix_spec(p)],
        Some(PriorityFeeConfig::DynamicMultiplier(m)) => seq![
            set_compute_unit_price_ix_spec(
                cu_price_spec(
                    m * PRIORITY_FEE_BASE_LAMPORTS,
                    effective_cu_spec(compute_units) as int,
                ) as u64,
            ),
        ],
        _ => Seq::empty(),
    }
}

/// The compute-unit count the fee computation works with: the given one, or
/// the protocol default when none was set or measured.
pub open spec fn effective_cu_spec(compute_units: Option<u32>) -> u32 {
    match compute_units {
        Some(c) => c,
        None => DEFAULT_INSTRUCTION_COMPUTE_UNIT,
    }
}

/// Whether the priority-fee computation succeeds: a multiplier intent needs
/// its target fee to fit 64 bits and a nonzero compute-unit count to spread
/// it over.
pub open spec fn priority_fee_ok_spec(
    priority_fee_config: Option<PriorityFeeConfig>,
    compute_units: Option<u32>,
) -> bool {
    match priority_fee_config {
        Some(PriorityFeeConfig::DynamicMultiplier(m)) => m * PRIORITY_FEE_BASE_LAMPORTS
            <= u64::MAX && effective_cu_spec(compute_units) > 0,
        _ => true,
    }
}

/// The error a failing priority-fee computation reports.
pub open spec fn priority_fee_err_spec(
    priority_fee_config: Option<PriorityFeeConfig>,
    compute_units: Option<u32>,
) -> SwapError {
    match priority_fee_config {
        Some(PriorityFeeConfig::DynamicMultiplier(m)) => if m * PRIORITY_FEE_BASE_LAMPORTS
            > u64::MAX {
            SwapError::ArithmeticOverflow
        } else {
            SwapError::DivideByZero
        },
        _ => SwapError::ArithmeticOverflow,
    }
}

/// The eight accounts a tip transfer may go to.
pub open spec fn tip_account_spec(i: int) -> Address
    recommends
        0 <= i < 8,
{
    if i == 0 {
        // 96gYZGLnJYVFmbjzopPSU6QiEV5fGqZNyN9nmNhvrZU5
        Address {
            w0: 0x85bbce79b11c5278,
            w1: 0xd294ecd5a256b589,
            w2: 0xf52abbf9fd828649,
            w3: 0xda5341cc91e464ad,
        }
    } else if i == 1 {
        // HFqU5x63VTqvQss8hp11i4wVV8bD44PvwucfZ2bU7gRe
        Address {
            w0: 0xcb45f7d187ec87f1,
            w1: 0xda9ea6264a38033a,
            w2: 0x24e4410faad1a20c,
            w3: 0x315d5bff917e3716,
        }
    } else if i == 2 {
        // Cw8CFyM9FkoMi7K7Crf6HNQqf4uEMzpKw6QNghXLvLkY
        Address {
            w0: 0x86ba9f5ee50d4eb1,
            w1: 0xc9f8cf48d5bf6e39,
            w2: 0x9baa5bb7c7ea1120,
            w3: 0x4171a1f5866a9c2d,
        }
    } else if i == 3 {
        // ADaUMid9yfUytqMBgopwjb2DTLSokTSzL1zt6iGPaS49
        Address {
            w0: 0x17e6dfa2a3fff188,
            w1: 0x22a3513257e3c4bd,
            w2: 0x3957a4e581aefce3,
            w3: 0xe265a4001c75640e,
        }
    } else if i == 4 {
        // DfXygSm4jCyNCybVYYK6DwvWqjKee8pbDmJGcLWNDXjh
        Address {
            w0: 0x66ddf15e06572bbc,
            w1: 0x6c59a66b60be3054,
            w2: 0x5a8befad1b309502,
            w3: 0x7412f450410141fc,
        }
    } else if i == 5 {
        // ADuUkR4vqLUMWXxW9gh6D6L8pMSawimctcNZ5pGwDcEt
        Address {
            w0: 0x3013bba5557d0789,
            w1: 0x77c05ef567b73e76,
            w2: 0xd7e17d5f070d1ab4,
            w3: 0x7154d5633ccaba3f,
        }
    } else if i == 6 {
        // DttWaMuVvTiduZRnguLF7jNxTgiMBZ1hyAumKUiL2KRL
        Address {
            w0: 0x855b8b10591b97bf,
            w1: 0x4e1be2f193b04fa0,
            w2: 0x09dd87f4c8c4d43f,
            w3: 0xc3d80d9f765257b9,
        }
    } else {
        // 3AVi9Tg9Uo68tJfuvoKvqKNWKkC5wPdSSdeBnizKZ6jT
        Address {
            w0: 0x962803c21e102620,
            w1: 0x05546c13abab324a,
            w2: 0x4cf6e48ee33a1fb9,
            w3: 0xd23868b879e8bdb6,
        }
    }
}

/// The tip account at the given position in the fixed set.
pub fn tip_account(i: usize) -> (r: Address)
    requires
        i < 8,
    ensures
        r == tip_account_spec(i as int),
{
    if i == 0 {
        Address {
            w0: 0x85bbce79b11c5278,
            w1: 0xd294ecd5a256b589,
            w2: 0xf52abbf9fd828649,
            w3: 0xda5341cc91e464ad,
        }
    } else if i == 1 {
        Address {
            w0: 0xcb45f7d187ec87f1,
            w1: 0xda9ea6264a38033a,
            w2: 0x24e4410faad1a20c,
            w3: 0x315d5bff917e3716,
        }
    } else if i == 2 {
        Address {
            w0: 0x86ba9f5ee50d4eb1,
            w1: 0xc9f8cf48d5bf6e39,
            w2: 0x9baa5bb7c7ea1120,
            w3: 0x4171a1f5866a9c2d,
        }
    } else if i == 3 {
        Address {
            w0: 0x17e6dfa2a3fff188,
            w1: 0x22a3513257e3c4bd,
            w2: 0x3957a4e581aefce3,
            w3: 0xe265a4001c75640e,
        }
    } else if i == 4 {
        Address {
            w0: 0x66ddf15e06572bbc,
            w1: 0x6c59a66b60be3054,
            w2: 0x5a8befad1b309502,
            w3: 0x7412f450410141fc,
        }
    } else if i == 5 {
        Address {
            w0: 0x3013bba5557d0789,
            w1: 0x77c05ef567b73e76,
            w2: 0xd7e17d5f070d1ab4,
            w3: 0x7154d5633ccaba3f,
        }
    } else if i == 6 {
        Address {
            w0: 0x855b8b10591b97bf,
            w1: 0x4e1be2f193b04fa0,
            w2: 0x09dd87f4c8c4d43f,
            w3: 0xc3d80d9f765257b9,
        }
    } else {
        Address {
            w0: 0x962803c21e102620,
            w1: 0x05546c13abab324a,
            w2: 0x4cf6e48ee33a1fb9,
            w3: 0xd23868b879e8bdb6,
        }
    }
}

/// Relies on `rand::random_range`: a value drawn from the half-open range
/// `0..n` lies below `n`; the call panics only on an empty range, which the
/// precondition rules out. Nothing is assumed about which value comes back.
#[verifier::external_body]
fn random_index(n: usize) -> (r: usize)
    requires
        n > 0,
    ensures
        r < n,
{
    rand::random_range(0..n)
}

/// A direct tip transfer from `from` to one of the fixed tip accounts,
/// chosen at random; any member of the set is a correct recipient.
pub fn build_jito_tip_ix(from: &Address, tip: u64) -> (r: Instruction)
    ensures
        exists|i: int| 0 <= i < 8 && r@ == transfer_ix_spec(*from, tip_account_spec(i), tip),
{
    let idx = random_index(8);
    let recipient = tip_account(idx);
    let r = transfer(from, &recipient, tip);
    proof {
        assert(0 <= (idx as int) && (idx as int) < 8 && r@ == transfer_ix_spec(
            *from,
            tip_account_spec(idx as int),
            tip,
        ));
    }
    r
}

/// The per-compute-unit price, in micro-lamports, whose total charge over
/// `compute_units` units meets or exceeds `priority_fee` lamports. The
/// network rounds the charged fee down from price times limit, so the price
/// is rounded up; a price beyond the 64-bit range saturates.
pub fn calculate_cu_price(priority_fee: u64, compute_units: u32) -> (r: u64)
    requires
        compute_units > 0,
    ensures
        r == cu_price_spec(priority_fee as int, compute_units as int),
{
    proof {
        crate::math::lemma_mul_u64_fits_u128(
            priority_fee as int,
            MICRO_LAMPORTS_PER_LAMPORT as int,
        );
    }
    let micro: u128 = priority_fee as u128 * MICRO_LAMPORTS_PER_LAMPORT as u128;
    let price: u128 = crate::math::ceil_div_u128(micro, compute_units as u128);
    if price > u64::MAX as u128 {
        u64::MAX
    } else {
        price as u64
    }
}

impl SwapInstructionsBuilder {
    /// Appends the account-existence and native-wrapping setup for a swap,
    /// records the matching cleanup, and returns the user's associated
    /// token accounts on both legs. Only the setup list and the cleanup
    /// slot change.
    #[allow(clippy::too_many_arguments)]
    pub fn handle_token_wrapping_and_accounts_creation(
        &mut self,
        user: Address,
        wrap_and_unwrap_sol: bool,
        input_amount: u64,
        input_mint: Address,
        output_mint: Address,
        input_token_program: Address,
        output_token_program: Address,
        destination_token_account: Option<Address>,
    ) -> (r: Result<UserAssociatedTokenAccounts, SwapError>)
        ensures
            r == Ok::<UserAssociatedTokenAccounts, SwapError>(
                UserAssociatedTokenAccounts {
                    input_ata: ata_address_spec(user, input_mint, input_token_program),
                    output_ata: ata_address_spec(user, output_mint, output_token_program),
                },
            ),
            final(self)@.setup_instructions == old(self)@.setup_instructions
                + wrap_setup_seq_spec(
                user,
                wrap_and_unwrap_sol,
                input_amount,
                input_mint,
                output_mint,
                input_token_program,
                output_token_program,
                destination_token_account,
            ),
            final(self)@.cleanup_instruction == wrap_cleanup_spec(
                user,
                wrap_and_unwrap_sol,
                input_mint,
                output_mint,
                input_token_program,
                output_token_program,
                destination_token_account,
                old(self)@.cleanup_instruction,
            ),
            final(self)@.compute_budget_instructions == old(self)@.compute_budget_instructions,
            final(self)@.swap_instruction == old(self)@.swap_instruction,
            final(self)@.address_lookup_table_addresses == old(
                self,
            )@.address_lookup_table_addresses,
    {
        let user_input_ata = crate::ata::associated_token_address_with_program_id(
            &user,
            &input_mint,
            &input_token_program,
        );
        let user_output_ata = crate::ata::associated_token_address_with_program_id(
            &user,
            &output_mint,
            &output_token_program,
        );
        if input_mint == native_mint() && wrap_and_unwrap_sol {
            // The input leg needs work only when it is the native mint and
            // the caller asked for wrapping: create the wrapped account,
            // fund it, sync its balance, and close it again afterwards.
            let create_ata_ix = create_associated_token_account_idempotent(
                &user,
                &user,
                &input_mint,
                &token_program_id(),
            );
            self.setup_instructions.push(create_ata_ix);
            let transfer_ix = transfer(&user, &user_input_ata, input_amount);
            self.setup_instructions.push(transfer_ix);
            let sync_ix = sync_native(&user_input_ata);
            self.setup_instructions.push(sync_ix);
            let close_ix = close_account(&user_input_ata, &user, &user);
            self.cleanup_instruction = Some(close_ix);
        }
        if destination_token_account.is_none() {
            // Only create an output account when no destination was given;
            // a given destination is assumed to exist already.
            let create_ata_ix = create_associated_token_account_idempotent(
                &user,
                &user,
                &output_mint,
                &output_token_program,
            );
            self.setup_instructions.push(create_ata_ix);
            if wrap_and_unwrap_sol && output_mint == native_mint() {
                let close_ix = close_account(&user_output_ata, &user, &user);
                self.cleanup_instruction = Some(close_ix);
            }
        }
        proof {
            assert(self@.setup_instructions =~= old(self)@.setup_instructions
                + wrap_setup_seq_spec(
                user,
                wrap_and_unwrap_sol,
                input_amount,
                input_mint,
                output_mint,
                input_token_program,
                output_token_program,
                destination_token_account,
            ));
        }
        Ok(
            UserAssociatedTokenAccounts {
                input_ata: user_input_ata,
                output_ata: user_output_ata,
            },
        )
    }

    /// Applies the priority-fee intent: a fixed price or a derived price
    /// joins the compute-budget list, a tip transfer joins the setup list,
    /// and no intent changes nothing.
    pub fn handle_priority_fee_params(
        &mut self,
        priority_fee_config: Option<PriorityFeeConfig>,
        compute_units: Option<u32>,
        funder: Address,
    ) -> (r: Result<(), SwapError>)
        ensures
            r is Ok <==> priority_fee_ok_spec(priority_fee_config, compute_units),
            (r is Err ==> r == Err::<(), SwapError>(
                priority_fee_err_spec(priority_fee_config, compute_units),
            ) && *final(self) == *old(self)),
            (r is Ok ==> final(self)@.compute_budget_instructions == old(
                self,
            )@.compute_budget_instructions + priority_fee_cb_append_spec(
                priority_fee_config,
                compute_units,
            )),
            (r is Ok && !(priority_fee_config matches Some(PriorityFeeConfig::JitoTip(_)))
                ==> final(self)@.setup_instructions == old(self)@.setup_instructions),
            (priority_fee_config matches Some(PriorityFeeConfig::JitoTip(t)) ==> r is Ok
                && exists|i: int|
                0 <= i < 8 && final(self)@.setup_instructions == old(
                    self,
                )@.setup_instructions.push(transfer_ix_spec(funder, tip_account_spec(i), t))),
            final(self)@.swap_instruction == old(self)@.swap_instruction,
            final(self)@.cleanup_instruction == old(self)@.cleanup_instruction,
            final(self)@.address_lookup_table_addresses == old(
                self,
            )@.address_lookup_table_addresses,
    {
        let cu: u32 = match compute_units {
            Some(c) => c,
            None => DEFAULT_INSTRUCTION_COMPUTE_UNIT,
        };
        match priority_fee_config {
            Some(PriorityFeeConfig::FixedCuPrice(cu_price)) => {
                let compute_ix = set_compute_unit_price(cu_price);
                self.compute_budget_instructions.push(compute_ix);
                proof {
                    assert(self@.compute_budget_instructions =~= old(
                        self,
                    )@.compute_budget_instructions + priority_fee_cb_append_spec(
                        priority_fee_config,
                        compute_units,
                    ));
                }
                Ok(())
            },
            Some(PriorityFeeConfig::DynamicMultiplier(multiplier)) => {
                let priofee: u64 = match multiplier.checked_mul(PRIORITY_FEE_BASE_LAMPORTS) {
                    Some(p) => p,
                    None => {
                        return Err(SwapError::ArithmeticOverflow);
                    },
                };
                if cu == 0 {
                    return Err(SwapError::DivideByZero);
                }
                let cu_price = calculate_cu_price(priofee, cu);
                let compute_ix = set_compute_unit_price(cu_price);
                self.compute_budget_instructions.push(compute_ix);
                proof {
                    assert(self@.compute_budget_instructions =~= old(
                        self,
                    )@.compute_budget_instructions + priority_fee_cb_append_spec(
                        priority_fee_config,
                        compute_units,
                    ));
                }
                Ok(())
            },
            Some(PriorityFeeConfig::JitoTip(jito_tip)) => {
                let tip_ix = build_jito_tip_ix(&funder, jito_tip);
                self.setup_instructions.push(tip_ix);
                proof {
                    assert(self@.compute_budget_instructions =~= old(
                        self,
                    )@.compute_budget_instructions + priority_fee_cb_append_spec(
                        priority_fee_config,
                        compute_units,
                    ));
                }
                Ok(())
            },
            None => {
                proof {
                    assert(self@.compute_budget_instructions =~= old(
                        self,
                    )@.compute_budget_instructions + priority_fee_cb_append_spec(
                        priority_fee_config,
                        compute_units,
                    ));
                }
                Ok(())
            },
        }
    }

    /// Applies the compute-limit intent, given the unit count a dry-run
    /// simulation measured (if one ran and reported any): appends one
    /// compute-unit limit instruction when a limit was chosen, none when
    /// the intent or the measurement yields no limit — a missing
    /// measurement degrades the plan, it does not fail it.
    pub fn handle_compute_units_params(
        &mut self,
        compute_limits: Option<ComputeUnitLimits>,
        simulated_units: Option<u64>,
    ) -> (r: Result<Option<u32>, SwapError>)
        ensures
            r is Ok <==> (match compute_limits {
                Some(ComputeUnitLimits::Fixed(f)) => f <= u32::MAX,
                _ => true,
            }),
            (r is Err ==> r == Err::<Option<u32>, SwapError>(SwapError::ArithmeticOverflow)
                && *final(self) == *old(self)),
            (r matches Ok(l) ==> l == cu_limit_spec(compute_limits, simulated_units)
                && final(self)@.compute_budget_instructions == old(
                self,
            )@.compute_budget_instructions + (match l {
                Some(v) => seq![set_compute_unit_limit_ix_spec(v)],
                None => Seq::<InstructionView>::empty(),
            })),
            final(self)@.setup_instructions == old(self)@.setup_instructions,
            final(self)@.swap_instruction == old(self)@.swap_instruction,
            final(self)@.cleanup_instruction == old(self)@.cleanup_instruction,
            final(self)@.address_lookup_table_addresses == old(
                self,
            )@.address_lookup_table_addresses,
    {
        let cu_limit: Option<u32> = match compute_limits {
            None => None,
            Some(ComputeUnitLimits::Dynamic) => {
                match simulated_units {
                    None => None,
                    Some(units) => {
                        if units <= (u32::MAX - COMPUTE_UNIT_MARGIN) as u64 {
                            Some(units as u32 + COMPUTE_UNIT_MARGIN)
                        } else {
                            None
                        }
                    },
                }
            },
            Some(ComputeUnitLimits::Fixed(fixed)) => {
                if fixed > u32::MAX as u64 {
                    return Err(SwapError::ArithmeticOverflow);
                }
                Some(fixed as u32)
            },
        };
        if let Some(limit) = cu_limit {
            let limit_ix = set_compute_unit_limit(limit);
            self.compute_budget_instructions.push(limit_ix);
            proof {
                assert(self@.compute_budget_instructions =~= old(
                    self,
                )@.compute_budget_instructions + seq![set_compute_unit_limit_ix_spec(limit)]);
            }
        } else {
            proof {
                assert(self@.compute_budget_instructions =~= old(
                    self,
                )@.compute_budget_instructions + Seq::<InstructionView>::empty());
            }
        }
        Ok(cu_limit)
    }
}

/// The final instruction order of a plan: compute-budget instructions,
/// then setup, then the swap, then cleanup. A protocol requirement, not a
/// style choice.
pub open spec fn final_sequence_spec(b: SwapInstructionsBuilderView) -> Seq<InstructionView> {
    b.compute_budget_instructions + b.setup_instructions + (match b.swap_instruction {
        Some(s) => seq![s],
        None => Seq::<InstructionView>::empty(),
    }) + (match b.cleanup_instruction {
        Some(c) => seq![c],
        None => Seq::<InstructionView>::empty(),
    })
}

/// A signable transaction shell: the final instruction sequence, the
/// designated fee payer, and a block reference to be filled by the caller
/// before signing.
#[derive(Clone, Debug)]
pub struct TransactionShell {
    pub fee_payer: Option<Address>,
    pub recent_blockhash: Option<Vec<u8>>,
    pub instructions: Vec<Instruction>,
}

/// The mathematical view of a transaction shell.
pub struct TransactionShellView {
    pub fee_payer: Option<Address>,
    pub recent_blockhash: Option<Seq<u8>>,
    pub instructions: Seq<InstructionView>,
}

impl View for TransactionShell {
    type V = TransactionShellView;

    open spec fn view(&self) -> TransactionShellView {
        TransactionShellView {
            fee_payer: self.fee_payer,
            recent_blockhash: self.recent_blockhash.deep_view(),
            instructions: self.instructions.deep_view(),
        }
    }
}

impl SwapInstructionsBuilder {
    /// Finalizes the plan into its instruction sequence, in the required
    /// order; a plan without a swap instruction is incomplete and fails.
    pub fn build_instructions(self) -> (r: Result<Vec<Instruction>, SwapError>)
        ensures
            r is Ok <==> self@.swap_instruction is Some,
            (r matches Ok(v) ==> v.deep_view() == final_sequence_spec(self@)),
            (r is Err ==> r == Err::<Vec<Instruction>, SwapError>(SwapError::IncompletePlanError)),
    {
        let SwapInstructionsBuilder {
            compute_budget_instructions,
            setup_instructions,
            swap_instruction,
            cleanup_instruction,
            address_lookup_table_addresses: _,
        } = self;
        let swap_ix: Instruction = match swap_instruction {
            Some(ix) => ix,
            None => {
                return Err(SwapError::IncompletePlanError);
            },
        };
        let mut final_instructions = compute_budget_instructions;
        let mut setup = setup_instructions;
        final_instructions.append(&mut setup);
        final_instructions.push(swap_ix);
        match cleanup_instruction {
            Some(cleanup) => {
                final_instructions.push(cleanup);
            },
            None => {},
        }
        proof {
            assert(final_instructions.deep_view() =~= final_sequence_spec(self@));
        }
        Ok(final_instructions)
    }

    /// Finalizes the plan into a signable transaction shell carrying the
    /// given fee payer and block reference.
    pub fn build_transaction(
        self,
        payer: Option<&Address>,
        blockhash: Option<Vec<u8>>,
    ) -> (r: Result<TransactionShell, SwapError>)
        ensures
            r is Ok <==> self@.swap_instruction is Some,
            (r matches Ok(t) ==> {
                &&& t@.instructions == final_sequence_spec(self@)
                &&& t@.fee_payer == (match payer {
                    Some(p) => Some(*p),
                    None => None::<Address>,
                })
                &&& t@.recent_blockhash == blockhash.deep_view()
            }),
            (r is Err ==> r == Err::<TransactionShell, SwapError>(SwapError::IncompletePlanError)),
    {
        let instructions = self.build_instructions()?;
        Ok(
            TransactionShell {
                fee_payer: match payer {
                    Some(p) => Some(*p),
                    None => None,
                },
                recent_blockhash: blockhash,
                instructions,
            },
        )
    }
}

/// In any finalized plan, every compute-budget instruction precedes every
/// setup instruction, every setup instruction precedes the single swap
/// instruction, and the swap precedes any cleanup instruction: the
/// sequence is exactly budget, setup, swap, cleanup, in that order.
pub proof fn lemma_plan_ordering(b: SwapInstructionsBuilderView, r: Seq<InstructionView>)
    requires
        b.swap_instruction is Some,
        r == final_sequence_spec(b),
    ensures
        ({
            let n_budget = b.compute_budget_instructions.len() as int;
            let n_setup = b.setup_instructions.len() as int;
            &&& r.len() == n_budget + n_setup + 1 + (if b.cleanup_instruction is Some {
                1int
            } else {
                0int
            })
            &&& (forall|i: int|
                0 <= i < n_budget ==> r[i] == b.compute_budget_instructions[i])
            &&& (forall|i: int|
                0 <= i < n_setup ==> r[n_budget + i] == b.setup_instructions[i])
            &&& r[n_budget + n_setup] == b.swap_instruction.unwrap()
            &&& (b.cleanup_instruction matches Some(c) ==> r[n_budget + n_setup + 1] == c)
        }),
{
}

/// The derived compute-unit price meets its target: whenever the exact
/// price fits 64 bits, charging it over `compute_units` units — with the
/// network rounding the total down — pays at least `priority_fee`.
pub proof fn lemma_cu_price_meets_target(priority_fee: int, compute_units: int)
    requires
        priority_fee >= 0,
        compute_units > 0,
        ceil_div_spec(priority_fee * (MICRO_LAMPORTS_PER_LAMPORT as int), compute_units)
            <= u64::MAX,
    ensures
        (cu_price_spec(priority_fee, compute_units) * compute_units) / (
        MICRO_LAMPORTS_PER_LAMPORT as int) >= priority_fee,
{
    let micro = priority_fee * (MICRO_LAMPORTS_PER_LAMPORT as int);
    let price = ceil_div_spec(micro, compute_units);
    vstd::arithmetic::mul::lemma_mul_nonnegative(priority_fee, MICRO_LAMPORTS_PER_LAMPORT as int);
    // Rounding up means the price covers the target: price * units >= micro.
    vstd::arithmetic::div_mod::lemma_fundamental_div_mod(
        micro + compute_units - 1,
        compute_units,
    );
    assert(price * compute_units >= micro) by (nonlinear_arith)
        requires
            compute_units > 0,
            micro >= 0,
            micro + compute_units - 1 == compute_units * price + (micro + compute_units - 1)
                % compute_units,
            0 <= (micro + compute_units - 1) % compute_units < compute_units,
    ;
    vstd::arithmetic::div_mod::lemma_div_is_ordered(
        micro,
        price * compute_units,
        MICRO_LAMPORTS_PER_LAMPORT as int,
    );
    vstd::arithmetic::div_mod::lemma_div_multiples_vanish(
        priority_fee,
        MICRO_LAMPORTS_PER_LAMPORT as int,
    );
    vstd::arithmetic::mul::lemma_mul_is_commutative(
        MICRO_LAMPORTS_PER_LAMPORT as int,
        priority_fee,
    );
}

} // verus!
