use raydium_swap::SwapError;
use raydium_swap::address::Address;
use raydium_swap::api_v3::ApiV3Client;
use raydium_swap::builder::{
    SwapInstructionsBuilder, calculate_cu_price, tip_account,
};
use raydium_swap::executor::{RaydiumAmm, RaydiumAmmExecutorOpts};
use raydium_swap::instruction::{
    Instruction, amm_v4_program_id, ata_program_id, compute_budget_program_id, native_mint,
    set_compute_unit_limit, set_compute_unit_price, swap_base_in, sync_native, token_program_id,
    transfer,
};
use raydium_swap::quote::{AmmKeys, MarketKeys, RaydiumAmmQuote};
use raydium_swap::types::{ComputeUnitLimits, PriorityFeeConfig, SwapConfigOverrides};

fn addr(n: u64) -> Address {
    Address::from_words(n, n.wrapping_mul(7), n.wrapping_add(99), n ^ 0xabcd)
}

fn sample_quote(input_mint: Address, output_mint: Address) -> RaydiumAmmQuote {
    RaydiumAmmQuote {
        market: addr(10),
        input_mint,
        output_mint,
        amount: 1_000_000_000,
        other_amount: 49_825_299,
        other_amount_threshold: 44_842_769,
        amount_specified_is_input: true,
        input_mint_decimals: 9,
        output_mint_decimals: 6,
        amm_keys: AmmKeys {
            amm_pool: addr(10),
            amm_coin_mint: input_mint,
            amm_pc_mint: output_mint,
            amm_authority: addr(11),
            amm_target: addr(12),
            amm_coin_vault: addr(13),
            amm_pc_vault: addr(14),
            amm_lp_mint: addr(15),
            amm_open_order: addr(16),
            market_program: addr(17),
            market: addr(18),
            nonce: 3,
        },
        market_keys: MarketKeys {
            event_queue: addr(20),
            bids: addr(21),
            asks: addr(22),
            coin_vault: addr(23),
            pc_vault: addr(24),
            vault_signer_key: addr(25),
        },
    }
}

fn executor(
    priority_fee: Option<PriorityFeeConfig>,
    cu_limits: Option<ComputeUnitLimits>,
) -> RaydiumAmm {
    RaydiumAmm::new(
        RaydiumAmmExecutorOpts {
            priority_fee,
            cu_limits,
            wrap_and_unwrap_sol: None,
            get_market_keys_by_api: None,
        },
        ApiV3Client::new(None),
    )
}

#[test]
fn plan_orders_budget_setup_swap_cleanup() {
    // A wrapping swap from the native mint with a fixed price and a fixed
    // limit exercises every section of the plan.
    let user = addr(1);
    let quote = sample_quote(native_mint(), addr(3));
    let amm = executor(
        Some(PriorityFeeConfig::FixedCuPrice(42)),
        Some(ComputeUnitLimits::Fixed(300_000)),
    );
    let instructions = amm.swap_instructions(user, &quote, None, None).unwrap();
    assert_eq!(instructions.len(), 8);
    // Compute-budget instructions precede everything they govern.
    assert_eq!(instructions[0].program_id, compute_budget_program_id());
    assert_eq!(instructions[0], set_compute_unit_limit(300_000));
    assert_eq!(instructions[1], set_compute_unit_price(42));
    // Setup: create the wrapped account, fund it, sync it, create the
    // output account.
    assert_eq!(instructions[2].program_id, ata_program_id());
    assert_eq!(instructions[3].data[0..4], [2, 0, 0, 0]);
    assert_eq!(instructions[4], sync_native(&instructions[3].accounts[1].pubkey));
    assert_eq!(instructions[5].program_id, ata_program_id());
    // The single swap, then the cleanup close observing post-swap balances.
    assert_eq!(instructions[6].program_id, amm_v4_program_id());
    assert_eq!(instructions[7].program_id, token_program_id());
    assert_eq!(instructions[7].data, vec![9]);
}

#[test]
fn plan_is_idempotent_for_identical_inputs() {
    let user = addr(1);
    let quote = sample_quote(addr(2), addr(3));
    let amm = executor(
        Some(PriorityFeeConfig::DynamicMultiplier(2)),
        Some(ComputeUnitLimits::Dynamic),
    );
    let first = amm.swap_instructions(user, &quote, None, Some(150_000)).unwrap();
    let second = amm.swap_instructions(user, &quote, None, Some(150_000)).unwrap();
    assert_eq!(first, second);
}

#[test]
fn dynamic_limit_without_simulation_degrades_gracefully() {
    // A dynamic compute-limit intent whose simulation reported nothing:
    // no limit instruction is emitted and the build still succeeds.
    let user = addr(1);
    let quote = sample_quote(addr(2), addr(3));
    let amm = executor(None, Some(ComputeUnitLimits::Dynamic));
    let instructions = amm.swap_instructions(user, &quote, None, None).unwrap();
    for ix in &instructions {
        assert_ne!(ix.program_id, compute_budget_program_id());
    }
    // Setup (output-account create) and the swap remain.
    assert_eq!(instructions.len(), 2);
    assert_eq!(instructions[1].program_id, amm_v4_program_id());
}

#[test]
fn dynamic_limit_adds_margin_to_simulated_units() {
    let mut builder = SwapInstructionsBuilder::default();
    let limit = builder
        .handle_compute_units_params(Some(ComputeUnitLimits::Dynamic), Some(150_000))
        .unwrap();
    assert_eq!(limit, Some(200_000));
    assert_eq!(builder.compute_budget_instructions.len(), 1);
    assert_eq!(builder.compute_budget_instructions[0], set_compute_unit_limit(200_000));
}

#[test]
fn oversized_fixed_limit_overflows() {
    let mut builder = SwapInstructionsBuilder::default();
    let r = builder.handle_compute_units_params(
        Some(ComputeUnitLimits::Fixed(u64::MAX)),
        None,
    );
    assert_eq!(r.unwrap_err(), SwapError::ArithmeticOverflow);
}

#[test]
fn cu_price_meets_the_target_fee() {
    // The network charges floor(price * limit / 1_000_000); the derived
    // price must round up so the target is met or exceeded.
    let cases: Vec<(u64, u32)> = vec![
        (200_000, 200_000),
        (1, 200_000),
        (99_999, 123_457),
        (100_000, 1),
        (7, 3),
    ];
    for (target, limit) in cases {
        let price = calculate_cu_price(target, limit);
        let charged = (price as u128) * (limit as u128) / 1_000_000u128;
        assert!(charged >= target as u128, "target {target} limit {limit}");
    }
    // Exact value: one lamport over 200_000 units needs 5 micro-lamports
    // per unit.
    assert_eq!(calculate_cu_price(1, 200_000), 5);
    assert_eq!(calculate_cu_price(200_000, 200_000), 1_000_000);
}

#[test]
fn multiplier_target_is_met_after_network_rounding() {
    // Through the plan: multiplier 2 aims at 200_000 lamports of priority
    // fee over the default 200_000-unit budget.
    let mut builder = SwapInstructionsBuilder::default();
    builder
        .handle_priority_fee_params(
            Some(PriorityFeeConfig::DynamicMultiplier(2)),
            None,
            addr(1),
        )
        .unwrap();
    let ix = &builder.compute_budget_instructions[0];
    assert_eq!(ix.data[0], 3);
    let mut price_bytes = [0u8; 8];
    price_bytes.copy_from_slice(&ix.data[1..9]);
    let price = u64::from_le_bytes(price_bytes);
    assert!((price as u128) * 200_000 / 1_000_000 >= 200_000);
    assert_eq!(price, 1_000_000);
}

#[test]
fn multiplier_overflow_is_reported() {
    let mut builder = SwapInstructionsBuilder::default();
    let r = builder.handle_priority_fee_params(
        Some(PriorityFeeConfig::DynamicMultiplier(u64::MAX)),
        None,
        addr(1),
    );
    assert_eq!(r.unwrap_err(), SwapError::ArithmeticOverflow);
}

#[test]
fn zero_compute_units_cannot_carry_a_fee() {
    let mut builder = SwapInstructionsBuilder::default();
    let r = builder.handle_priority_fee_params(
        Some(PriorityFeeConfig::DynamicMultiplier(1)),
        Some(0),
        addr(1),
    );
    assert_eq!(r.unwrap_err(), SwapError::DivideByZero);
}

#[test]
fn tip_goes_to_a_known_collection_account() {
    let user = addr(1);
    let mut builder = SwapInstructionsBuilder::default();
    builder
        .handle_priority_fee_params(Some(PriorityFeeConfig::JitoTip(10_000)), None, user)
        .unwrap();
    assert_eq!(builder.setup_instructions.len(), 1);
    let ix = &builder.setup_instructions[0];
    // A tip is a plain transfer of the tip amount from the funder...
    let mut expected_data = vec![2, 0, 0, 0];
    expected_data.extend_from_slice(&10_000u64.to_le_bytes());
    assert_eq!(ix.data, expected_data);
    assert_eq!(ix.accounts[0].pubkey, user);
    // ...to one of the eight fixed collection accounts.
    let recipient = ix.accounts[1].pubkey;
    let mut found = false;
    for i in 0..8 {
        if tip_account(i) == recipient {
            found = true;
        }
    }
    assert!(found);
}

#[test]
fn wrapping_returns_the_users_associated_accounts() {
    let user = addr(1);
    let out_mint = addr(3);
    let mut builder = SwapInstructionsBuilder::default();
    let atas = builder
        .handle_token_wrapping_and_accounts_creation(
            user,
            true,
            5_000,
            native_mint(),
            out_mint,
            token_program_id(),
            token_program_id(),
            None,
        )
        .unwrap();
    assert_eq!(
        atas.input_ata,
        raydium_swap::ata::associated_token_address_with_program_id(
            &user,
            &native_mint(),
            &token_program_id(),
        )
    );
    assert_eq!(
        atas.output_ata,
        raydium_swap::ata::associated_token_address_with_program_id(
            &user,
            &out_mint,
            &token_program_id(),
        )
    );
    // Wrapped-native setup: create, fund, sync, then the output create.
    assert_eq!(builder.setup_instructions.len(), 4);
    // Cleanup closes the wrapped account, paying its rent back to the user.
    let cleanup = builder.cleanup_instruction.unwrap();
    assert_eq!(cleanup.data, vec![9]);
    assert_eq!(cleanup.accounts[0].pubkey, atas.input_ata);
    assert_eq!(cleanup.accounts[1].pubkey, user);
}

#[test]
fn disabled_wrapping_emits_nothing_for_the_native_input_leg() {
    let user = addr(1);
    let mut builder = SwapInstructionsBuilder::default();
    // Native input, wrapping disabled, destination given: the input leg
    // must stay untouched — no create, no transfer, no sync — and nothing
    // needs cleanup.
    builder
        .handle_token_wrapping_and_accounts_creation(
            user,
            false,
            5_000,
            native_mint(),
            addr(3),
            token_program_id(),
            token_program_id(),
            Some(addr(55)),
        )
        .unwrap();
    assert!(builder.setup_instructions.is_empty());
    assert!(builder.cleanup_instruction.is_none());
}

#[test]
fn non_native_input_needs_no_wrapping() {
    let user = addr(1);
    let mut builder = SwapInstructionsBuilder::default();
    builder
        .handle_token_wrapping_and_accounts_creation(
            user,
            true,
            5_000,
            addr(2),
            addr(3),
            token_program_id(),
            token_program_id(),
            None,
        )
        .unwrap();
    // Only the output-account create remains; nothing to unwrap.
    assert_eq!(builder.setup_instructions.len(), 1);
    assert_eq!(builder.setup_instructions[0].program_id, ata_program_id());
    assert!(builder.cleanup_instruction.is_none());
}

#[test]
fn finalizing_without_a_swap_is_incomplete() {
    let builder = SwapInstructionsBuilder::default();
    assert_eq!(builder.build_instructions().unwrap_err(), SwapError::IncompletePlanError);
}

#[test]
fn transaction_shell_carries_payer_and_open_blockhash() {
    let user = addr(1);
    let quote = sample_quote(addr(2), addr(3));
    let amm = executor(None, None);
    let shell = amm.swap_transaction(user, &quote, None, None).unwrap();
    assert_eq!(shell.fee_payer, Some(user));
    assert!(shell.recent_blockhash.is_none());
    assert_eq!(shell.instructions.len(), 2);
}

#[test]
fn overrides_win_over_base_configuration() {
    let user = addr(1);
    let quote = sample_quote(addr(2), addr(3));
    // Base asks for a fixed price; the override replaces it with a limit-less
    // dynamic intent and a different price.
    let amm = executor(Some(PriorityFeeConfig::FixedCuPrice(42)), None);
    let overrides = SwapConfigOverrides {
        priority_fee: Some(PriorityFeeConfig::FixedCuPrice(77)),
        cu_limits: None,
        wrap_and_unwrap_sol: None,
        destination_token_account: None,
        as_legacy_transaction: None,
    };
    let instructions = amm.swap_instructions(user, &quote, Some(&overrides), None).unwrap();
    assert_eq!(instructions[0], set_compute_unit_price(77));
}

#[test]
fn destination_override_skips_output_account_creation() {
    let user = addr(1);
    let quote = sample_quote(addr(2), addr(3));
    let amm = executor(None, None);
    let overrides = SwapConfigOverrides {
        priority_fee: None,
        cu_limits: None,
        wrap_and_unwrap_sol: None,
        destination_token_account: Some(addr(55)),
        as_legacy_transaction: None,
    };
    let instructions = amm.swap_instructions(user, &quote, Some(&overrides), None).unwrap();
    // No setup at all: the input is not native and the destination exists.
    assert_eq!(instructions.len(), 1);
    assert_eq!(instructions[0].program_id, amm_v4_program_id());
}

#[test]
fn swap_instruction_encodes_amounts_little_endian() {
    let quote = sample_quote(addr(2), addr(3));
    let ix: Instruction = swap_base_in(
        &amm_v4_program_id(),
        &quote.amm_keys,
        &quote.market_keys,
        &addr(30),
        &addr(31),
        &addr(1),
        1_000_000_000,
        44_842_769,
    );
    let mut expected = vec![9u8];
    expected.extend_from_slice(&1_000_000_000u64.to_le_bytes());
    expected.extend_from_slice(&44_842_769u64.to_le_bytes());
    assert_eq!(ix.data, expected);
    assert_eq!(ix.accounts.len(), 17);
    assert_eq!(ix.accounts[0].pubkey, token_program_id());
    assert_eq!(ix.accounts[16].pubkey, addr(1));
    assert!(ix.accounts[16].is_signer);
}

#[test]
fn transfer_encodes_the_system_transfer_layout() {
    let ix = transfer(&addr(1), &addr(2), 12_345);
    let mut expected = vec![2u8, 0, 0, 0];
    expected.extend_from_slice(&12_345u64.to_le_bytes());
    assert_eq!(ix.data, expected);
    assert!(ix.accounts[0].is_signer && ix.accounts[0].is_writable);
    assert!(!ix.accounts[1].is_signer && ix.accounts[1].is_writable);
}
