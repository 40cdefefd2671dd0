//! Transaction instructions and their wire encodings.
//!
//! An [`Instruction`] names the program to invoke, the accounts it may read
//! or write, and its input bytes. Each encoder below states the exact bytes
//! and account list it produces; the layouts are the ones the respective
//! on-chain programs define.

use vstd::prelude::*;
use vstd::bytes::{spec_u32_to_le_bytes, spec_u64_to_le_bytes, u32_to_le_bytes, u64_to_le_bytes};

use crate::address::Address;
use crate::ata::ata_address_spec;
use crate::quote::{AmmKeys, MarketKeys};

verus! {

/// One account an instruction references, with its access flags.
#[derive(Copy, Clone, Debug, PartialEq, Eq, Structural)]
pub struct AccountMeta {
    pub pubkey: Address,
    pub is_signer: bool,
    pub is_writable: bool,
}

impl DeepView for AccountMeta {
    type V = AccountMeta;

    open spec fn deep_view(&self) -> AccountMeta {
        *self
    }
}

impl AccountMeta {
    /// A writable account.
    pub fn new(pubkey: Address, is_signer: bool) -> (r: Self)
        ensures
            r == (AccountMeta { pubkey, is_signer, is_writable: true }),
    {
        AccountMeta { pubkey, is_signer, is_writable: true }
    }

    /// A read-only account.
    pub fn new_readonly(pubkey: Address, is_signer: bool) -> (r: Self)
        ensures
            r == (AccountMeta { pubkey, is_signer, is_writable: false }),
    {
        AccountMeta { pubkey, is_signer, is_writable: false }
    }
}

/// The mathematical view of an instruction.
pub struct InstructionView {
    pub program_id: Address,
    pub accounts: Seq<AccountMeta>,
    pub data: Seq<u8>,
}

/// One transaction instruction: the program to invoke, the accounts it may
/// read or write, and its input bytes.
#[derive(Clone, Debug, PartialEq, Eq)]
pub struct Instruction {
    pub program_id: Address,
    pub accounts: Vec<AccountMeta>,
    pub data: Vec<u8>,
}

impl View for Instruction {
    type V = InstructionView;

    open spec fn view(&self) -> InstructionView {
        InstructionView { program_id: self.program_id, accounts: self.accounts@, data: self.data@ }
    }
}

impl DeepView for Instruction {
    type V = InstructionView;

    open spec fn deep_view(&self) -> InstructionView {
        self@
    }
}

/// The system program, whose address is all zeroes.
pub open spec fn system_program_spec() -> Address {
    Address { w0: 0, w1: 0, w2: 0, w3: 0 }
}

/// The system program, whose address is all zeroes.
pub fn system_program_id() -> (r: Address)
    ensures
        r == system_program_spec(),
{
    Address { w0: 0, w1: 0, w2: 0, w3: 0 }
}

/// The token program, `TokenkegQfeZyiNwAJbNbGKPFXCWuBvf9Ss623VQ5DA`.
pub open spec fn token_program_spec() -> Address {
    Address {
        w0: 0x93a165d7e1f6dd06,
        w1: 0xac79ebce46e1cbd9,
        w2: 0x91375b5fed85b41c,
        w3: 0xa900ff7e85f58c3a,
    }
}

/// The token program, `TokenkegQfeZyiNwAJbNbGKPFXCWuBvf9Ss623VQ5DA`.
pub fn token_program_id() -> (r: Address)
    ensures
        r == token_program_spec(),
{
    Address {
        w0: 0x93a165d7e1f6dd06,
        w1: 0xac79ebce46e1cbd9,
        w2: 0x91375b5fed85b41c,
        w3: 0xa900ff7e85f58c3a,
    }
}

/// The associated-token-account program,
/// `ATokenGPvbdGVxr1b2hvZbsiqW5xWH25efTNsLJA8knL`.
pub open spec fn ata_program_spec() -> Address {
    Address {
        w0: 0xf189244e8f25978c,
        w1: 0x830d8e1429103dbb,
        w2: 0x8410ffda99135a0b,
        w3: 0x59f8e9dbd87b8e04,
    }
}

/// The associated-token-account program,
/// `ATokenGPvbdGVxr1b2hvZbsiqW5xWH25efTNsLJA8knL`.
pub fn ata_program_id() -> (r: Address)
    ensures
        r == ata_program_spec(),
{
    Address {
        w0: 0xf189244e8f25978c,
        w1: 0x830d8e1429103dbb,
        w2: 0x8410ffda99135a0b,
        w3: 0x59f8e9dbd87b8e04,
    }
}

/// The compute-budget program, `ComputeBudget111111111111111111111111111111`.
pub open spec fn compute_budget_program_spec() -> Address {
    Address {
        w0: 0x321721e56f460603,
        w1: 0xe79bc372baadecff,
        w2: 0x6b12f7c5bbe58cbc,
        w3: 0x000000403a9b432c,
    }
}

/// The compute-budget program, `ComputeBudget111111111111111111111111111111`.
pub fn compute_budget_program_id() -> (r: Address)
    ensures
        r == compute_budget_program_spec(),
{
    Address {
        w0: 0x321721e56f460603,
        w1: 0xe79bc372baadecff,
        w2: 0x6b12f7c5bbe58cbc,
        w3: 0x000000403a9b432c,
    }
}

/// The wrapped native asset's mint,
/// `So11111111111111111111111111111111111111112`.
pub open spec fn native_mint_spec() -> Address {
    Address {
        w0: 0x8481abfe57889b06,
        w1: 0x35c01846637f68fb,
        w2: 0x553beb1adc39c4da,
        w3: 0x0100000000f0a098,
    }
}

/// The wrapped native asset's mint,
/// `So11111111111111111111111111111111111111112`.
pub fn native_mint() -> (r: Address)
    ensures
        r == native_mint_spec(),
{
    Address {
        w0: 0x8481abfe57889b06,
        w1: 0x35c01846637f68fb,
        w2: 0x553beb1adc39c4da,
        w3: 0x0100000000f0a098,
    }
}

/// The AMM v4 program this crate builds swaps against,
/// `675kPX9MHTjS2zt1qfr1NYHuzeLXfQM9H24wFSUt1Mp8`.
pub open spec fn amm_v4_program_spec() -> Address {
    Address {
        w0: 0x3fc30236c449d94b,
        w1: 0x4c52a316ed907720,
        w2: 0xa9a221f15c97b9a1,
        w3: 0xcd8ab6f87decff0c,
    }
}

/// The AMM v4 program this crate builds swaps against,
/// `675kPX9MHTjS2zt1qfr1NYHuzeLXfQM9H24wFSUt1Mp8`.
pub fn amm_v4_program_id() -> (r: Address)
    ensures
        r == amm_v4_program_spec(),
{
    Address {
        w0: 0x3fc30236c449d94b,
        w1: 0x4c52a316ed907720,
        w2: 0xa9a221f15c97b9a1,
        w3: 0xcd8ab6f87decff0c,
    }
}

/// The system program's transfer of `lamports` from `from` to `to`. Its
/// data is the 4-byte little-endian tag 2, then the amount in 8
/// little-endian bytes; the sender signs.
pub open spec fn transfer_ix_spec(from: Address, to: Address, lamports: u64) -> InstructionView {
    InstructionView {
        program_id: system_program_spec(),
        accounts: seq![
            AccountMeta { pubkey: from, is_signer: true, is_writable: true },
            AccountMeta { pubkey: to, is_signer: false, is_writable: true },
        ],
        data: spec_u32_to_le_bytes(2u32) + spec_u64_to_le_bytes(lamports),
    }
}

/// Encodes a system transfer of `lamports` from `from` to `to`.
pub fn transfer(from: &Address, to: &Address, lamports: u64) -> (r: Instruction)
    ensures
        r@ == transfer_ix_spec(*from, *to, lamports),
{
    let mut data = u32_to_le_bytes(2);
    let mut amount = u64_to_le_bytes(lamports);
    data.append(&mut amount);
    let mut accounts: Vec<AccountMeta> = Vec::new();
    accounts.push(AccountMeta::new(*from, true));
    accounts.push(AccountMeta::new(*to, false));
    proof {
        assert(accounts@ =~= transfer_ix_spec(*from, *to, lamports).accounts);
    }
    Instruction { program_id: system_program_id(), accounts, data }
}

/// The token program's balance sync for a wrapped-native account: data is
/// the single tag byte 17; the account is written.
pub open spec fn sync_native_ix_spec(account: Address) -> InstructionView {
    InstructionView {
        program_id: token_program_spec(),
        accounts: seq![AccountMeta { pubkey: account, is_signer: false, is_writable: true }],
        data: seq![17u8],
    }
}

/// Encodes a balance sync of the wrapped-native `account`.
pub fn sync_native(account: &Address) -> (r: Instruction)
    ensures
        r@ == sync_native_ix_spec(*account),
{
    let mut data: Vec<u8> = Vec::new();
    data.push(17);
    let mut accounts: Vec<AccountMeta> = Vec::new();
    accounts.push(AccountMeta::new(*account, false));
    proof {
        assert(accounts@ =~= sync_native_ix_spec(*account).accounts);
        assert(data@ =~= sync_native_ix_spec(*account).data);
    }
    Instruction { program_id: token_program_id(), accounts, data }
}

/// The token program's close of `account`, paying its rent to
/// `destination` under the signing `owner`: data is the single tag byte 9.
pub open spec fn close_account_ix_spec(
    account: Address,
    destination: Address,
    owner: Address,
) -> InstructionView {
    InstructionView {
        program_id: token_program_spec(),
        accounts: seq![
            AccountMeta { pubkey: account, is_signer: false, is_writable: true },
            AccountMeta { pubkey: destination, is_signer: false, is_writable: true },
            AccountMeta { pubkey: owner, is_signer: true, is_writable: false },
        ],
        data: seq![9u8],
    }
}

/// Encodes the close of a token `account`, paying its rent to
/// `destination` under the signing `owner`.
pub fn close_account(account: &Address, destination: &Address, owner: &Address) -> (r:
    Instruction)
    ensures
        r@ == close_account_ix_spec(*account, *destination, *owner),
{
    let mut data: Vec<u8> = Vec::new();
    data.push(9);
    let mut accounts: Vec<AccountMeta> = Vec::new();
    accounts.push(AccountMeta::new(*account, false));
    accounts.push(AccountMeta::new(*destination, false));
    accounts.push(AccountMeta::new_readonly(*owner, true));
    proof {
        assert(accounts@ =~= close_account_ix_spec(*account, *destination, *owner).accounts);
        assert(data@ =~= close_account_ix_spec(*account, *destination, *owner).data);
    }
    Instruction { program_id: token_program_id(), accounts, data }
}

/// The associated-token-account program's idempotent create: makes the
/// wallet's associated account for `mint` under `token_program` if it does
/// not exist. Data is the single tag byte 1; the funder signs and pays.
pub open spec fn create_ata_idempotent_ix_spec(
    funder: Address,
    wallet: Address,
    mint: Address,
    token_program: Address,
) -> InstructionView {
    InstructionView {
        program_id: ata_program_spec(),
        accounts: seq![
            AccountMeta { pubkey: funder, is_signer: true, is_writable: true },
            AccountMeta {
                pubkey: ata_address_spec(wallet, mint, token_program),
                is_signer: false,
                is_writable: true,
            },
            AccountMeta { pubkey: wallet, is_signer: false, is_writable: false },
            AccountMeta { pubkey: mint, is_signer: false, is_writable: false },
            AccountMeta { pubkey: system_program_spec(), is_signer: false, is_writable: false },
            AccountMeta { pubkey: token_program, is_signer: false, is_writable: false },
        ],
        data: seq![1u8],
    }
}

/// Encodes an idempotent create of the wallet's associated token account
/// for `mint` under `token_program`, funded by `funder`.
pub fn create_associated_token_account_idempotent(
    funder: &Address,
    wallet: &Address,
    mint: &Address,
    token_program: &Address,
) -> (r: Instruction)
    ensures
        r@ == create_ata_idempotent_ix_spec(*funder, *wallet, *mint, *token_program),
{
    let ata = crate::ata::associated_token_address_with_program_id(wallet, mint, token_program);
    let mut data: Vec<u8> = Vec::new();
    data.push(1);
    let mut accounts: Vec<AccountMeta> = Vec::new();
    accounts.push(AccountMeta::new(*funder, true));
    accounts.push(AccountMeta::new(ata, false));
    accounts.push(AccountMeta::new_readonly(*wallet, false));
    accounts.push(AccountMeta::new_readonly(*mint, false));
    accounts.push(AccountMeta::new_readonly(system_program_id(), false));
    accounts.push(AccountMeta::new_readonly(*token_program, false));
    proof {
        assert(accounts@ =~= create_ata_idempotent_ix_spec(
            *funder,
            *wallet,
            *mint,
            *token_program,
        ).accounts);
        assert(data@ =~= create_ata_idempotent_ix_spec(
            *funder,
            *wallet,
            *mint,
            *token_program,
        ).data);
    }
    Instruction { program_id: ata_program_id(), accounts, data }
}

/// The compute-budget program's limit setting: data is the tag byte 2, then
/// the unit count in 4 little-endian bytes; it references no accounts.
pub open spec fn set_compute_unit_limit_ix_spec(units: u32) -> InstructionView {
    InstructionView {
        program_id: compute_budget_program_spec(),
        accounts: seq![],
        data: seq![2u8] + spec_u32_to_le_bytes(units),
    }
}

/// Encodes a compute-unit limit of `units`.
pub fn set_compute_unit_limit(units: u32) -> (r: Instruction)
    ensures
        r@ == set_compute_unit_limit_ix_spec(units),
{
    let mut data: Vec<u8> = Vec::new();
    data.push(2);
    let mut tail = u32_to_le_bytes(units);
    data.append(&mut tail);
    let accounts: Vec<AccountMeta> = Vec::new();
    proof {
        assert(data@ =~= set_compute_unit_limit_ix_spec(units).data);
        assert(accounts@ =~= set_compute_unit_limit_ix_spec(units).accounts);
    }
    Instruction { program_id: compute_budget_program_id(), accounts, data }
}

/// The compute-budget program's price setting: data is the tag byte 3, then
/// the price in micro-lamports per compute unit in 8 little-endian bytes;
/// it references no accounts.
pub open spec fn set_compute_unit_price_ix_spec(micro_lamports: u64) -> InstructionView {
    InstructionView {
        program_id: compute_budget_program_spec(),
        accounts: seq![],
        data: seq![3u8] + spec_u64_to_le_bytes(micro_lamports),
    }
}

/// Encodes a compute-unit price of `micro_lamports` per unit.
pub fn set_compute_unit_price(micro_lamports: u64) -> (r: Instruction)
    ensures
        r@ == set_compute_unit_price_ix_spec(micro_lamports),
{
    let mut data: Vec<u8> = Vec::new();
    data.push(3);
    let mut tail = u64_to_le_bytes(micro_lamports);
    data.append(&mut tail);
    let accounts: Vec<AccountMeta> = Vec::new();
    proof {
        assert(data@ =~= set_compute_unit_price_ix_spec(micro_lamports).data);
        assert(accounts@ =~= set_compute_unit_price_ix_spec(micro_lamports).accounts);
    }
    Instruction { program_id: compute_budget_program_id(), accounts, data }
}

/// The accounts of an AMM v4 swap, in the order the program defines: the
/// token program, the pool and its authority and open-orders account, its
/// two vaults, the companion market's program and accounts, the user's
/// source and destination token accounts, and the signing owner.
pub open spec fn swap_accounts_spec(
    amm_program: Address,
    amm_keys: AmmKeys,
    market_keys: MarketKeys,
    user_source: Address,
    user_destination: Address,
    user_owner: Address,
) -> Seq<AccountMeta> {
    seq![
        AccountMeta { pubkey: token_program_spec(), is_signer: false, is_writable: false },
        AccountMeta { pubkey: amm_keys.amm_pool, is_signer: false, is_writable: true },
        AccountMeta { pubkey: amm_keys.amm_authority, is_signer: false, is_writable: false },
        AccountMeta { pubkey: amm_keys.amm_open_order, is_signer: false, is_writable: true },
        AccountMeta { pubkey: amm_keys.amm_coin_vault, is_signer: false, is_writable: true },
        AccountMeta { pubkey: amm_keys.amm_pc_vault, is_signer: false, is_writable: true },
        AccountMeta { pubkey: amm_keys.market_program, is_signer: false, is_writable: false },
        AccountMeta { pubkey: amm_keys.market, is_signer: false, is_writable: true },
        AccountMeta { pubkey: market_keys.bids, is_signer: false, is_writable: true },
        AccountMeta { pubkey: market_keys.asks, is_signer: false, is_writable: true },
        AccountMeta { pubkey: market_keys.event_queue, is_signer: false, is_writable: true },
        AccountMeta { pubkey: market_keys.coin_vault, is_signer: false, is_writable: true },
        AccountMeta { pubkey: market_keys.pc_vault, is_signer: false, is_writable: true },
        AccountMeta {
            pubkey: market_keys.vault_signer_key,
            is_signer: false,
            is_writable: false,
        },
        AccountMeta { pubkey: user_source, is_signer: false, is_writable: true },
        AccountMeta { pubkey: user_destination, is_signer: false, is_writable: true },
        AccountMeta { pubkey: user_owner, is_signer: true, is_writable: false },
    ]
}

/// An AMM v4 swap that fixes the input: data is the tag byte 9, the input
/// amount, then the minimum acceptable output, both in 8 little-endian
/// bytes.
pub open spec fn swap_base_in_ix_spec(
    amm_program: Address,
    amm_keys: AmmKeys,
    market_keys: MarketKeys,
    user_source: Address,
    user_destination: Address,
    user_owner: Address,
    amount_in: u64,
    minimum_amount_out: u64,
) -> InstructionView {
    InstructionView {
        program_id: amm_program,
        accounts: swap_accounts_spec(
            amm_program,
            amm_keys,
            market_keys,
            user_source,
            user_destination,
            user_owner,
        ),
        data: seq![9u8] + spec_u64_to_le_bytes(amount_in) + spec_u64_to_le_bytes(
            minimum_amount_out,
        ),
    }
}

/// An AMM v4 swap that fixes the output: data is the tag byte 11, the
/// maximum acceptable input, then the output amount, both in 8
/// little-endian bytes.
pub open spec fn swap_base_out_ix_spec(
    amm_program: Address,
    amm_keys: AmmKeys,
    market_keys: MarketKeys,
    user_source: Address,
    user_destination: Address,
    user_owner: Address,
    max_amount_in: u64,
    amount_out: u64,
) -> InstructionView {
    InstructionView {
        program_id: amm_program,
        accounts: swap_accounts_spec(
            amm_program,
            amm_keys,
            market_keys,
            user_source,
            user_destination,
            user_owner,
        ),
        data: seq![11u8] + spec_u64_to_le_bytes(max_amount_in) + spec_u64_to_le_bytes(amount_out),
    }
}

/// Builds the swap's account list in the program-defined order.
fn swap_accounts(
    amm_program: &Address,
    amm_keys: &AmmKeys,
    market_keys: &MarketKeys,
    user_source: &Address,
    user_destination: &Address,
    user_owner: &Address,
) -> (r: Vec<AccountMeta>)
    ensures
        r@ == swap_accounts_spec(
            *amm_program,
            *amm_keys,
            *market_keys,
            *user_source,
            *user_destination,
            *user_owner,
        ),
{
    let mut accounts: Vec<AccountMeta> = Vec::new();
    accounts.push(AccountMeta::new_readonly(token_program_id(), false));
    accounts.push(AccountMeta::new(amm_keys.amm_pool, false));
    accounts.push(AccountMeta::new_readonly(amm_keys.amm_authority, false));
    accounts.push(AccountMeta::new(amm_keys.amm_open_order, false));
    accounts.push(AccountMeta::new(amm_keys.amm_coin_vault, false));
    accounts.push(AccountMeta::new(amm_keys.amm_pc_vault, false));
    accounts.push(AccountMeta::new_readonly(amm_keys.market_program, false));
    accounts.push(AccountMeta::new(amm_keys.market, false));
    accounts.push(AccountMeta::new(market_keys.bids, false));
    accounts.push(AccountMeta::new(market_keys.asks, false));
    accounts.push(AccountMeta::new(market_keys.event_queue, false));
    accounts.push(AccountMeta::new(market_keys.coin_vault, false));
    accounts.push(AccountMeta::new(market_keys.pc_vault, false));
    accounts.push(AccountMeta::new_readonly(market_keys.vault_signer_key, false));
    accounts.push(AccountMeta::new(*user_source, false));
    accounts.push(AccountMeta::new(*user_destination, false));
    accounts.push(AccountMeta::new_readonly(*user_owner, true));
    proof {
        assert(accounts@ =~= swap_accounts_spec(
            *amm_program,
            *amm_keys,
            *market_keys,
            *user_source,
            *user_destination,
            *user_owner,
        ));
    }
    accounts
}

/// Encodes an AMM v4 swap that fixes the input amount.
pub fn swap_base_in(
    amm_program: &Address,
    amm_keys: &AmmKeys,
    market_keys: &MarketKeys,
    user_source: &Address,
    user_destination: &Address,
    user_owner: &Address,
    amount_in: u64,
    minimum_amount_out: u64,
) -> (r: Instruction)
    ensures
        r@ == swap_base_in_ix_spec(
            *amm_program,
            *amm_keys,
            *market_keys,
            *user_source,
            *user_destination,
            *user_owner,
            amount_in,
            minimum_amount_out,
        ),
{
    let accounts = swap_accounts(
        amm_program,
        amm_keys,
        market_keys,
        user_source,
        user_destination,
        user_owner,
    );
    let mut data: Vec<u8> = Vec::new();
    data.push(9);
    let mut amount = u64_to_le_bytes(amount_in);
    data.append(&mut amount);
    let mut threshold = u64_to_le_bytes(minimum_amount_out);
    data.append(&mut threshold);
    proof {
        assert(data@ =~= seq![9u8] + spec_u64_to_le_bytes(amount_in) + spec_u64_to_le_bytes(
            minimum_amount_out,
        ));
    }
    Instruction { program_id: *amm_program, accounts, data }
}

/// Encodes an AMM v4 swap that fixes the output amount.
pub fn swap_base_out(
    amm_program: &Address,
    amm_keys: &AmmKeys,
    market_keys: &MarketKeys,
    user_source: &Address,
    user_destination: &Address,
    user_owner: &Address,
    max_amount_in: u64,
    amount_out: u64,
) -> (r: Instruction)
    ensures
        r@ == swap_base_out_ix_spec(
            *amm_program,
            *amm_keys,
            *market_keys,
            *user_source,
            *user_destination,
            *user_owner,
            max_amount_in,
            amount_out,
        ),
{
    let accounts = swap_accounts(
        amm_program,
        amm_keys,
        market_keys,
        user_source,
        user_destination,
        user_owner,
    );
    let mut data: Vec<u8> = Vec::new();
    data.push(11);
    let mut max_in = u64_to_le_bytes(max_amount_in);
    data.append(&mut max_in);
    let mut amount = u64_to_le_bytes(amount_out);
    data.append(&mut amount);
    proof {
        assert(data@ =~= seq![11u8] + spec_u64_to_le_bytes(max_amount_in) + spec_u64_to_le_bytes(
            amount_out,
        ));
    }
    Instruction { program_id: *amm_program, accounts, data }
}

} // verus!
