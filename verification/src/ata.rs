//! Associated token account address derivation.
//!
//! The associated token account of a wallet for a mint is a program-derived
//! address computed by hashing the wallet, token program and mint under the
//! associated-token-account program. The hash itself is done by the
//! `spl-associated-token-account-interface` crate; this module names its
//! result and carries it between the crate's address type and raw bytes.

use vstd::prelude::*;

use crate::address::{Address, address_from_bytes_spec};

verus! {

/// The 32-byte associated token account address derived from a wallet, a
/// mint and a token program, each given as its 32-byte value. The
/// derivation is a pure hash: it depends on these arguments alone.
pub uninterp spec fn ata_of(wallet: Seq<u8>, mint: Seq<u8>, token_program: Seq<u8>) -> Seq<u8>;

/// Relies on `spl_associated_token_account_interface::address::
/// get_associated_token_address_with_program_id`: the associated token
/// account address is derived deterministically, by hashing, from the
/// wallet, the token program and the mint, and is 32 bytes long. The
/// derivation panics only in the statistically improbable case that no bump
/// seed yields a valid derived address.
#[verifier::external_body]
fn ata_address_bytes(wallet: &Vec<u8>, mint: &Vec<u8>, token_program: &Vec<u8>) -> (r: Vec<u8>)
    requires
        wallet@.len() == 32,
        mint@.len() == 32,
        token_program@.len() == 32,
    ensures
        r@ == ata_of(wallet@, mint@, token_program@),
        r@.len() == 32,
{
    let wallet = solana_pubkey::Pubkey::new_from_array(wallet.as_slice().try_into().unwrap());
    let mint = solana_pubkey::Pubkey::new_from_array(mint.as_slice().try_into().unwrap());
    let program = solana_pubkey::Pubkey::new_from_array(
        token_program.as_slice().try_into().unwrap(),
    );
    let ata = spl_associated_token_account_interface::address::get_associated_token_address_with_program_id(
        &wallet,
        &mint,
        &program,
    );
    ata.to_bytes().to_vec()
}

/// The associated token account address of `wallet` for `mint` under
/// `token_program`.
pub open spec fn ata_address_spec(wallet: Address, mint: Address, token_program: Address) -> Address {
    address_from_bytes_spec(
        ata_of(wallet.bytes_spec(), mint.bytes_spec(), token_program.bytes_spec()),
    )
}

/// Derives the associated token account address for the given wallet
/// address, token mint and token program.
pub fn associated_token_address_with_program_id(
    wallet: &Address,
    mint: &Address,
    token_program: &Address,
) -> (r: Address)
    ensures
        r == ata_address_spec(*wallet, *mint, *token_program),
{
    let wb = wallet.to_bytes();
    let mb = mint.to_bytes();
    let tb = token_program.to_bytes();
    let rb = ata_address_bytes(&wb, &mb, &tb);
    Address::from_bytes(rb.as_slice()).unwrap()
}

} // verus!
