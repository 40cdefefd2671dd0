use raydium_swap::SwapError;
use raydium_swap::address::Address;
use raydium_swap::amm_info::{StateData, u128_from_le_bytes};
use raydium_swap::api::{LiqPoolInformation, LiquidityPool, get_pool_info};
use raydium_swap::api_v3::{
    ApiV3Client, ApiV3ErrorResponse, ApiV3Response, ListedPool, PoolSort, PoolSortOrder,
    PoolType, find_pool_id,
};
use raydium_swap::instruction::amm_v4_program_id;
use raydium_swap::ata::associated_token_address_with_program_id;
use raydium_swap::instruction::{native_mint, token_program_id};
use raydium_swap::quote::require_accounts;
use raydium_swap::token::ApiV3TokenTag;

fn addr(n: u64) -> Address {
    Address::from_words(n, n.wrapping_mul(7), n.wrapping_add(99), n ^ 0xabcd)
}

#[test]
fn address_bytes_round_trip() {
    let a = addr(123);
    let bytes = a.to_bytes();
    assert_eq!(bytes.len(), 32);
    assert_eq!(Address::from_bytes(bytes.as_slice()), Some(a));
    assert_eq!(Address::from_bytes(&bytes[0..31]), None);
}

#[test]
fn known_addresses_decode_to_their_base58_names() {
    // The wrapped native mint, So11111111111111111111111111111111111111112.
    let expected: [u8; 32] = [
        0x06, 0x9b, 0x88, 0x57, 0xfe, 0xab, 0x81, 0x84, 0xfb, 0x68, 0x7f, 0x63, 0x46, 0x18,
        0xc0, 0x35, 0xda, 0xc4, 0x39, 0xdc, 0x1a, 0xeb, 0x3b, 0x55, 0x98, 0xa0, 0xf0, 0x00,
        0x00, 0x00, 0x00, 0x01,
    ];
    assert_eq!(native_mint().to_bytes(), expected.to_vec());
}

#[test]
fn ata_derivation_matches_the_derivation_crate() {
    let wallet = addr(1);
    let mint = native_mint();
    let program = token_program_id();
    let ours = associated_token_address_with_program_id(&wallet, &mint, &program);
    let w = solana_pubkey::Pubkey::new_from_array(wallet.to_bytes().try_into().unwrap());
    let m = solana_pubkey::Pubkey::new_from_array(mint.to_bytes().try_into().unwrap());
    let p = solana_pubkey::Pubkey::new_from_array(program.to_bytes().try_into().unwrap());
    let theirs =
        spl_associated_token_account_interface::address::get_associated_token_address_with_program_id(
            &w, &m, &p,
        );
    assert_eq!(ours.to_bytes(), theirs.to_bytes().to_vec());
    // The derivation really derives: the result is none of its inputs.
    assert_ne!(ours, wallet);
    assert_ne!(ours, mint);
}

#[test]
fn state_data_swap_totals_read_little_endian() {
    let mut coin_in = [0u8; 16];
    coin_in[0] = 0x01;
    coin_in[8] = 0x02;
    let state = StateData {
        need_take_pnl_coin: 0,
        need_take_pnl_pc: 0,
        total_pnl_pc: 0,
        total_pnl_coin: 0,
        pool_open_time: 0,
        padding: [0; 2],
        orderbook_to_init_time: 0,
        swap_coin_in_amount: coin_in,
        swap_pc_out_amount: [0xff; 16],
        swap_acc_pc_fee: 0,
        swap_pc_in_amount: [0; 16],
        swap_coin_out_amount: 7u128.to_le_bytes(),
        swap_acc_coin_fee: 0,
    };
    let (coin_in_total, pc_out_total, pc_in_total, coin_out_total) = state.swap_totals();
    assert_eq!(coin_in_total, 1 + (2u128 << 64));
    assert_eq!(pc_out_total, u128::MAX);
    assert_eq!(pc_in_total, 0);
    assert_eq!(coin_out_total, 7);
    assert_eq!(u128_from_le_bytes(&123_456_789_000u128.to_le_bytes()), 123_456_789_000);
}

fn pool(base: Address, quote: Address, tag: u64) -> LiquidityPool {
    LiquidityPool {
        id: addr(tag),
        base_mint: base,
        quote_mint: quote,
        lp_mint: addr(40),
        base_decimals: 9,
        quote_decimals: 6,
        lp_decimals: 9,
        version: 4,
        program_id: addr(41),
        authority: addr(42),
        open_orders: addr(43),
        target_orders: addr(44),
        base_vault: addr(45),
        quote_vault: addr(46),
        withdraw_queue: addr(47),
        lp_vault: addr(48),
        market_version: 3,
        market_program_id: addr(49),
        market_id: addr(50),
        market_authority: addr(51),
        market_base_vault: addr(52),
        market_quote_vault: addr(53),
        market_bids: addr(54),
        market_asks: addr(55),
        market_event_queue: addr(56),
    }
}

#[test]
fn pool_lookup_prefers_the_forward_pair() {
    let a = addr(1);
    let b = addr(2);
    let dump = LiqPoolInformation {
        official: vec![pool(b, a, 100), pool(a, b, 101), pool(a, b, 102)],
        unofficial: vec![],
    };
    // Both directions exist: the first forward pool wins, not the earlier
    // reversed one and not the later duplicate.
    let found = get_pool_info(&dump, &a, &b, false).unwrap();
    assert_eq!(found.id, addr(101));
}

#[test]
fn pool_lookup_falls_back_to_the_reversed_pair() {
    let a = addr(1);
    let b = addr(2);
    let dump = LiqPoolInformation {
        official: vec![pool(b, a, 100)],
        unofficial: vec![],
    };
    let found = get_pool_info(&dump, &a, &b, false).unwrap();
    assert_eq!(found.id, addr(100));
}

#[test]
fn pool_lookup_respects_the_official_gate() {
    let a = addr(1);
    let b = addr(2);
    let dump = LiqPoolInformation {
        official: vec![],
        unofficial: vec![pool(a, b, 100)],
    };
    assert!(get_pool_info(&dump, &a, &b, false).is_none());
    assert_eq!(get_pool_info(&dump, &a, &b, true).unwrap().id, addr(100));
}

#[test]
fn listed_pool_resolution_needs_the_amm_program_for_reversed_pairs() {
    let a = addr(1);
    let b = addr(2);
    // Reversed pair under a foreign program: not usable.
    let foreign = ListedPool { id: addr(100), mint_a: b, mint_b: a, program_id: addr(99) };
    // Reversed pair under the AMM program: usable.
    let reversed = ListedPool {
        id: addr(101),
        mint_a: b,
        mint_b: a,
        program_id: amm_v4_program_id(),
    };
    // Forward pair under a foreign program: usable regardless.
    let forward = ListedPool { id: addr(102), mint_a: a, mint_b: b, program_id: addr(99) };
    assert_eq!(find_pool_id(&vec![foreign], &a, &b), None);
    assert_eq!(find_pool_id(&vec![foreign, reversed, forward], &a, &b), Some(addr(101)));
    assert_eq!(find_pool_id(&vec![forward, reversed], &a, &b), Some(addr(102)));
}

#[test]
fn batched_accounts_must_all_be_present() {
    let complete: Vec<Option<u64>> = vec![Some(1), Some(2), Some(3)];
    assert_eq!(require_accounts(complete).unwrap(), vec![1u64, 2, 3]);
    let incomplete: Vec<Option<u64>> = vec![Some(1), None, Some(3)];
    assert_eq!(require_accounts(incomplete).unwrap_err(), SwapError::MalformedAccountData);
}

#[test]
fn response_envelope_splits_on_success() {
    let ok: ApiV3Response<u32> = ApiV3Response {
        id: String::from("a"),
        success: true,
        data: 7,
    };
    assert_eq!(ok.require_success().unwrap(), 7);
    let bad: ApiV3Response<u32> = ApiV3Response {
        id: String::from("a"),
        success: false,
        data: 7,
    };
    assert_eq!(bad.require_success().unwrap_err(), SwapError::MalformedAccountData);
}

#[test]
fn query_labels_match_the_wire_names() {
    assert_eq!(PoolType::Standard.query_name(), "standard");
    assert_eq!(PoolType::ConcentratedFarm.query_name(), "concentratedFarm");
    assert_eq!(PoolSort::Volume24h.query_name(), "volume24h");
    assert_eq!(PoolSort::Apr30d.query_name(), "apr30d");
    assert_eq!(PoolSortOrder::Ascending.query_name(), "asc");
    assert_eq!(PoolSortOrder::Descending.query_name(), "desc");
    assert_eq!(ApiV3Client::new(None).base_url().as_str(), "https://api-v3.raydium.io");
    assert_eq!(
        ApiV3Client::new(Some(String::from("http://localhost:8080"))).base_url().as_str(),
        "http://localhost:8080"
    );
}

#[test]
fn token_tags_round_trip_their_wire_names() {
    let known = vec!["hasFreeze", "hasTransferFee", "token-2022", "community", "unknown"];
    for name in known {
        let tag = ApiV3TokenTag::from_tag_str(&String::from(name));
        assert_eq!(tag.tag_string(), name);
        assert!(!matches!(tag, ApiV3TokenTag::UnrecognizedTag(_)));
    }
    let odd = ApiV3TokenTag::from_tag_str(&String::from("brand-new"));
    assert!(matches!(odd, ApiV3TokenTag::UnrecognizedTag(_)));
    assert_eq!(odd.tag_string(), "brand-new");
}

#[test]
fn error_report_carries_its_message() {
    let report = ApiV3ErrorResponse {
        id: String::from("1"),
        success: false,
        msg: String::from("no such pool"),
    };
    assert_eq!(report.message(), "Received error response from API: no such pool");
}
