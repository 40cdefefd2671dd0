//! The legacy pool dump and pool lookup by mint pair.
//!
//! Fetching the dump is an external concern; this module holds its decoded
//! form and the lookup that picks a pool for a mint pair out of it.

use vstd::prelude::*;

use crate::address::Address;

verus! {

/// One liquidity pool of the legacy pool dump.
#[derive(Clone, Copy, Debug, PartialEq, Eq, Structural)]
pub struct LiquidityPool {
    pub id: Address,
    pub base_mint: Address,
    pub quote_mint: Address,
    pub lp_mint: Address,
    pub base_decimals: u8,
    pub quote_decimals: u8,
    pub lp_decimals: u8,
    pub version: u8,
    pub program_id: Address,
    pub authority: Address,
    pub open_orders: Address,
    pub target_orders: Address,
    pub base_vault: Address,
    pub quote_vault: Address,
    pub withdraw_queue: Address,
    pub lp_vault: Address,
    pub market_version: u8,
    pub market_program_id: Address,
    pub market_id: Address,
    pub market_authority: Address,
    pub market_base_vault: Address,
    pub market_quote_vault: Address,
    pub market_bids: Address,
    pub market_asks: Address,
    pub market_event_queue: Address,
}

/// The legacy pool dump: the officially listed pools and the rest.
#[derive(Clone, Debug)]
pub struct LiqPoolInformation {
    pub official: Vec<LiquidityPool>,
    pub unofficial: Vec<LiquidityPool>,
}

/// Whether a pool pairs `base` as its base mint with `quote` as its quote
/// mint.
pub open spec fn pool_pairs_spec(pool: LiquidityPool, base: Address, quote: Address) -> bool {
    pool.base_mint == base && pool.quote_mint == quote
}

/// The pools a lookup considers, in order: the official list, then — when
/// unofficial pools are allowed — the unofficial one.
pub open spec fn considered_pools_spec(
    pools: &LiqPoolInformation,
    allow_unofficial: bool,
) -> Seq<LiquidityPool> {
    if allow_unofficial {
        pools.official@ + pools.unofficial@
    } else {
        pools.official@
    }
}

/// Whether some considered pool pairs `base` with `quote`.
pub open spec fn has_pair_spec(considered: Seq<LiquidityPool>, base: Address, quote: Address) -> bool {
    exists|i: int| 0 <= i < considered.len() && pool_pairs_spec(considered[i], base, quote)
}

/// Whether `p` is the first considered pool pairing `base` with `quote`.
pub open spec fn is_first_pair_spec(
    considered: Seq<LiquidityPool>,
    base: Address,
    quote: Address,
    p: LiquidityPool,
) -> bool {
    exists|i: int|
        0 <= i < considered.len() && p == considered[i] && pool_pairs_spec(considered[i], base, quote)
            && (forall|j: int| 0 <= j < i ==> !pool_pairs_spec(considered[j], base, quote))
}

/// Picks the pool for a mint pair out of the dump: the first considered
/// pool pairing `token_a` as base with `token_b` as quote; when none does,
/// the first pairing them the other way around; when none does either,
/// nothing.
pub fn get_pool_info(
    pools: &LiqPoolInformation,
    token_a: &Address,
    token_b: &Address,
    allow_unofficial: bool,
) -> (r: Option<LiquidityPool>)
    ensures
        ({
            let considered = considered_pools_spec(pools, allow_unofficial);
            let any_forward = has_pair_spec(considered, *token_a, *token_b);
            let any_reverse = has_pair_spec(considered, *token_b, *token_a);
            &&& (r is Some <==> any_forward || any_reverse)
            &&& (any_forward ==> (r matches Some(p) && is_first_pair_spec(
                considered,
                *token_a,
                *token_b,
                p,
            )))
            &&& (!any_forward && any_reverse ==> (r matches Some(p) && is_first_pair_spec(
                considered,
                *token_b,
                *token_a,
                p,
            )))
        }),
{
    let ghost considered = considered_pools_spec(pools, allow_unofficial);
    let mut candidates: Vec<LiquidityPool> = Vec::new();
    let mut i: usize = 0;
    while i < pools.official.len()
        invariant
            i <= pools.official@.len(),
            candidates@ == pools.official@.take(i as int),
        decreases pools.official@.len() - i,
    {
        candidates.push(pools.official[i]);
        proof {
            assert(candidates@ =~= pools.official@.take(i as int + 1));
        }
        i = i + 1;
    }
    proof {
        assert(candidates@ =~= pools.official@);
    }
    if allow_unofficial {
        let mut j: usize = 0;
        while j < pools.unofficial.len()
            invariant
                j <= pools.unofficial@.len(),
                candidates@ == pools.official@ + pools.unofficial@.take(j as int),
            decreases pools.unofficial@.len() - j,
        {
            candidates.push(pools.unofficial[j]);
            proof {
                assert(candidates@ =~= pools.official@ + pools.unofficial@.take(j as int + 1));
            }
            j = j + 1;
        }
        proof {
            assert(candidates@ =~= considered);
        }
    }
    proof {
        assert(candidates@ =~= considered);
    }
    let n = candidates.len();
    let mut k: usize = 0;
    while k < n
        invariant
            n == candidates@.len(),
            k <= n,
            considered == considered_pools_spec(pools, allow_unofficial),
            candidates@ == considered,
            forall|j: int| 0 <= j < k ==> !pool_pairs_spec(considered[j], *token_a, *token_b),
        decreases n - k,
    {
        let p = candidates[k];
        if p.base_mint == *token_a && p.quote_mint == *token_b {
            proof {
                assert(0 <= (k as int) && (k as int) < considered.len() && p == considered[k as int]
                    && pool_pairs_spec(considered[k as int], *token_a, *token_b));
                assert(has_pair_spec(considered, *token_a, *token_b));
                assert(is_first_pair_spec(considered, *token_a, *token_b, p));
            }
            return Some(p);
        }
        k = k + 1;
    }
    let mut k: usize = 0;
    while k < n
        invariant
            n == candidates@.len(),
            k <= n,
            considered == considered_pools_spec(pools, allow_unofficial),
            candidates@ == considered,
            forall|j: int| 0 <= j < k ==> !pool_pairs_spec(considered[j], *token_b, *token_a),
            forall|j: int| 0 <= j < n ==> !pool_pairs_spec(considered[j], *token_a, *token_b),
        decreases n - k,
    {
        let p = candidates[k];
        if p.base_mint == *token_b && p.quote_mint == *token_a {
            proof {
                assert(0 <= (k as int) && (k as int) < considered.len() && p == considered[k as int]
                    && pool_pairs_spec(considered[k as int], *token_b, *token_a));
                assert(has_pair_spec(considered, *token_b, *token_a));
                assert(is_first_pair_spec(considered, *token_b, *token_a, p));
            }
            return Some(p);
        }
        k = k + 1;
    }
    None
}

} // verus!
