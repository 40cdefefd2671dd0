//! Data model of the pool-listing API.
//!
//! The HTTP transport is an external collaborator: callers fetch and decode
//! responses outside this crate and hand the decoded values in. This module
//! holds the request parameters, the response envelopes, and the query
//! labels that name each parameter value on the wire.

use vstd::prelude::*;
use vstd::string::StringExecFns;

use crate::SwapError;
use crate::address::Address;
use crate::instruction::amm_v4_program_spec;

verus! {

/// What pool discovery reads of one listed pool: its identity, its two
/// mints, and the program that owns it.
#[derive(Copy, Clone, Debug, PartialEq, Eq, Structural)]
pub struct ListedPool {
    pub id: Address,
    pub mint_a: Address,
    pub mint_b: Address,
    pub program_id: Address,
}

/// Whether a listed pool serves the requested pair: its mints match the
/// request in order, or — for a pool of the AMM program this crate builds
/// against — in reverse order.
pub open spec fn listed_pool_matches_spec(
    pool: ListedPool,
    input_mint: Address,
    output_mint: Address,
) -> bool {
    (pool.mint_a == input_mint && pool.mint_b == output_mint) || (pool.mint_a == output_mint
        && pool.mint_b == input_mint && pool.program_id == amm_v4_program_spec())
}

/// Resolves a mint pair against a page of listed pools: the identity of the
/// first pool serving the pair, or nothing when none does.
pub fn find_pool_id(
    pools: &Vec<ListedPool>,
    input_mint: &Address,
    output_mint: &Address,
) -> (r: Option<Address>)
    ensures
        r is Some <==> exists|i: int|
            0 <= i < pools@.len() && listed_pool_matches_spec(pools@[i], *input_mint, *output_mint),
        (r matches Some(id) ==> exists|i: int|
            0 <= i < pools@.len() && id == pools@[i].id && listed_pool_matches_spec(
                pools@[i],
                *input_mint,
                *output_mint,
            ) && (forall|j: int|
                0 <= j < i ==> !listed_pool_matches_spec(pools@[j], *input_mint, *output_mint))),
{
    let n = pools.len();
    let mut k: usize = 0;
    while k < n
        invariant
            n == pools@.len(),
            k <= n,
            forall|j: int|
                0 <= j < k ==> !listed_pool_matches_spec(pools@[j], *input_mint, *output_mint),
        decreases n - k,
    {
        let pool = pools[k];
        let forward = pool.mint_a == *input_mint && pool.mint_b == *output_mint;
        let reverse = pool.mint_a == *output_mint && pool.mint_b == *input_mint
            && pool.program_id == crate::instruction::amm_v4_program_id();
        if forward || reverse {
            proof {
                assert(0 <= (k as int) && (k as int) < pools@.len() && listed_pool_matches_spec(
                    pools@[k as int],
                    *input_mint,
                    *output_mint,
                ));
                assert(exists|i: int|
                    0 <= i < pools@.len() && pool.id == pools@[i].id && listed_pool_matches_spec(
                        pools@[i],
                        *input_mint,
                        *output_mint,
                    ) && (forall|j: int|
                        0 <= j < i ==> !listed_pool_matches_spec(
                            pools@[j],
                            *input_mint,
                            *output_mint,
                        )));
            }
            return Some(pool.id);
        }
        k = k + 1;
    }
    None
}

/// A client of the pool-listing API, identified by the base URL its
/// requests are made against.
#[derive(Clone, Debug)]
pub struct ApiV3Client {
    base_url: String,
}

impl Default for ApiV3Client {
    fn default() -> (r: Self)
        ensures
            r.base_url_spec() == ApiV3Client::default_base_url_spec(),
    {
        ApiV3Client { base_url: ApiV3Client::default_base_url() }
    }
}

impl ApiV3Client {
    /// The base URL used when none is given.
    pub open spec fn default_base_url_spec() -> Seq<char> {
        "https://api-v3.raydium.io"@
    }

    /// The view of this client's base URL.
    pub closed spec fn base_url_spec(&self) -> Seq<char> {
        self.base_url@
    }

    /// The base URL used when none is given.
    pub fn default_base_url() -> (r: String)
        ensures
            r@ == Self::default_base_url_spec(),
    {
        String::from_str("https://api-v3.raydium.io")
    }

    /// A client against the given base URL, or against the default one.
    pub fn new(base_url: Option<String>) -> (r: Self)
        ensures
            (base_url matches Some(u) ==> r.base_url_spec() == u@),
            (base_url is None ==> r.base_url_spec() == Self::default_base_url_spec()),
    {
        match base_url {
            Some(u) => ApiV3Client { base_url: u },
            None => ApiV3Client { base_url: Self::default_base_url() },
        }
    }

    /// The base URL this client's requests are made against.
    pub fn base_url(&self) -> (r: &String)
        ensures
            r@ == self.base_url_spec(),
    {
        &self.base_url
    }
}

/// The error report the API sends in place of a payload.
#[derive(Clone, Debug)]
pub struct ApiV3ErrorResponse {
    pub id: String,
    pub success: bool,
    pub msg: String,
}

impl ApiV3ErrorResponse {
    /// The report as one line of text.
    pub fn message(&self) -> (r: String)
        ensures
            r@ == "Received error response from API: "@ + self.msg@,
    {
        String::from_str("Received error response from API: ").concat(self.msg.as_str())
    }
}

/// The envelope every API response arrives in.
#[derive(Clone, Debug)]
pub struct ApiV3Response<T> {
    pub id: String,
    pub success: bool,
    pub data: T,
}

impl<T> ApiV3Response<T> {
    /// The payload of a successful response; an unsuccessful envelope
    /// carries no usable payload and reports malformed data.
    pub fn require_success(self) -> (r: Result<T, SwapError>)
        ensures
            self.success ==> r == Ok::<T, SwapError>(self.data),
            !self.success ==> r == Err::<T, SwapError>(SwapError::MalformedAccountData),
    {
        if self.success {
            Ok(self.data)
        } else {
            Err(SwapError::MalformedAccountData)
        }
    }
}

/// One page of a pool listing.
#[derive(Clone, Debug)]
pub struct ApiV3PoolsPage<T> {
    pub count: u64,
    pub has_next_page: bool,
    pub pools: Vec<T>,
}

/// The parameters of a pool-listing request.
#[derive(Clone, Debug)]
pub struct PoolFetchParams {
    pub pool_type: PoolType,
    pub pool_sort: PoolSort,
    pub sort_type: PoolSortOrder,
    pub page_size: u16,
    pub page: u16,
}

impl Default for PoolFetchParams {
    fn default() -> (r: Self)
        ensures
            r == (PoolFetchParams {
                pool_type: PoolType::All,
                pool_sort: PoolSort::Liquidity,
                sort_type: PoolSortOrder::Descending,
                page_size: 0u16,
                page: 0u16,
            }),
    {
        PoolFetchParams {
            pool_type: PoolType::All,
            pool_sort: PoolSort::Liquidity,
            sort_type: PoolSortOrder::Descending,
            page_size: 0,
            page: 0,
        }
    }
}

/// The kind of pools a listing asks for.
#[derive(Clone, Copy, Debug, PartialEq, Eq, Structural)]
pub enum PoolType {
    All,
    Standard,
    Concentrated,
    AllFarm,
    StandardFarm,
    ConcentratedFarm,
}

impl Default for PoolType {
    fn default() -> (r: Self)
        ensures
            r == PoolType::All,
    {
        PoolType::All
    }
}

impl PoolType {
    /// The value naming this kind in a query string.
    pub open spec fn query_name_spec(&self) -> Seq<char> {
        match self {
            PoolType::All => "all"@,
            PoolType::Standard => "standard"@,
            PoolType::Concentrated => "concentrated"@,
            PoolType::AllFarm => "allFarm"@,
            PoolType::StandardFarm => "standardFarm"@,
            PoolType::ConcentratedFarm => "concentratedFarm"@,
        }
    }

    /// The value naming this kind in a query string.
    pub fn query_name(&self) -> (r: String)
        ensures
            r@ == self.query_name_spec(),
    {
        match self {
            PoolType::All => String::from_str("all"),
            PoolType::Standard => String::from_str("standard"),
            PoolType::Concentrated => String::from_str("concentrated"),
            PoolType::AllFarm => String::from_str("allFarm"),
            PoolType::StandardFarm => String::from_str("standardFarm"),
            PoolType::ConcentratedFarm => String::from_str("concentratedFarm"),
        }
    }
}

/// The figure a pool listing is ordered by.
#[derive(Clone, Copy, Debug, PartialEq, Eq, Structural)]
pub enum PoolSort {
    Liquidity,
    Volume24h,
    Volume7d,
    Volume30d,
    Fee24h,
    Fee7d,
    Fee30d,
    Apr24h,
    Apr7d,
    Apr30d,
}

impl Default for PoolSort {
    fn default() -> (r: Self)
        ensures
            r == PoolSort::Liquidity,
    {
        PoolSort::Liquidity
    }
}

impl PoolSort {
    /// The value naming this ordering in a query string.
    pub open spec fn query_name_spec(&self) -> Seq<char> {
        match self {
            PoolSort::Liquidity => "liquidity"@,
            PoolSort::Volume24h => "volume24h"@,
            PoolSort::Volume7d => "volume7d"@,
            PoolSort::Volume30d => "volume30d"@,
            PoolSort::Fee24h => "fee24h"@,
            PoolSort::Fee7d => "fee7d"@,
            PoolSort::Fee30d => "fee30d"@,
            PoolSort::Apr24h => "apr24h"@,
            PoolSort::Apr7d => "apr7d"@,
            PoolSort::Apr30d => "apr30d"@,
        }
    }

    /// The value naming this ordering in a query string.
    pub fn query_name(&self) -> (r: String)
        ensures
            r@ == self.query_name_spec(),
    {
        match self {
            PoolSort::Liquidity => String::from_str("liquidity"),
            PoolSort::Volume24h => String::from_str("volume24h"),
            PoolSort::Volume7d => String::from_str("volume7d"),
            PoolSort::Volume30d => String::from_str("volume30d"),
            PoolSort::Fee24h => String::from_str("fee24h"),
            PoolSort::Fee7d => String::from_str("fee7d"),
            PoolSort::Fee30d => String::from_str("fee30d"),
            PoolSort::Apr24h => String::from_str("apr24h"),
            PoolSort::Apr7d => String::from_str("apr7d"),
            PoolSort::Apr30d => String::from_str("apr30d"),
        }
    }
}

/// Whether a listing is ordered ascending or descending.
#[derive(Clone, Copy, Debug, PartialEq, Eq, Structural)]
pub enum PoolSortOrder {
    Ascending,
    Descending,
}

impl Default for PoolSortOrder {
    fn default() -> (r: Self)
        ensures
            r == PoolSortOrder::Descending,
    {
        PoolSortOrder::Descending
    }
}

impl PoolSortOrder {
    /// The value naming this order in a query string.
    pub open spec fn query_name_spec(&self) -> Seq<char> {
        match self {
            PoolSortOrder::Ascending => "asc"@,
            PoolSortOrder::Descending => "desc"@,
        }
    }

    /// The value naming this order in a query string.
    pub fn query_name(&self) -> (r: String)
        ensures
            r@ == self.query_name_spec(),
    {
        match self {
            PoolSortOrder::Ascending => String::from_str("asc"),
            PoolSortOrder::Descending => String::from_str("desc"),
        }
    }
}

} // verus!
