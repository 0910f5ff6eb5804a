use vstd::prelude::*;
use crate::state::{Config, PositionRouterState, SpreadBasisPoint, PriceDataItem, TokenData};

verus! {

/// What instantiation carries: the initial configuration.
pub struct InstantiateMsg {
    pub config: Config,
}

/// The commands of the feed, as one tagged union. The host resolves
/// the collaborator-supplied inputs — reference prices aligned with
/// the submitted tokens or the registry, and the position router's
/// bookkeeping — before dispatching.
pub enum ExecuteMsg {
    Initialize { min_auth: u128, signers: Vec<String>, updaters: Vec<String> },
    SetSigner { account: String, is_active: bool },
    SetUpdater { account: String, is_active: bool },
    SetFastPriceEvents { fast_price_events: String },
    SetVaultPriceFeed { vault_price_feed: String },
    SetMaxTimeDeviation { max_time_deviation: u64 },
    SetPriceDuration { price_duration: u64 },
    SetMaxPriceUpdateDelay { max_price_update_delay: u64 },
    SetSpreadBasisPointsIfInactive { spread_basis_points_if_inactive: u128 },
    SetSpreadBasisPointsIfChainError { spread_basis_points_if_chain_error: u128 },
    SetMinBlockInterval { min_block_interval: u64 },
    SetIsSpreadEnabled { spread_enabled: bool },
    SetLastUpdatedAt { last_updated_at: u64 },
    SetTokenManager { token_manager: String },
    SetMaxDeviationBasisPoints { max_deviation_basis_points: u128 },
    SetMaxCumulativeDeltaDiffs { tokens: Vec<String>, max_cumulative_delta_diffs: Vec<u128> },
    SetPriceDataInterval { price_data_interval: u64 },
    SetMinAuthorizations { min_authorizations: u128 },
    SetTokens { tokens: Vec<String>, token_precision: Vec<u128> },
    SetPrices { tokens: Vec<String>, prices: Vec<u128>, ref_prices: Vec<u128>, timestamp: u64 },
    SetCompactedPrices { price_bit_array: Vec<[u8; 32]>, ref_prices: Vec<u128>, timestamp: u64 },
    SetPricesWithBits { price_bits: [u8; 32], ref_prices: Vec<u128>, timestamp: u64 },
    SetPricesWithBitsAndExecute {
        sender: String,
        position_router: PositionRouterState,
        price_bits: [u8; 32],
        ref_prices: Vec<u128>,
        timestamp: u64,
        end_index_for_increase_positions: u128,
        end_index_for_decrease_positions: u128,
        max_increase_positions: u128,
        max_decrease_positions: u128,
    },
    DisableFastPrice,
    EnableFastPrice,
}

/// What a successful command hands back to the host.
#[derive(Clone, Copy, PartialEq, Eq, Structural, Debug)]
pub enum ExecuteOutcome {
    /// Nothing beyond the state change.
    Done,
    /// The clamped end indices the host's batch-execution messages
    /// should carry.
    BatchExecution {
        end_index_for_increase_positions: u128,
        end_index_for_decrease_positions: u128,
    },
}

/// The queries of the feed.
pub enum QueryMsg {
    GetPrice { token: String, block_timestamp: u64, ref_price: u128, maximise: bool },
    FavorFastPrice { token: String },
    GetPriceData { token: String },
    GetConfig,
    IsUpdater { address: String },
    Prices { address: String },
    PriceData { address: String },
    MaxCumulativeDeltaDiffs { address: String },
    IsSigner { address: String },
    DisableFastPriceVotes { address: String },
    MinAuthorizations,
    MaxTimeDeviation,
    SpreadBasisPoint,
    TokenData,
    DisableFastPriceVoteCount,
}

/// A query's answer, as plain values the host serializes.
#[derive(Debug)]
pub enum QueryAnswer {
    Price(u128),
    Favored(bool),
    PriceData(PriceDataItem),
    Config(Config),
    Flag(bool),
    Amount(u128),
    Duration(u64),
    SpreadBasisPoint(SpreadBasisPoint),
    Tokens(Vec<TokenData>),
}

} // verus!
