use vstd::prelude::*;
use crate::addr_map::AddrMap;

verus! {

/// Scale shared by all stored prices: thirty decimal places, so that
/// cross-token arithmetic is precision-safe.
pub const PRICE_PRECISION: u128 = 1_000_000_000_000_000_000_000_000_000_000u128;

/// Fixed precision of the cumulative-delta accumulators.
pub const CUMULATIVE_DELTA_PRECISION: u128 = 10_000_000u128;

/// Basis-point divisor: spreads and deviations are integer fractions of
/// this.
pub const BASIS_POINTS_DIVISOR: u128 = 10_000u128;

/// Upper bound on a configured price duration.
pub const MAX_PRICE_DURATION: u64 = 1_800_000_000_000u64;

/// Governance-controlled tolerances and anchors.
#[derive(Debug)]
pub struct Config {
    pub price_duration: u64,
    pub max_price_update_delay: u64,
    pub min_block_interval: u64,
    pub max_deviation_basis_points: u128,
    pub fast_price_events: String,
    pub token_manager: String,
}

/// Per-token deviation record: the last reference observation and the
/// cumulative drift accumulators of the current time bucket.
#[derive(Clone, Copy, PartialEq, Eq, Structural, Debug)]
pub struct PriceDataItem {
    pub ref_price: u128,
    pub ref_time: u64,
    pub cumulative_ref_delta: u128,
    pub cumulative_fast_delta: u128,
}

impl Default for PriceDataItem {
    fn default() -> (r: Self)
        ensures
            r == (PriceDataItem { ref_price: 0, ref_time: 0, cumulative_ref_delta: 0, cumulative_fast_delta: 0 }),
    {
        PriceDataItem { ref_price: 0, ref_time: 0, cumulative_ref_delta: 0, cumulative_fast_delta: 0 }
    }
}

/// Spreads applied when the fast feed is inactive or the chain looks
/// broken, in basis points.
#[derive(Clone, Copy, PartialEq, Eq, Structural, Debug)]
pub struct SpreadBasisPoint {
    pub spread_basis_points_if_inactive: u128,
    pub spread_basis_points_if_chain_error: u128,
}

impl Default for SpreadBasisPoint {
    fn default() -> (r: Self)
        ensures
            r == (SpreadBasisPoint { spread_basis_points_if_inactive: 0, spread_basis_points_if_chain_error: 0 }),
    {
        SpreadBasisPoint { spread_basis_points_if_inactive: 0, spread_basis_points_if_chain_error: 0 }
    }
}

/// The freshness watermark: when and at which block height the last
/// admitted update arrived.
#[derive(Clone, Copy, PartialEq, Eq, Structural, Debug)]
pub struct LastUpdated {
    pub last_updated_at: u64,
    pub last_updated_block: u64,
}

impl Default for LastUpdated {
    fn default() -> (r: Self)
        ensures
            r == (LastUpdated { last_updated_at: 0, last_updated_block: 0 }),
    {
        LastUpdated { last_updated_at: 0, last_updated_block: 0 }
    }
}

/// One registry entry: a token and its decimal precision. The position
/// in the registry maps packed price slots to tokens.
#[derive(Debug)]
pub struct TokenData {
    pub token: String,
    pub token_precision: u128,
}

impl TokenData {
    pub fn new(token: String, token_precision: u128) -> (r: Self)
        ensures
            r.token == token,
            r.token_precision == token_precision,
    {
        TokenData { token, token_precision }
    }

    /// A structurally fresh copy.
    pub fn duplicate(&self) -> (r: Self)
        ensures
            r == *self,
    {
        TokenData { token: self.token.clone(), token_precision: self.token_precision }
    }
}

/// Position-router bookkeeping consumed by the batch-execution entry
/// point; supplied by the host.
#[derive(Clone, Copy, PartialEq, Eq, Structural, Debug)]
pub struct PositionRouterState {
    pub increase_position_request_keys_start: u128,
    pub decrease_position_request_keys_start: u128,
}

/// The block context an operation runs in: height and time (seconds).
#[derive(Clone, Copy, PartialEq, Eq, Structural, Debug)]
pub struct BlockEnv {
    pub height: u64,
    pub time: u64,
}

/// The mathematical model of a [`Config`].
pub ghost struct ConfigView {
    pub price_duration: u64,
    pub max_price_update_delay: u64,
    pub min_block_interval: u64,
    pub max_deviation_basis_points: u128,
    pub fast_price_events: Seq<char>,
    pub token_manager: Seq<char>,
}

impl View for Config {
    type V = ConfigView;

    open spec fn view(&self) -> ConfigView {
        ConfigView {
            price_duration: self.price_duration,
            max_price_update_delay: self.max_price_update_delay,
            min_block_interval: self.min_block_interval,
            max_deviation_basis_points: self.max_deviation_basis_points,
            fast_price_events: self.fast_price_events@,
            token_manager: self.token_manager@,
        }
    }
}

impl Config {
    /// A structurally fresh copy.
    pub fn duplicate(&self) -> (r: Self)
        ensures
            r@ == self@,
    {
        Config {
            price_duration: self.price_duration,
            max_price_update_delay: self.max_price_update_delay,
            min_block_interval: self.min_block_interval,
            max_deviation_basis_points: self.max_deviation_basis_points,
            fast_price_events: self.fast_price_events.clone(),
            token_manager: self.token_manager.clone(),
        }
    }
}

/// The mathematical model of one registry entry.
pub ghost struct TokenDataView {
    pub token: Seq<char>,
    pub token_precision: u128,
}

impl View for TokenData {
    type V = TokenDataView;

    open spec fn view(&self) -> TokenDataView {
        TokenDataView { token: self.token@, token_precision: self.token_precision }
    }
}

/// The whole persistent store of the fast price feed, as one explicit
/// value. Every operation of the feed receives it; the host owns the
/// transactional boundary around each operation.
pub struct FeedState {
    pub gov: String,
    pub token_manager: String,
    pub vault_address: String,
    pub is_initialized: bool,
    pub min_auth: u128,
    pub config: Config,
    pub spread_basis_point: SpreadBasisPoint,
    pub spread_enabled: bool,
    pub max_time_deviation: u64,
    pub price_data_interval: u64,
    pub last_updated: LastUpdated,
    pub token_data: Vec<TokenData>,
    pub is_updater: AddrMap<bool>,
    pub is_signer: AddrMap<bool>,
    pub prices: AddrMap<u128>,
    pub price_data: AddrMap<PriceDataItem>,
    pub max_cumulative_delta_diffs: AddrMap<u128>,
    pub disable_fast_price_votes: AddrMap<bool>,
    pub disable_fast_price_vote_count: u128,
}

/// The mathematical model of the store.
pub ghost struct FeedView {
    pub gov: Seq<char>,
    pub token_manager: Seq<char>,
    pub vault_address: Seq<char>,
    pub is_initialized: bool,
    pub min_auth: u128,
    pub config: ConfigView,
    pub spread_basis_point: SpreadBasisPoint,
    pub spread_enabled: bool,
    pub max_time_deviation: u64,
    pub price_data_interval: u64,
    pub last_updated: LastUpdated,
    pub token_data: Seq<TokenDataView>,
    pub is_updater: Map<Seq<char>, bool>,
    pub is_signer: Map<Seq<char>, bool>,
    pub prices: Map<Seq<char>, u128>,
    pub price_data: Map<Seq<char>, PriceDataItem>,
    pub max_cumulative_delta_diffs: Map<Seq<char>, u128>,
    pub disable_fast_price_votes: Map<Seq<char>, bool>,
    pub disable_fast_price_vote_count: u128,
}

impl View for FeedState {
    type V = FeedView;

    open spec fn view(&self) -> FeedView {
        FeedView {
            gov: self.gov@,
            token_manager: self.token_manager@,
            vault_address: self.vault_address@,
            is_initialized: self.is_initialized,
            min_auth: self.min_auth,
            config: self.config@,
            spread_basis_point: self.spread_basis_point,
            spread_enabled: self.spread_enabled,
            max_time_deviation: self.max_time_deviation,
            price_data_interval: self.price_data_interval,
            last_updated: self.last_updated,
            token_data: tokens_view(self.token_data@),
            is_updater: self.is_updater.as_map(),
            is_signer: self.is_signer.as_map(),
            prices: self.prices.as_map(),
            price_data: self.price_data.as_map(),
            max_cumulative_delta_diffs: self.max_cumulative_delta_diffs.as_map(),
            disable_fast_price_votes: self.disable_fast_price_votes.as_map(),
            disable_fast_price_vote_count: self.disable_fast_price_vote_count,
        }
    }
}

/// The models of a registry's entries, in order.
pub open spec fn tokens_view(td: Seq<TokenData>) -> Seq<TokenDataView> {
    Seq::new(td.len(), |i: int| td[i]@)
}

/// The zero deviation record a token starts from.
pub open spec fn default_price_data() -> PriceDataItem {
    PriceDataItem { ref_price: 0, ref_time: 0, cumulative_ref_delta: 0, cumulative_fast_delta: 0 }
}

impl FeedView {
    /// Stored fast price of `token`; zero until first written.
    pub open spec fn price_of(self, token: Seq<char>) -> u128 {
        if self.prices.contains_key(token) {
            self.prices[token]
        } else {
            0
        }
    }

    /// Stored deviation record of `token`; zero until first written.
    pub open spec fn data_of(self, token: Seq<char>) -> PriceDataItem {
        if self.price_data.contains_key(token) {
            self.price_data[token]
        } else {
            default_price_data()
        }
    }

    /// Configured cumulative-delta ceiling of `token`; zero by default.
    pub open spec fn max_delta_diff_of(self, token: Seq<char>) -> u128 {
        if self.max_cumulative_delta_diffs.contains_key(token) {
            self.max_cumulative_delta_diffs[token]
        } else {
            0
        }
    }

    /// Whether `account` is an active signer.
    pub open spec fn signer_of(self, account: Seq<char>) -> bool {
        self.is_signer.contains_key(account) && self.is_signer[account]
    }

    /// Whether `account` is an active updater.
    pub open spec fn updater_of(self, account: Seq<char>) -> bool {
        self.is_updater.contains_key(account) && self.is_updater[account]
    }

    /// Whether `account` currently votes to disable the fast price.
    pub open spec fn vote_of(self, account: Seq<char>) -> bool {
        self.disable_fast_price_votes.contains_key(account)
            && self.disable_fast_price_votes[account]
    }
}

impl FeedState {
    /// Well-formed: the per-key maps hold each key once, and the running
    /// vote count equals the number of standing disable votes.
    pub open spec fn wf(self) -> bool {
        &&& self.is_updater.wf()
        &&& self.is_signer.wf()
        &&& self.prices.wf()
        &&& self.price_data.wf()
        &&& self.max_cumulative_delta_diffs.wf()
        &&& self.disable_fast_price_votes.wf()
        &&& self.disable_fast_price_vote_count == self.disable_fast_price_votes.true_count()
    }

    /// The empty store every field of which holds its lazy default.
    pub fn new() -> (r: Self)
        ensures
            r.wf(),
            r@.gov == Seq::<char>::empty(),
            r@.token_manager == Seq::<char>::empty(),
            r@.vault_address == Seq::<char>::empty(),
            !r@.is_initialized,
            r@.min_auth == 0,
            r@.config.price_duration == 0,
            r@.config.max_price_update_delay == 0,
            r@.config.min_block_interval == 0,
            r@.config.max_deviation_basis_points == 0,
            r@.spread_basis_point == (SpreadBasisPoint {
                spread_basis_points_if_inactive: 0,
                spread_basis_points_if_chain_error: 0,
            }),
            !r@.spread_enabled,
            r@.max_time_deviation == 0,
            r@.price_data_interval == 0,
            r@.last_updated == (LastUpdated { last_updated_at: 0, last_updated_block: 0 }),
            r@.token_data.len() == 0,
            r@.is_updater == Map::<Seq<char>, bool>::empty(),
            r@.is_signer == Map::<Seq<char>, bool>::empty(),
            r@.prices == Map::<Seq<char>, u128>::empty(),
            r@.price_data == Map::<Seq<char>, PriceDataItem>::empty(),
            r@.max_cumulative_delta_diffs == Map::<Seq<char>, u128>::empty(),
            r@.disable_fast_price_votes == Map::<Seq<char>, bool>::empty(),
            r@.disable_fast_price_vote_count == 0,
    {
        FeedState {
            gov: String::new(),
            token_manager: String::new(),
            vault_address: String::new(),
            is_initialized: false,
            min_auth: 0,
            config: Config {
                price_duration: 0,
                max_price_update_delay: 0,
                min_block_interval: 0,
                max_deviation_basis_points: 0,
                fast_price_events: String::new(),
                token_manager: String::new(),
            },
            spread_basis_point: SpreadBasisPoint {
                spread_basis_points_if_inactive: 0,
                spread_basis_points_if_chain_error: 0,
            },
            spread_enabled: false,
            max_time_deviation: 0,
            price_data_interval: 0,
            last_updated: LastUpdated { last_updated_at: 0, last_updated_block: 0 },
            token_data: Vec::new(),
            is_updater: AddrMap::new(),
            is_signer: AddrMap::new(),
            prices: AddrMap::new(),
            price_data: AddrMap::new(),
            max_cumulative_delta_diffs: AddrMap::new(),
            disable_fast_price_votes: AddrMap::new(),
            disable_fast_price_vote_count: 0,
        }
    }

    /// A structurally fresh store denoting the same state.
    pub fn duplicate(&self) -> (r: Self)
        ensures
            r@ == self@,
            r.wf() <==> self.wf(),
    {
        let n = self.token_data.len();
        let mut token_data: Vec<TokenData> = Vec::new();
        let mut i: usize = 0;
        while i < n
            invariant
                n == self.token_data@.len(),
                i <= n,
                token_data@.len() == i,
                forall|j: int| 0 <= j < i ==> token_data@[j] == self.token_data@[j],
            decreases n - i,
        {
            token_data.push(self.token_data[i].duplicate());
            i = i + 1;
        }
        let r = FeedState {
            gov: self.gov.clone(),
            token_manager: self.token_manager.clone(),
            vault_address: self.vault_address.clone(),
            is_initialized: self.is_initialized,
            min_auth: self.min_auth,
            config: self.config.duplicate(),
            spread_basis_point: self.spread_basis_point,
            spread_enabled: self.spread_enabled,
            max_time_deviation: self.max_time_deviation,
            price_data_interval: self.price_data_interval,
            last_updated: self.last_updated,
            token_data,
            is_updater: self.is_updater.duplicate(),
            is_signer: self.is_signer.duplicate(),
            prices: self.prices.duplicate(),
            price_data: self.price_data.duplicate(),
            max_cumulative_delta_diffs: self.max_cumulative_delta_diffs.duplicate(),
            disable_fast_price_votes: self.disable_fast_price_votes.duplicate(),
            disable_fast_price_vote_count: self.disable_fast_price_vote_count,
        };
        proof {
            assert(r@.token_data =~= self@.token_data);
            assert(r@ =~= self@);
        }
        r
    }
}

} // verus!
