use vstd::prelude::*;
use crate::admin::{
    init_post, initialize_post, set_fast_price_events_post, set_is_spread_enabled_post,
    set_last_updated_at_post, set_max_cumulative_delta_diffs_post,
    set_max_deviation_basis_points_post, set_max_price_update_delay_post,
    set_max_time_deviation_post, set_min_authorizations_post, set_min_block_interval_post,
    set_price_data_interval_post, set_price_duration_post, set_signer_post,
    set_spread_basis_points_if_chain_error_post, set_spread_basis_points_if_inactive_post,
    set_token_manager_post, set_tokens_post, set_updater_post, set_vault_price_feed_post,
};
use crate::admin;
use crate::errors::ContractError;
use crate::ingest;
use crate::ingest::{
    set_compacted_prices_post, set_prices_post, set_prices_with_bits_and_execute_post,
    set_prices_with_bits_post,
};
use crate::msg::{ExecuteMsg, ExecuteOutcome, QueryAnswer, QueryMsg};
use crate::resolve;
use crate::resolve::{favor_fast_price_spec, get_price_spec};
use crate::state::{tokens_view, BlockEnv, FeedState, FeedView, TokenData};
use crate::votes;
use crate::votes::{disable_fast_price_post, enable_fast_price_post};

verus! {

/// A command outcome stripped to success or failure.
pub open spec fn unit_of(r: Result<ExecuteOutcome, ContractError>) -> Result<(), ContractError> {
    match r {
        Ok(_) => Ok(()),
        Err(e) => Err(e),
    }
}

/// A command outcome read as the batch-execution index pair.
pub open spec fn pair_of(r: Result<ExecuteOutcome, ContractError>) -> Result<
    (u128, u128),
    ContractError,
> {
    match r {
        Ok(
            ExecuteOutcome::BatchExecution {
                end_index_for_increase_positions,
                end_index_for_decrease_positions,
            },
        ) => Ok((end_index_for_increase_positions, end_index_for_decrease_positions)),
        Ok(ExecuteOutcome::Done) => Ok((0, 0)),
        Err(e) => Err(e),
    }
}

/// The dispatch table's contract: each command behaves exactly as its
/// handler promises, and only the batch-execution command returns
/// anything beyond success.
pub open spec fn execute_post(
    pre: FeedView,
    post: FeedView,
    sender: Seq<char>,
    block: BlockEnv,
    msg: ExecuteMsg,
    r: Result<ExecuteOutcome, ContractError>,
) -> bool {
    match msg {
        ExecuteMsg::Initialize { min_auth, signers, updaters } => initialize_post(
            pre,
            post,
            sender,
            min_auth,
            signers@,
            updaters@,
            unit_of(r),
        ) && (r is Ok ==> r->Ok_0 == ExecuteOutcome::Done),
        ExecuteMsg::SetSigner { account, is_active } => set_signer_post(
            pre,
            post,
            sender,
            account@,
            is_active,
            unit_of(r),
        ) && (r is Ok ==> r->Ok_0 == ExecuteOutcome::Done),
        ExecuteMsg::SetUpdater { account, is_active } => set_updater_post(
            pre,
            post,
            sender,
            account@,
            is_active,
            unit_of(r),
        ) && (r is Ok ==> r->Ok_0 == ExecuteOutcome::Done),
        ExecuteMsg::SetFastPriceEvents { fast_price_events } => set_fast_price_events_post(
            pre,
            post,
            sender,
            fast_price_events@,
            unit_of(r),
        ) && (r is Ok ==> r->Ok_0 == ExecuteOutcome::Done),
        ExecuteMsg::SetVaultPriceFeed { vault_price_feed } => set_vault_price_feed_post(
            pre,
            post,
            sender,
            vault_price_feed@,
            unit_of(r),
        ) && (r is Ok ==> r->Ok_0 == ExecuteOutcome::Done),
        ExecuteMsg::SetMaxTimeDeviation { max_time_deviation } => set_max_time_deviation_post(
            pre,
            post,
            sender,
            max_time_deviation,
            unit_of(r),
        ) && (r is Ok ==> r->Ok_0 == ExecuteOutcome::Done),
        ExecuteMsg::SetPriceDuration { price_duration } => set_price_duration_post(
            pre,
            post,
            sender,
            price_duration,
            unit_of(r),
        ) && (r is Ok ==> r->Ok_0 == ExecuteOutcome::Done),
        ExecuteMsg::SetMaxPriceUpdateDelay { max_price_update_delay } => set_max_price_update_delay_post(
            pre,
            post,
            sender,
            max_price_update_delay,
            unit_of(r),
        ) && (r is Ok ==> r->Ok_0 == ExecuteOutcome::Done),
        ExecuteMsg::SetSpreadBasisPointsIfInactive {
            spread_basis_points_if_inactive,
        } => set_spread_basis_points_if_inactive_post(
            pre,
            post,
            sender,
            spread_basis_points_if_inactive,
            unit_of(r),
        ) && (r is Ok ==> r->Ok_0 == ExecuteOutcome::Done),
        ExecuteMsg::SetSpreadBasisPointsIfChainError {
            spread_basis_points_if_chain_error,
        } => set_spread_basis_points_if_chain_error_post(
            pre,
            post,
            sender,
            spread_basis_points_if_chain_error,
            unit_of(r),
        ) && (r is Ok ==> r->Ok_0 == ExecuteOutcome::Done),
        ExecuteMsg::SetMinBlockInterval { min_block_interval } => set_min_block_interval_post(
            pre,
            post,
            sender,
            min_block_interval,
            unit_of(r),
        ) && (r is Ok ==> r->Ok_0 == ExecuteOutcome::Done),
        ExecuteMsg::SetIsSpreadEnabled { spread_enabled } => set_is_spread_enabled_post(
            pre,
            post,
            sender,
            spread_enabled,
            unit_of(r),
        ) && (r is Ok ==> r->Ok_0 == ExecuteOutcome::Done),
        ExecuteMsg::SetLastUpdatedAt { last_updated_at } => set_last_updated_at_post(
            pre,
            post,
            sender,
            last_updated_at,
            unit_of(r),
        ) && (r is Ok ==> r->Ok_0 == ExecuteOutcome::Done),
        ExecuteMsg::SetTokenManager { token_manager } => set_token_manager_post(
            pre,
            post,
            sender,
            token_manager@,
            unit_of(r),
        ) && (r is Ok ==> r->Ok_0 == ExecuteOutcome::Done),
        ExecuteMsg::SetMaxDeviationBasisPoints {
            max_deviation_basis_points,
        } => set_max_deviation_basis_points_post(
            pre,
            post,
            sender,
            max_deviation_basis_points,
            unit_of(r),
        ) && (r is Ok ==> r->Ok_0 == ExecuteOutcome::Done),
        ExecuteMsg::SetMaxCumulativeDeltaDiffs {
            tokens,
            max_cumulative_delta_diffs,
        } => set_max_cumulative_delta_diffs_post(
            pre,
            post,
            sender,
            tokens@,
            max_cumulative_delta_diffs@,
            unit_of(r),
        ) && (r is Ok ==> r->Ok_0 == ExecuteOutcome::Done),
        ExecuteMsg::SetPriceDataInterval { price_data_interval } => set_price_data_interval_post(
            pre,
            post,
            sender,
            price_data_interval,
            unit_of(r),
        ) && (r is Ok ==> r->Ok_0 == ExecuteOutcome::Done),
        ExecuteMsg::SetMinAuthorizations { min_authorizations } => set_min_authorizations_post(
            pre,
            post,
            sender,
            min_authorizations,
            unit_of(r),
        ) && (r is Ok ==> r->Ok_0 == ExecuteOutcome::Done),
        ExecuteMsg::SetTokens { tokens, token_precision } => set_tokens_post(
            pre,
            post,
            sender,
            tokens@,
            token_precision@,
            unit_of(r),
        ) && (r is Ok ==> r->Ok_0 == ExecuteOutcome::Done),
        ExecuteMsg::SetPrices { tokens, prices, ref_prices, timestamp } => set_prices_post(
            pre,
            post,
            sender,
            block,
            tokens@,
            prices@,
            ref_prices@,
            timestamp,
            unit_of(r),
        ) && (r is Ok ==> r->Ok_0 == ExecuteOutcome::Done),
        ExecuteMsg::SetCompactedPrices {
            price_bit_array,
            ref_prices,
            timestamp,
        } => set_compacted_prices_post(
            pre,
            post,
            block,
            price_bit_array@,
            ref_prices@,
            timestamp,
            unit_of(r),
        ) && (r is Ok ==> r->Ok_0 == ExecuteOutcome::Done),
        ExecuteMsg::SetPricesWithBits { price_bits, ref_prices, timestamp } => set_prices_with_bits_post(
            pre,
            post,
            block,
            price_bits,
            ref_prices@,
            timestamp,
            unit_of(r),
        ) && (r is Ok ==> r->Ok_0 == ExecuteOutcome::Done),
        ExecuteMsg::SetPricesWithBitsAndExecute {
            sender: submitted_sender,
            position_router,
            price_bits,
            ref_prices,
            timestamp,
            end_index_for_increase_positions,
            end_index_for_decrease_positions,
            max_increase_positions,
            max_decrease_positions,
        } => set_prices_with_bits_and_execute_post(
            pre,
            post,
            submitted_sender@,
            block,
            position_router,
            price_bits,
            ref_prices@,
            timestamp,
            end_index_for_increase_positions,
            end_index_for_decrease_positions,
            max_increase_positions,
            max_decrease_positions,
            pair_of(r),
        ) && (r is Ok ==> r->Ok_0 is BatchExecution),
        ExecuteMsg::DisableFastPrice => disable_fast_price_post(pre, post, sender, unit_of(r)) && (
        r is Ok ==> r->Ok_0 == ExecuteOutcome::Done),
        ExecuteMsg::EnableFastPrice => enable_fast_price_post(pre, post, sender, unit_of(r)) && (r
            is Ok ==> r->Ok_0 == ExecuteOutcome::Done),
    }
}

/// Dispatch one command against the store.
pub fn execute(state: &mut FeedState, sender: String, block: &BlockEnv, msg: ExecuteMsg) -> (r:
    Result<ExecuteOutcome, ContractError>)
    requires
        old(state).wf(),
    ensures
        final(state).wf(),
        execute_post(old(state)@, final(state)@, sender@, *block, msg, r),
{
    let outcome = match msg {
        ExecuteMsg::Initialize { min_auth, signers, updaters } => admin::initialize(
            state,
            &sender,
            min_auth,
            &signers,
            &updaters,
        ),
        ExecuteMsg::SetSigner { account, is_active } => admin::set_signer(
            state,
            &sender,
            &account,
            is_active,
        ),
        ExecuteMsg::SetUpdater { account, is_active } => admin::set_updater(
            state,
            &sender,
            &account,
            is_active,
        ),
        ExecuteMsg::SetFastPriceEvents { fast_price_events } => admin::set_fast_price_events(
            state,
            &sender,
            fast_price_events,
        ),
        ExecuteMsg::SetVaultPriceFeed { vault_price_feed } => admin::set_vault_price_feed(
            state,
            &sender,
            vault_price_feed,
        ),
        ExecuteMsg::SetMaxTimeDeviation { max_time_deviation } => admin::set_max_time_deviation(
            state,
            &sender,
            max_time_deviation,
        ),
        ExecuteMsg::SetPriceDuration { price_duration } => admin::set_price_duration(
            state,
            &sender,
            price_duration,
        ),
        ExecuteMsg::SetMaxPriceUpdateDelay {
            max_price_update_delay,
        } => admin::set_max_price_update_delay(state, &sender, max_price_update_delay),
        ExecuteMsg::SetSpreadBasisPointsIfInactive {
            spread_basis_points_if_inactive,
        } => admin::set_spread_basis_points_if_inactive(
            state,
            &sender,
            spread_basis_points_if_inactive,
        ),
        ExecuteMsg::SetSpreadBasisPointsIfChainError {
            spread_basis_points_if_chain_error,
        } => admin::set_spread_basis_points_if_chain_error(
            state,
            &sender,
            spread_basis_points_if_chain_error,
        ),
        ExecuteMsg::SetMinBlockInterval { min_block_interval } => admin::set_min_block_interval(
            state,
            &sender,
            min_block_interval,
        ),
        ExecuteMsg::SetIsSpreadEnabled { spread_enabled } => admin::set_is_spread_enabled(
            state,
            &sender,
            spread_enabled,
        ),
        ExecuteMsg::SetLastUpdatedAt { last_updated_at } => admin::set_last_updated_at(
            state,
            &sender,
            last_updated_at,
        ),
        ExecuteMsg::SetTokenManager { token_manager } => admin::set_token_manager(
            state,
            &sender,
            token_manager,
        ),
        ExecuteMsg::SetMaxDeviationBasisPoints {
            max_deviation_basis_points,
        } => admin::set_max_deviation_basis_points(state, &sender, max_deviation_basis_points),
        ExecuteMsg::SetMaxCumulativeDeltaDiffs {
            tokens,
            max_cumulative_delta_diffs,
        } => admin::set_max_cumulative_delta_diffs(
            state,
            &sender,
            &tokens,
            &max_cumulative_delta_diffs,
        ),
        ExecuteMsg::SetPriceDataInterval { price_data_interval } => admin::set_price_data_interval(
            state,
            &sender,
            price_data_interval,
        ),
        ExecuteMsg::SetMinAuthorizations { min_authorizations } => admin::set_min_authorizations(
            state,
            &sender,
            min_authorizations,
        ),
        ExecuteMsg::SetTokens { tokens, token_precision } => admin::set_tokens(
            state,
            &sender,
            &tokens,
            &token_precision,
        ),
        ExecuteMsg::SetPrices { tokens, prices, ref_prices, timestamp } => ingest::set_prices(
            state,
            &sender,
            block,
            &tokens,
            &prices,
            &ref_prices,
            timestamp,
        ),
        ExecuteMsg::SetCompactedPrices {
            price_bit_array,
            ref_prices,
            timestamp,
        } => ingest::set_compacted_prices(state, block, &price_bit_array, timestamp, &ref_prices),
        ExecuteMsg::SetPricesWithBits {
            price_bits,
            ref_prices,
            timestamp,
        } => ingest::set_prices_with_bits(state, block, &price_bits, timestamp, &ref_prices),
        ExecuteMsg::SetPricesWithBitsAndExecute {
            sender: submitted_sender,
            position_router,
            price_bits,
            ref_prices,
            timestamp,
            end_index_for_increase_positions,
            end_index_for_decrease_positions,
            max_increase_positions,
            max_decrease_positions,
        } => {
            return match ingest::set_prices_with_bits_and_execute(
                state,
                &submitted_sender,
                block,
                &position_router,
                &price_bits,
                timestamp,
                &ref_prices,
                end_index_for_increase_positions,
                end_index_for_decrease_positions,
                max_increase_positions,
                max_decrease_positions,
            ) {
                Ok((inc, dec)) => Ok(
                    ExecuteOutcome::BatchExecution {
                        end_index_for_increase_positions: inc,
                        end_index_for_decrease_positions: dec,
                    },
                ),
                Err(e) => Err(e),
            };
        },
        ExecuteMsg::DisableFastPrice => votes::disable_fast_price(state, &sender),
        ExecuteMsg::EnableFastPrice => votes::enable_fast_price(state, &sender),
    };
    match outcome {
        Ok(()) => Ok(ExecuteOutcome::Done),
        Err(e) => Err(e),
    }
}

/// The dispatch table of the read-only queries: each answer is the
/// named piece of the store, with a raw per-key read failing on a key
/// never written.
pub open spec fn query_post(
    pre: FeedView,
    msg: QueryMsg,
    r: Result<QueryAnswer, ContractError>,
) -> bool {
    match msg {
        QueryMsg::GetPrice { token, block_timestamp, ref_price, maximise } => {
            match get_price_spec(pre, token@, block_timestamp, ref_price, maximise) {
                Ok(p) => r == Ok::<QueryAnswer, ContractError>(QueryAnswer::Price(p)),
                Err(e) => r == Err::<QueryAnswer, ContractError>(e),
            }
        },
        QueryMsg::FavorFastPrice { token } => r == Ok::<QueryAnswer, ContractError>(
            QueryAnswer::Favored(favor_fast_price_spec(pre, token@)),
        ),
        QueryMsg::GetPriceData { token } => r == Ok::<QueryAnswer, ContractError>(
            QueryAnswer::PriceData(pre.data_of(token@)),
        ),
        QueryMsg::GetConfig => match r {
            Ok(QueryAnswer::Config(c)) => c@ == pre.config,
            _ => false,
        },
        QueryMsg::IsUpdater { address } => if pre.is_updater.contains_key(address@) {
            r == Ok::<QueryAnswer, ContractError>(QueryAnswer::Flag(pre.is_updater[address@]))
        } else {
            r == Err::<QueryAnswer, ContractError>(ContractError::Std)
        },
        QueryMsg::Prices { address } => if pre.prices.contains_key(address@) {
            r == Ok::<QueryAnswer, ContractError>(QueryAnswer::Amount(pre.prices[address@]))
        } else {
            r == Err::<QueryAnswer, ContractError>(ContractError::Std)
        },
        QueryMsg::PriceData { address } => if pre.price_data.contains_key(address@) {
            r == Ok::<QueryAnswer, ContractError>(QueryAnswer::PriceData(pre.price_data[address@]))
        } else {
            r == Err::<QueryAnswer, ContractError>(ContractError::Std)
        },
        QueryMsg::MaxCumulativeDeltaDiffs { address } => if pre.max_cumulative_delta_diffs.contains_key(
            address@,
        ) {
            r == Ok::<QueryAnswer, ContractError>(
                QueryAnswer::Amount(pre.max_cumulative_delta_diffs[address@]),
            )
        } else {
            r == Err::<QueryAnswer, ContractError>(ContractError::Std)
        },
        QueryMsg::IsSigner { address } => if pre.is_signer.contains_key(address@) {
            r == Ok::<QueryAnswer, ContractError>(QueryAnswer::Flag(pre.is_signer[address@]))
        } else {
            r == Err::<QueryAnswer, ContractError>(ContractError::Std)
        },
        QueryMsg::DisableFastPriceVotes { address } => if pre.disable_fast_price_votes.contains_key(
            address@,
        ) {
            r == Ok::<QueryAnswer, ContractError>(
                QueryAnswer::Flag(pre.disable_fast_price_votes[address@]),
            )
        } else {
            r == Err::<QueryAnswer, ContractError>(ContractError::Std)
        },
        QueryMsg::MinAuthorizations => r == Ok::<QueryAnswer, ContractError>(
            QueryAnswer::Amount(pre.min_auth),
        ),
        QueryMsg::MaxTimeDeviation => r == Ok::<QueryAnswer, ContractError>(
            QueryAnswer::Duration(pre.max_time_deviation),
        ),
        QueryMsg::SpreadBasisPoint => r == Ok::<QueryAnswer, ContractError>(
            QueryAnswer::SpreadBasisPoint(pre.spread_basis_point),
        ),
        QueryMsg::TokenData => match r {
            Ok(QueryAnswer::Tokens(ts)) => tokens_view(ts@) == pre.token_data,
            _ => false,
        },
        QueryMsg::DisableFastPriceVoteCount => r == Ok::<QueryAnswer, ContractError>(
            QueryAnswer::Amount(pre.disable_fast_price_vote_count),
        ),
    }
}

/// A structurally fresh copy of the registry.
fn clone_registry(td: &Vec<TokenData>) -> (r: Vec<TokenData>)
    ensures
        tokens_view(r@) == tokens_view(td@),
{
    let n = td.len();
    let mut out: Vec<TokenData> = Vec::new();
    let mut i: usize = 0;
    while i < n
        invariant
            n == td@.len(),
            i <= n,
            out@.len() == i,
            forall|j: int| 0 <= j < i ==> out@[j] == td@[j],
        decreases n - i,
    {
        out.push(td[i].duplicate());
        i = i + 1;
    }
    proof {
        assert(out@ =~= td@);
    }
    out
}

/// Answer one read-only query against the store.
pub fn query(state: &FeedState, msg: QueryMsg) -> (r: Result<QueryAnswer, ContractError>)
    requires
        state.wf(),
    ensures
        query_post(state@, msg, r),
{
    match msg {
        QueryMsg::GetPrice { token, block_timestamp, ref_price, maximise } => {
            match resolve::get_price(state, &token, block_timestamp, ref_price, maximise) {
                Ok(p) => Ok(QueryAnswer::Price(p)),
                Err(e) => Err(e),
            }
        },
        QueryMsg::FavorFastPrice { token } => Ok(
            QueryAnswer::Favored(resolve::favor_fast_price(state, &token)),
        ),
        QueryMsg::GetPriceData { token } => Ok(
            QueryAnswer::PriceData(resolve::get_price_data(state, &token)),
        ),
        QueryMsg::GetConfig => Ok(QueryAnswer::Config(state.config.duplicate())),
        QueryMsg::IsUpdater { address } => match state.is_updater.get(&address) {
            Some(flag) => Ok(QueryAnswer::Flag(flag)),
            None => Err(ContractError::Std),
        },
        QueryMsg::Prices { address } => match state.prices.get(&address) {
            Some(price) => Ok(QueryAnswer::Amount(price)),
            None => Err(ContractError::Std),
        },
        QueryMsg::PriceData { address } => match state.price_data.get(&address) {
            Some(d) => Ok(QueryAnswer::PriceData(d)),
            None => Err(ContractError::Std),
        },
        QueryMsg::MaxCumulativeDeltaDiffs { address } => match state.max_cumulative_delta_diffs.get(
            &address,
        ) {
            Some(diff) => Ok(QueryAnswer::Amount(diff)),
            None => Err(ContractError::Std),
        },
        QueryMsg::IsSigner { address } => match state.is_signer.get(&address) {
            Some(flag) => Ok(QueryAnswer::Flag(flag)),
            None => Err(ContractError::Std),
        },
        QueryMsg::DisableFastPriceVotes { address } => match state.disable_fast_price_votes.get(
            &address,
        ) {
            Some(flag) => Ok(QueryAnswer::Flag(flag)),
            None => Err(ContractError::Std),
        },
        QueryMsg::MinAuthorizations => Ok(QueryAnswer::Amount(state.min_auth)),
        QueryMsg::MaxTimeDeviation => Ok(QueryAnswer::Duration(state.max_time_deviation)),
        QueryMsg::SpreadBasisPoint => Ok(QueryAnswer::SpreadBasisPoint(state.spread_basis_point)),
        QueryMsg::TokenData => Ok(QueryAnswer::Tokens(clone_registry(&state.token_data))),
        QueryMsg::DisableFastPriceVoteCount => Ok(
            QueryAnswer::Amount(state.disable_fast_price_vote_count),
        ),
    }
}

} // verus!
