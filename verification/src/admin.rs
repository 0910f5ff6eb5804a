use vstd::prelude::*;
use crate::errors::ContractError;
use crate::roles::{is_gov, only_token_manager, only_updater};
use crate::state::{
    Config, ConfigView, FeedState, FeedView, LastUpdated, SpreadBasisPoint, TokenData,
    TokenDataView, MAX_PRICE_DURATION,
};

verus! {

/// What seeding the configuration does: a zero price duration is
/// invalid; otherwise the configuration is stored whole.
pub open spec fn init_post(
    pre: FeedView,
    post: FeedView,
    config: ConfigView,
    r: Result<(), ContractError>,
) -> bool {
    if config.price_duration == 0 {
        post == pre && r == Err::<(), ContractError>(ContractError::InvalidPriceDuration)
    } else {
        r == Ok::<(), ContractError>(()) && post == (FeedView { config, ..pre })
    }
}

/// Seed the configuration; rejected while the price duration is zero.
pub fn init(state: &mut FeedState, config: Config) -> (r: Result<(), ContractError>)
    requires
        old(state).wf(),
    ensures
        final(state).wf(),
        init_post(old(state)@, final(state)@, config@, r),
{
    if config.price_duration == 0 {
        return Err(ContractError::InvalidPriceDuration);
    }
    let ghost cv = config@;
    state.config = config;
    proof {
        assert(state@ =~= (FeedView { config: cv, ..old(state)@ }));
    }
    Ok(())
}

/// Every account of the list granted the flag, in order.
pub open spec fn grant_all(m: Map<Seq<char>, bool>, accounts: Seq<String>) -> Map<Seq<char>, bool>
    decreases accounts.len(),
{
    if accounts.len() == 0 {
        m
    } else {
        grant_all(m.insert(accounts[0]@, true), accounts.drop_first())
    }
}

proof fn lemma_grant_all_step(m: Map<Seq<char>, bool>, accounts: Seq<String>, i: int)
    requires
        0 <= i < accounts.len(),
    ensures
        grant_all(m, accounts.skip(i)) == grant_all(m.insert(accounts[i]@, true), accounts.skip(i + 1)),
{
    assert(accounts.skip(i)[0] == accounts[i]);
    assert(accounts.skip(i).drop_first() =~= accounts.skip(i + 1));
}

/// What one-time initialization does: only the governor, only once;
/// the listed signers and updaters are activated and the quorum is
/// stored.
pub open spec fn initialize_post(
    pre: FeedView,
    post: FeedView,
    sender: Seq<char>,
    min_auth: u128,
    signers: Seq<String>,
    updaters: Seq<String>,
    r: Result<(), ContractError>,
) -> bool {
    if sender != pre.gov {
        post == pre && r == Err::<(), ContractError>(ContractError::Forbidden)
    } else if pre.is_initialized {
        post == pre && r == Err::<(), ContractError>(ContractError::AlreadyInitialized)
    } else {
        r == Ok::<(), ContractError>(()) && post == (FeedView {
            is_signer: grant_all(pre.is_signer, signers),
            is_updater: grant_all(pre.is_updater, updaters),
            min_auth,
            is_initialized: true,
            ..pre
        })
    }
}

/// One-time initialization of the signer and updater sets and the
/// disable-vote quorum; fails if already run.
#[verifier::loop_isolation(false)]
pub fn initialize(
    state: &mut FeedState,
    sender: &String,
    min_auth: u128,
    signers: &Vec<String>,
    updaters: &Vec<String>,
) -> (r: Result<(), ContractError>)
    requires
        old(state).wf(),
    ensures
        final(state).wf(),
        initialize_post(old(state)@, final(state)@, sender@, min_auth, signers@, updaters@, r),
{
    if let Err(e) = is_gov(state, sender) {
        return Err(e);
    }
    if state.is_initialized {
        return Err(ContractError::AlreadyInitialized);
    }
    proof {
        assert(signers@.skip(0) =~= signers@);
        assert(updaters@.skip(0) =~= updaters@);
    }
    let n = signers.len();
    let mut i: usize = 0;
    while i < n
        invariant
            state.wf(),
            i <= n,
            state@ == (FeedView { is_signer: state@.is_signer, ..old(state)@ }),
            grant_all(old(state)@.is_signer, signers@) == grant_all(
                state@.is_signer,
                signers@.skip(i as int),
            ),
        decreases n - i,
    {
        proof {
            lemma_grant_all_step(state@.is_signer, signers@, i as int);
        }
        state.is_signer.insert(&signers[i], true);
        proof {
            assert(state@ =~= (FeedView { is_signer: state@.is_signer, ..old(state)@ }));
        }
        i = i + 1;
    }
    let ghost signers_done = state@.is_signer;
    let m = updaters.len();
    let mut j: usize = 0;
    while j < m
        invariant
            state.wf(),
            j <= m,
            state@ == (FeedView {
                is_signer: signers_done,
                is_updater: state@.is_updater,
                ..old(state)@
            }),
            grant_all(old(state)@.is_updater, updaters@) == grant_all(
                state@.is_updater,
                updaters@.skip(j as int),
            ),
        decreases m - j,
    {
        proof {
            lemma_grant_all_step(state@.is_updater, updaters@, j as int);
        }
        state.is_updater.insert(&updaters[j], true);
        proof {
            assert(state@ =~= (FeedView {
                is_signer: signers_done,
                is_updater: state@.is_updater,
                ..old(state)@
            }));
        }
        j = j + 1;
    }
    state.min_auth = min_auth;
    state.is_initialized = true;
    proof {
        assert(state@ =~= (FeedView {
            is_signer: grant_all(old(state)@.is_signer, signers@),
            is_updater: grant_all(old(state)@.is_updater, updaters@),
            min_auth,
            is_initialized: true,
            ..old(state)@
        }));
    }
    Ok(())
}

/// What toggling a signer does, governor only.
pub open spec fn set_signer_post(
    pre: FeedView,
    post: FeedView,
    sender: Seq<char>,
    account: Seq<char>,
    is_active: bool,
    r: Result<(), ContractError>,
) -> bool {
    if sender != pre.gov {
        post == pre && r == Err::<(), ContractError>(ContractError::Forbidden)
    } else {
        r == Ok::<(), ContractError>(()) && post == (FeedView {
            is_signer: pre.is_signer.insert(account, is_active),
            ..pre
        })
    }
}

/// Toggle an account's signer role.
pub fn set_signer(
    state: &mut FeedState,
    sender: &String,
    account: &String,
    is_active: bool,
) -> (r: Result<(), ContractError>)
    requires
        old(state).wf(),
    ensures
        final(state).wf(),
        set_signer_post(old(state)@, final(state)@, sender@, account@, is_active, r),
{
    if let Err(e) = is_gov(state, sender) {
        return Err(e);
    }
    state.is_signer.insert(account, is_active);
    proof {
        assert(state@ =~= (FeedView {
            is_signer: old(state)@.is_signer.insert(account@, is_active),
            ..old(state)@
        }));
    }
    Ok(())
}

/// What toggling an updater does, governor only.
pub open spec fn set_updater_post(
    pre: FeedView,
    post: FeedView,
    sender: Seq<char>,
    account: Seq<char>,
    is_active: bool,
    r: Result<(), ContractError>,
) -> bool {
    if sender != pre.gov {
        post == pre && r == Err::<(), ContractError>(ContractError::Forbidden)
    } else {
        r == Ok::<(), ContractError>(()) && post == (FeedView {
            is_updater: pre.is_updater.insert(account, is_active),
            ..pre
        })
    }
}

/// Toggle an account's updater role.
pub fn set_updater(
    state: &mut FeedState,
    sender: &String,
    account: &String,
    is_active: bool,
) -> (r: Result<(), ContractError>)
    requires
        old(state).wf(),
    ensures
        final(state).wf(),
        set_updater_post(old(state)@, final(state)@, sender@, account@, is_active, r),
{
    if let Err(e) = is_gov(state, sender) {
        return Err(e);
    }
    state.is_updater.insert(account, is_active);
    proof {
        assert(state@ =~= (FeedView {
            is_updater: old(state)@.is_updater.insert(account@, is_active),
            ..old(state)@
        }));
    }
    Ok(())
}

/// What retargeting the price-event collaborator does, governor only.
pub open spec fn set_fast_price_events_post(
    pre: FeedView,
    post: FeedView,
    sender: Seq<char>,
    fast_price_events: Seq<char>,
    r: Result<(), ContractError>,
) -> bool {
    if sender != pre.gov {
        post == pre && r == Err::<(), ContractError>(ContractError::Forbidden)
    } else {
        r == Ok::<(), ContractError>(()) && post == (FeedView {
            config: ConfigView { fast_price_events, ..pre.config },
            ..pre
        })
    }
}

/// Retarget the price-event collaborator address.
pub fn set_fast_price_events(
    state: &mut FeedState,
    sender: &String,
    fast_price_events: String,
) -> (r: Result<(), ContractError>)
    requires
        old(state).wf(),
    ensures
        final(state).wf(),
        set_fast_price_events_post(old(state)@, final(state)@, sender@, fast_price_events@, r),
{
    if let Err(e) = is_gov(state, sender) {
        return Err(e);
    }
    let ghost v = fast_price_events@;
    state.config.fast_price_events = fast_price_events;
    proof {
        assert(state@ =~= (FeedView {
            config: ConfigView { fast_price_events: v, ..old(state)@.config },
            ..old(state)@
        }));
    }
    Ok(())
}

/// What retargeting the reference-price vault does, governor only.
pub open spec fn set_vault_price_feed_post(
    pre: FeedView,
    post: FeedView,
    sender: Seq<char>,
    vault_price_feed: Seq<char>,
    r: Result<(), ContractError>,
) -> bool {
    if sender != pre.gov {
        post == pre && r == Err::<(), ContractError>(ContractError::Forbidden)
    } else {
        r == Ok::<(), ContractError>(()) && post == (FeedView {
            vault_address: vault_price_feed,
            ..pre
        })
    }
}

/// Retarget the reference-price vault address.
pub fn set_vault_price_feed(
    state: &mut FeedState,
    sender: &String,
    vault_price_feed: String,
) -> (r: Result<(), ContractError>)
    requires
        old(state).wf(),
    ensures
        final(state).wf(),
        set_vault_price_feed_post(old(state)@, final(state)@, sender@, vault_price_feed@, r),
{
    if let Err(e) = is_gov(state, sender) {
        return Err(e);
    }
    let ghost v = vault_price_feed@;
    state.vault_address = vault_price_feed;
    proof {
        assert(state@ =~= (FeedView { vault_address: v, ..old(state)@ }));
    }
    Ok(())
}

/// What setting the timestamp tolerance does, governor only.
pub open spec fn set_max_time_deviation_post(
    pre: FeedView,
    post: FeedView,
    sender: Seq<char>,
    max_time_deviation: u64,
    r: Result<(), ContractError>,
) -> bool {
    if sender != pre.gov {
        post == pre && r == Err::<(), ContractError>(ContractError::Forbidden)
    } else {
        r == Ok::<(), ContractError>(()) && post == (FeedView { max_time_deviation, ..pre })
    }
}

/// Set the tolerance around chain time for candidate timestamps.
pub fn set_max_time_deviation(
    state: &mut FeedState,
    sender: &String,
    max_time_deviation: u64,
) -> (r: Result<(), ContractError>)
    requires
        old(state).wf(),
    ensures
        final(state).wf(),
        set_max_time_deviation_post(old(state)@, final(state)@, sender@, max_time_deviation, r),
{
    if let Err(e) = is_gov(state, sender) {
        return Err(e);
    }
    state.max_time_deviation = max_time_deviation;
    proof {
        assert(state@ =~= (FeedView { max_time_deviation, ..old(state)@ }));
    }
    Ok(())
}

/// What setting the price duration does: governor only, and the
/// duration must lie below the fixed ceiling.
pub open spec fn set_price_duration_post(
    pre: FeedView,
    post: FeedView,
    sender: Seq<char>,
    price_duration: u64,
    r: Result<(), ContractError>,
) -> bool {
    if sender != pre.gov {
        post == pre && r == Err::<(), ContractError>(ContractError::Forbidden)
    } else if price_duration >= MAX_PRICE_DURATION {
        post == pre && r == Err::<(), ContractError>(ContractError::InvalidPriceDuration)
    } else {
        r == Ok::<(), ContractError>(()) && post == (FeedView {
            config: ConfigView { price_duration, ..pre.config },
            ..pre
        })
    }
}

/// Set how long a fast price stays active.
pub fn set_price_duration(state: &mut FeedState, sender: &String, price_duration: u64) -> (r:
    Result<(), ContractError>)
    requires
        old(state).wf(),
    ensures
        final(state).wf(),
        set_price_duration_post(old(state)@, final(state)@, sender@, price_duration, r),
{
    if let Err(e) = is_gov(state, sender) {
        return Err(e);
    }
    if price_duration >= MAX_PRICE_DURATION {
        return Err(ContractError::InvalidPriceDuration);
    }
    state.config.price_duration = price_duration;
    proof {
        assert(state@ =~= (FeedView {
            config: ConfigView { price_duration, ..old(state)@.config },
            ..old(state)@
        }));
    }
    Ok(())
}

/// What setting the update delay does, governor only.
pub open spec fn set_max_price_update_delay_post(
    pre: FeedView,
    post: FeedView,
    sender: Seq<char>,
    max_price_update_delay: u64,
    r: Result<(), ContractError>,
) -> bool {
    if sender != pre.gov {
        post == pre && r == Err::<(), ContractError>(ContractError::Forbidden)
    } else {
        r == Ok::<(), ContractError>(()) && post == (FeedView {
            config: ConfigView { max_price_update_delay, ..pre.config },
            ..pre
        })
    }
}

/// Set the delay after which the chain-error spread applies.
pub fn set_max_price_update_delay(
    state: &mut FeedState,
    sender: &String,
    max_price_update_delay: u64,
) -> (r: Result<(), ContractError>)
    requires
        old(state).wf(),
    ensures
        final(state).wf(),
        set_max_price_update_delay_post(
            old(state)@,
            final(state)@,
            sender@,
            max_price_update_delay,
            r,
        ),
{
    if let Err(e) = is_gov(state, sender) {
        return Err(e);
    }
    state.config.max_price_update_delay = max_price_update_delay;
    proof {
        assert(state@ =~= (FeedView {
            config: ConfigView { max_price_update_delay, ..old(state)@.config },
            ..old(state)@
        }));
    }
    Ok(())
}

/// What setting the inactivity spread does, governor only.
pub open spec fn set_spread_basis_points_if_inactive_post(
    pre: FeedView,
    post: FeedView,
    sender: Seq<char>,
    spread_basis_points_if_inactive: u128,
    r: Result<(), ContractError>,
) -> bool {
    if sender != pre.gov {
        post == pre && r == Err::<(), ContractError>(ContractError::Forbidden)
    } else {
        r == Ok::<(), ContractError>(()) && post == (FeedView {
            spread_basis_point: SpreadBasisPoint {
                spread_basis_points_if_inactive,
                ..pre.spread_basis_point
            },
            ..pre
        })
    }
}

/// Set the spread applied while the fast feed is inactive.
pub fn set_spread_basis_points_if_inactive(
    state: &mut FeedState,
    sender: &String,
    spread_basis_points_if_inactive: u128,
) -> (r: Result<(), ContractError>)
    requires
        old(state).wf(),
    ensures
        final(state).wf(),
        set_spread_basis_points_if_inactive_post(
            old(state)@,
            final(state)@,
            sender@,
            spread_basis_points_if_inactive,
            r,
        ),
{
    if let Err(e) = is_gov(state, sender) {
        return Err(e);
    }
    state.spread_basis_point.spread_basis_points_if_inactive = spread_basis_points_if_inactive;
    proof {
        assert(state@ =~= (FeedView {
            spread_basis_point: SpreadBasisPoint {
                spread_basis_points_if_inactive,
                ..old(state)@.spread_basis_point
            },
            ..old(state)@
        }));
    }
    Ok(())
}

/// What setting the chain-error spread does, governor only.
pub open spec fn set_spread_basis_points_if_chain_error_post(
    pre: FeedView,
    post: FeedView,
    sender: Seq<char>,
    spread_basis_points_if_chain_error: u128,
    r: Result<(), ContractError>,
) -> bool {
    if sender != pre.gov {
        post == pre && r == Err::<(), ContractError>(ContractError::Forbidden)
    } else {
        r == Ok::<(), ContractError>(()) && post == (FeedView {
            spread_basis_point: SpreadBasisPoint {
                spread_basis_points_if_chain_error,
                ..pre.spread_basis_point
            },
            ..pre
        })
    }
}

/// Set the spread applied once the update delay is exceeded.
pub fn set_spread_basis_points_if_chain_error(
    state: &mut FeedState,
    sender: &String,
    spread_basis_points_if_chain_error: u128,
) -> (r: Result<(), ContractError>)
    requires
        old(state).wf(),
    ensures
        final(state).wf(),
        set_spread_basis_points_if_chain_error_post(
            old(state)@,
            final(state)@,
            sender@,
            spread_basis_points_if_chain_error,
            r,
        ),
{
    if let Err(e) = is_gov(state, sender) {
        return Err(e);
    }
    state.spread_basis_point.spread_basis_points_if_chain_error =
        spread_basis_points_if_chain_error;
    proof {
        assert(state@ =~= (FeedView {
            spread_basis_point: SpreadBasisPoint {
                spread_basis_points_if_chain_error,
                ..old(state)@.spread_basis_point
            },
            ..old(state)@
        }));
    }
    Ok(())
}

/// What setting the block interval does, governor only.
pub open spec fn set_min_block_interval_post(
    pre: FeedView,
    post: FeedView,
    sender: Seq<char>,
    min_block_interval: u64,
    r: Result<(), ContractError>,
) -> bool {
    if sender != pre.gov {
        post == pre && r == Err::<(), ContractError>(ContractError::Forbidden)
    } else {
        r == Ok::<(), ContractError>(()) && post == (FeedView {
            config: ConfigView { min_block_interval, ..pre.config },
            ..pre
        })
    }
}

/// Set how many blocks must pass between admitted updates.
pub fn set_min_block_interval(
    state: &mut FeedState,
    sender: &String,
    min_block_interval: u64,
) -> (r: Result<(), ContractError>)
    requires
        old(state).wf(),
    ensures
        final(state).wf(),
        set_min_block_interval_post(old(state)@, final(state)@, sender@, min_block_interval, r),
{
    if let Err(e) = is_gov(state, sender) {
        return Err(e);
    }
    state.config.min_block_interval = min_block_interval;
    proof {
        assert(state@ =~= (FeedView {
            config: ConfigView { min_block_interval, ..old(state)@.config },
            ..old(state)@
        }));
    }
    Ok(())
}

/// What flipping the global spread flag does, governor only.
pub open spec fn set_is_spread_enabled_post(
    pre: FeedView,
    post: FeedView,
    sender: Seq<char>,
    spread_enabled: bool,
    r: Result<(), ContractError>,
) -> bool {
    if sender != pre.gov {
        post == pre && r == Err::<(), ContractError>(ContractError::Forbidden)
    } else {
        r == Ok::<(), ContractError>(()) && post == (FeedView { spread_enabled, ..pre })
    }
}

/// Force or lift the global spread over the fast price path.
pub fn set_is_spread_enabled(state: &mut FeedState, sender: &String, spread_enabled: bool) -> (r:
    Result<(), ContractError>)
    requires
        old(state).wf(),
    ensures
        final(state).wf(),
        set_is_spread_enabled_post(old(state)@, final(state)@, sender@, spread_enabled, r),
{
    if let Err(e) = is_gov(state, sender) {
        return Err(e);
    }
    state.spread_enabled = spread_enabled;
    proof {
        assert(state@ =~= (FeedView { spread_enabled, ..old(state)@ }));
    }
    Ok(())
}

/// What overriding the time watermark does, governor only; the block
/// watermark is untouched.
pub open spec fn set_last_updated_at_post(
    pre: FeedView,
    post: FeedView,
    sender: Seq<char>,
    last_updated_at: u64,
    r: Result<(), ContractError>,
) -> bool {
    if sender != pre.gov {
        post == pre && r == Err::<(), ContractError>(ContractError::Forbidden)
    } else {
        r == Ok::<(), ContractError>(()) && post == (FeedView {
            last_updated: LastUpdated { last_updated_at, ..pre.last_updated },
            ..pre
        })
    }
}

/// Override the time watermark.
pub fn set_last_updated_at(state: &mut FeedState, sender: &String, last_updated_at: u64) -> (r:
    Result<(), ContractError>)
    requires
        old(state).wf(),
    ensures
        final(state).wf(),
        set_last_updated_at_post(old(state)@, final(state)@, sender@, last_updated_at, r),
{
    if let Err(e) = is_gov(state, sender) {
        return Err(e);
    }
    state.last_updated = LastUpdated {
        last_updated_at,
        last_updated_block: state.last_updated.last_updated_block,
    };
    proof {
        assert(state@ =~= (FeedView {
            last_updated: LastUpdated { last_updated_at, ..old(state)@.last_updated },
            ..old(state)@
        }));
    }
    Ok(())
}

/// What retargeting the token manager does, token manager only.
pub open spec fn set_token_manager_post(
    pre: FeedView,
    post: FeedView,
    sender: Seq<char>,
    token_manager: Seq<char>,
    r: Result<(), ContractError>,
) -> bool {
    if sender != pre.token_manager {
        post == pre && r == Err::<(), ContractError>(ContractError::Forbidden)
    } else {
        r == Ok::<(), ContractError>(()) && post == (FeedView { token_manager, ..pre })
    }
}

/// Hand the token-manager role to another address.
pub fn set_token_manager(state: &mut FeedState, sender: &String, token_manager: String) -> (r:
    Result<(), ContractError>)
    requires
        old(state).wf(),
    ensures
        final(state).wf(),
        set_token_manager_post(old(state)@, final(state)@, sender@, token_manager@, r),
{
    if let Err(e) = only_token_manager(state, sender) {
        return Err(e);
    }
    let ghost v = token_manager@;
    state.token_manager = token_manager;
    proof {
        assert(state@ =~= (FeedView { token_manager: v, ..old(state)@ }));
    }
    Ok(())
}

/// What setting the deviation ceiling does, token manager only.
pub open spec fn set_max_deviation_basis_points_post(
    pre: FeedView,
    post: FeedView,
    sender: Seq<char>,
    max_deviation_basis_points: u128,
    r: Result<(), ContractError>,
) -> bool {
    if sender != pre.token_manager {
        post == pre && r == Err::<(), ContractError>(ContractError::Forbidden)
    } else {
        r == Ok::<(), ContractError>(()) && post == (FeedView {
            config: ConfigView { max_deviation_basis_points, ..pre.config },
            ..pre
        })
    }
}

/// Set how far the fast price may deviate before a spread applies.
pub fn set_max_deviation_basis_points(
    state: &mut FeedState,
    sender: &String,
    max_deviation_basis_points: u128,
) -> (r: Result<(), ContractError>)
    requires
        old(state).wf(),
    ensures
        final(state).wf(),
        set_max_deviation_basis_points_post(
            old(state)@,
            final(state)@,
            sender@,
            max_deviation_basis_points,
            r,
        ),
{
    if let Err(e) = only_token_manager(state, sender) {
        return Err(e);
    }
    state.config.max_deviation_basis_points = max_deviation_basis_points;
    proof {
        assert(state@ =~= (FeedView {
            config: ConfigView { max_deviation_basis_points, ..old(state)@.config },
            ..old(state)@
        }));
    }
    Ok(())
}

/// Every token of the list given its ceiling, in order.
pub open spec fn set_all_diffs(
    m: Map<Seq<char>, u128>,
    tokens: Seq<String>,
    diffs: Seq<u128>,
) -> Map<Seq<char>, u128>
    recommends
        tokens.len() == diffs.len(),
    decreases tokens.len(),
{
    if tokens.len() == 0 {
        m
    } else {
        set_all_diffs(m.insert(tokens[0]@, diffs[0]), tokens.drop_first(), diffs.drop_first())
    }
}

proof fn lemma_set_all_diffs_step(
    m: Map<Seq<char>, u128>,
    tokens: Seq<String>,
    diffs: Seq<u128>,
    i: int,
)
    requires
        tokens.len() == diffs.len(),
        0 <= i < tokens.len(),
    ensures
        set_all_diffs(m, tokens.skip(i), diffs.skip(i)) == set_all_diffs(
            m.insert(tokens[i]@, diffs[i]),
            tokens.skip(i + 1),
            diffs.skip(i + 1),
        ),
{
    assert(tokens.skip(i)[0] == tokens[i]);
    assert(diffs.skip(i)[0] == diffs[i]);
    assert(tokens.skip(i).drop_first() =~= tokens.skip(i + 1));
    assert(diffs.skip(i).drop_first() =~= diffs.skip(i + 1));
}

/// What setting per-token delta ceilings does: token manager only,
/// equal-length lists, each pair stored in order.
pub open spec fn set_max_cumulative_delta_diffs_post(
    pre: FeedView,
    post: FeedView,
    sender: Seq<char>,
    tokens: Seq<String>,
    diffs: Seq<u128>,
    r: Result<(), ContractError>,
) -> bool {
    if sender != pre.token_manager {
        post == pre && r == Err::<(), ContractError>(ContractError::Forbidden)
    } else if tokens.len() != diffs.len() {
        post == pre && r == Err::<(), ContractError>(ContractError::InvalidLength)
    } else {
        r == Ok::<(), ContractError>(()) && post == (FeedView {
            max_cumulative_delta_diffs: set_all_diffs(pre.max_cumulative_delta_diffs, tokens, diffs),
            ..pre
        })
    }
}

/// Set the ceiling on cumulative drift excess per token.
#[verifier::loop_isolation(false)]
pub fn set_max_cumulative_delta_diffs(
    state: &mut FeedState,
    sender: &String,
    tokens: &Vec<String>,
    max_cumulative_delta_diffs: &Vec<u128>,
) -> (r: Result<(), ContractError>)
    requires
        old(state).wf(),
    ensures
        final(state).wf(),
        set_max_cumulative_delta_diffs_post(
            old(state)@,
            final(state)@,
            sender@,
            tokens@,
            max_cumulative_delta_diffs@,
            r,
        ),
{
    if let Err(e) = only_token_manager(state, sender) {
        return Err(e);
    }
    let n = tokens.len();
    if max_cumulative_delta_diffs.len() != n {
        return Err(ContractError::InvalidLength);
    }
    proof {
        assert(tokens@.skip(0) =~= tokens@);
        assert(max_cumulative_delta_diffs@.skip(0) =~= max_cumulative_delta_diffs@);
    }
    let mut i: usize = 0;
    while i < n
        invariant
            state.wf(),
            i <= n,
            state@ == (FeedView {
                max_cumulative_delta_diffs: state@.max_cumulative_delta_diffs,
                ..old(state)@
            }),
            set_all_diffs(
                old(state)@.max_cumulative_delta_diffs,
                tokens@,
                max_cumulative_delta_diffs@,
            ) == set_all_diffs(
                state@.max_cumulative_delta_diffs,
                tokens@.skip(i as int),
                max_cumulative_delta_diffs@.skip(i as int),
            ),
        decreases n - i,
    {
        proof {
            lemma_set_all_diffs_step(
                state@.max_cumulative_delta_diffs,
                tokens@,
                max_cumulative_delta_diffs@,
                i as int,
            );
        }
        state.max_cumulative_delta_diffs.insert(&tokens[i], max_cumulative_delta_diffs[i]);
        proof {
            assert(state@ =~= (FeedView {
                max_cumulative_delta_diffs: state@.max_cumulative_delta_diffs,
                ..old(state)@
            }));
        }
        i = i + 1;
    }
    Ok(())
}

/// What setting the bucket width does, token manager only.
pub open spec fn set_price_data_interval_post(
    pre: FeedView,
    post: FeedView,
    sender: Seq<char>,
    price_data_interval: u64,
    r: Result<(), ContractError>,
) -> bool {
    if sender != pre.token_manager {
        post == pre && r == Err::<(), ContractError>(ContractError::Forbidden)
    } else {
        r == Ok::<(), ContractError>(()) && post == (FeedView { price_data_interval, ..pre })
    }
}

/// Set the width of the drift accumulators' time buckets.
pub fn set_price_data_interval(
    state: &mut FeedState,
    sender: &String,
    price_data_interval: u64,
) -> (r: Result<(), ContractError>)
    requires
        old(state).wf(),
    ensures
        final(state).wf(),
        set_price_data_interval_post(old(state)@, final(state)@, sender@, price_data_interval, r),
{
    if let Err(e) = only_token_manager(state, sender) {
        return Err(e);
    }
    state.price_data_interval = price_data_interval;
    proof {
        assert(state@ =~= (FeedView { price_data_interval, ..old(state)@ }));
    }
    Ok(())
}

/// What setting the quorum does, token manager only.
pub open spec fn set_min_authorizations_post(
    pre: FeedView,
    post: FeedView,
    sender: Seq<char>,
    min_authorizations: u128,
    r: Result<(), ContractError>,
) -> bool {
    if sender != pre.token_manager {
        post == pre && r == Err::<(), ContractError>(ContractError::Forbidden)
    } else {
        r == Ok::<(), ContractError>(()) && post == (FeedView {
            min_auth: min_authorizations,
            ..pre
        })
    }
}

/// Set the disable-vote quorum.
pub fn set_min_authorizations(
    state: &mut FeedState,
    sender: &String,
    min_authorizations: u128,
) -> (r: Result<(), ContractError>)
    requires
        old(state).wf(),
    ensures
        final(state).wf(),
        set_min_authorizations_post(old(state)@, final(state)@, sender@, min_authorizations, r),
{
    if let Err(e) = only_token_manager(state, sender) {
        return Err(e);
    }
    state.min_auth = min_authorizations;
    proof {
        assert(state@ =~= (FeedView { min_auth: min_authorizations, ..old(state)@ }));
    }
    Ok(())
}

/// The registry the equal-length token and precision lists describe.
pub open spec fn registry_of(tokens: Seq<String>, precisions: Seq<u128>) -> Seq<TokenDataView> {
    Seq::new(
        tokens.len(),
        |i: int| TokenDataView { token: tokens[i]@, token_precision: precisions[i] },
    )
}

/// What replacing the registry does: updater only, equal-length lists,
/// and the new registry holds the pairs in submission order.
pub open spec fn set_tokens_post(
    pre: FeedView,
    post: FeedView,
    sender: Seq<char>,
    tokens: Seq<String>,
    token_precision: Seq<u128>,
    r: Result<(), ContractError>,
) -> bool {
    if !pre.updater_of(sender) {
        post == pre && r == Err::<(), ContractError>(ContractError::Forbidden)
    } else if tokens.len() != token_precision.len() {
        post == pre && r == Err::<(), ContractError>(ContractError::InvalidLength)
    } else {
        r == Ok::<(), ContractError>(()) && post == (FeedView {
            token_data: registry_of(tokens, token_precision),
            ..pre
        })
    }
}

/// Replace the token registry wholesale, keeping submission order.
#[verifier::loop_isolation(false)]
pub fn set_tokens(
    state: &mut FeedState,
    sender: &String,
    tokens: &Vec<String>,
    token_precision: &Vec<u128>,
) -> (r: Result<(), ContractError>)
    requires
        old(state).wf(),
    ensures
        final(state).wf(),
        set_tokens_post(old(state)@, final(state)@, sender@, tokens@, token_precision@, r),
{
    if let Err(e) = only_updater(state, sender) {
        return Err(e);
    }
    let n = tokens.len();
    if token_precision.len() != n {
        return Err(ContractError::InvalidLength);
    }
    let mut token_data: Vec<TokenData> = Vec::new();
    let mut i: usize = 0;
    while i < n
        invariant
            i <= n,
            token_data@.len() == i,
            forall|j: int|
                0 <= j < i ==> token_data@[j]@ == (TokenDataView {
                    token: tokens@[j]@,
                    token_precision: token_precision@[j],
                }),
        decreases n - i,
    {
        token_data.push(TokenData::new(tokens[i].clone(), token_precision[i]));
        i = i + 1;
    }
    state.token_data = token_data;
    proof {
        assert(state@.token_data =~= registry_of(tokens@, token_precision@));
        assert(state@ =~= (FeedView {
            token_data: registry_of(tokens@, token_precision@),
            ..old(state)@
        }));
    }
    Ok(())
}

} // verus!
