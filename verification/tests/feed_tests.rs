use fast_price_feed::contract::{execute, query};
use fast_price_feed::errors::ContractError;
use fast_price_feed::ingest::set_compacted_prices;
use fast_price_feed::msg::{ExecuteMsg, QueryAnswer, QueryMsg};
use fast_price_feed::roles::{is_gov, only_signer, only_token_manager, only_updater};
use fast_price_feed::state::{BlockEnv, FeedState, TokenData, PRICE_PRECISION};
use fast_price_feed::votes::{disable_fast_price, enable_fast_price};
use fast_price_feed::round_feed;

fn mock_block() -> BlockEnv {
    BlockEnv {
        height: 12_345,
        time: 1_571_797_419,
    }
}

fn setup_with_gov(state: &mut FeedState) -> String {
    let gov = "gov".to_string();
    state.gov = gov.clone();
    gov
}

fn setup_with_updater(state: &mut FeedState) -> String {
    let updater = "updated".to_string();
    state.is_updater.insert(&updater, true);
    updater
}

#[test]
fn test_set_compacted_prices() {
    let mut state = FeedState::new();
    let env = mock_block();

    state.vault_address = "mock_vault_address".to_string();
    state.config.fast_price_events = "fast_price_events".to_string();
    state.config.token_manager = "toke_manager".to_string();

    state.token_data = vec![
        TokenData::new("token0".to_string(), 1),
        TokenData::new("token1".to_string(), 1),
        TokenData::new("token2".to_string(), 1),
        TokenData::new("token3".to_string(), 1),
        TokenData::new("token4".to_string(), 1),
    ];
    state.price_data_interval = 1;
    state.max_time_deviation = 1000;

    // generate prices and pack them into one wide word
    let prices: [u64; 4] = [1u64, 2u64, 3u64, 4u64];
    let mut combined_bytes = [0u8; 32];
    for (i, price) in prices.iter().enumerate() {
        combined_bytes[i * 8..(i + 1) * 8].copy_from_slice(&price.to_le_bytes());
    }

    let ref_prices = vec![0u128; 5];
    let result = set_compacted_prices(
        &mut state,
        &env,
        &vec![combined_bytes],
        env.time,
        &ref_prices,
    );
    assert!(result.is_ok());

    for i in 0..prices.len() - 1 {
        assert_eq!(
            state.prices.get(&format!("token{}", i)).unwrap(),
            prices[i] as u128 * PRICE_PRECISION
        );
    }

    // there is no price for token4
    assert_eq!(state.prices.get(&"token5".to_string()).unwrap_or(0), 0);
}

#[test]
fn test_initialize() {
    let mut state = FeedState::new();
    let sender = "sender".to_string();
    let env = mock_block();

    let min_auth = 12345u128;
    let signers = vec!["signer1".to_string(), "signer2".to_string()];
    let updaters = vec!["updater1".to_string(), "updater2".to_string()];

    // Test initialization
    state.gov = sender.clone();
    let msg = ExecuteMsg::Initialize {
        min_auth,
        signers: signers.clone(),
        updaters: updaters.clone(),
    };
    let res = execute(&mut state, sender.clone(), &env, msg);
    assert!(res.is_ok());

    // Check if signers and updaters are saved correctly
    for signer in signers.iter() {
        assert_eq!(state.is_signer.get(signer).unwrap(), true);
    }

    for updater in updaters.iter() {
        assert!(state.is_updater.get(updater).unwrap());
    }

    // Check if min_auth is saved correctly
    assert_eq!(state.min_auth, min_auth);

    // Check if the feed is marked as initialized
    assert_eq!(state.is_initialized, true);

    // Test re-initialization
    let msg = ExecuteMsg::Initialize {
        min_auth,
        signers: signers.clone(),
        updaters: updaters.clone(),
    };
    let res = execute(&mut state, sender, &env, msg);
    assert_eq!(res.unwrap_err(), ContractError::AlreadyInitialized);
}

#[test]
fn test_is_gov() {
    let mut state = FeedState::new();
    let gov_address = "governor".to_string();
    let other_address = "other".to_string();

    // Set the governor's address in the store
    state.gov = gov_address.clone();

    // Test with governor's address
    let result = is_gov(&state, &gov_address);
    assert!(result.is_ok());

    // Test with another address
    let result = is_gov(&state, &other_address);
    assert_eq!(result.unwrap_err(), ContractError::Forbidden);
}

#[test]
fn test_only_updater() {
    let mut state = FeedState::new();
    let updater_addr = "updater".to_string();
    let non_updater_addr = "non_updater".to_string();

    // Set the updater in the store
    state.is_updater.insert(&updater_addr, true);

    // Test with updater address
    assert_eq!(only_updater(&state, &updater_addr), Ok(()));

    // Test with non-updater address
    assert_eq!(
        only_updater(&state, &non_updater_addr),
        Err(ContractError::Forbidden)
    );
}

#[test]
fn test_only_signer() {
    let mut state = FeedState::new();
    let signer_addr = "signer".to_string();
    let non_signer_addr = "non_signer".to_string();

    // Set the signer in the store
    state.is_signer.insert(&signer_addr, true);

    // Test with signer address
    assert_eq!(only_signer(&state, &signer_addr), Ok(()));

    // Test with non-signer address
    assert_eq!(
        only_signer(&state, &non_signer_addr),
        Err(ContractError::Forbidden)
    );
}

#[test]
fn test_disable_fast_price() {
    let mut state = FeedState::new();
    let sender = "sender_address".to_string();

    state.is_signer.insert(&sender, true);
    let res = disable_fast_price(&mut state, &sender);
    assert!(res.is_ok());

    // Check if the vote was saved correctly
    let vote = state.disable_fast_price_votes.get(&sender).unwrap();
    assert_eq!(vote, true);
}

#[test]
fn test_enable_fast_price() {
    let mut state = FeedState::new();
    let sender = "sender_address".to_string();

    state.is_signer.insert(&sender, true);

    // should fail as already enabled
    let res = enable_fast_price(&mut state, &sender);
    assert_eq!(res.unwrap_err(), ContractError::AlreadyEnabled);

    // should work
    disable_fast_price(&mut state, &sender).unwrap();
    let res = enable_fast_price(&mut state, &sender);
    assert!(res.is_ok());

    // Check if the vote was saved correctly
    let vote = state.disable_fast_price_votes.get(&sender).unwrap();
    assert_eq!(vote, false);
}

#[test]
fn test_only_token_manager() {
    let mut state = FeedState::new();
    let token_manager_addr = "token_manager".to_string();
    let non_token_manager_addr = "non_token_manager".to_string();

    // Set the token manager in the store
    state.token_manager = token_manager_addr.clone();

    // Test with token manager address
    assert_eq!(only_token_manager(&state, &token_manager_addr), Ok(()));

    // Test with non-token manager address
    assert_eq!(
        only_token_manager(&state, &non_token_manager_addr),
        Err(ContractError::Forbidden)
    );
}

#[test]
fn test_set_signer() {
    let mut state = FeedState::new();
    let info = setup_with_gov(&mut state);
    let account = "account".to_string();
    let env = mock_block();

    let msg = ExecuteMsg::SetSigner {
        account: account.clone(),
        is_active: true,
    };
    let res = execute(&mut state, info, &env, msg);
    assert!(res.is_ok());

    let status = state.is_signer.get(&account).unwrap();
    assert!(status);
}

#[test]
fn test_set_updater() {
    let mut state = FeedState::new();
    let info = setup_with_gov(&mut state);
    let account = "account".to_string();
    let env = mock_block();

    let msg = ExecuteMsg::SetUpdater {
        account: account.clone(),
        is_active: true,
    };
    let res = execute(&mut state, info, &env, msg);
    assert!(res.is_ok());

    let status = state.is_updater.get(&account).unwrap();
    assert!(status);
}

#[test]
fn test_set_fast_price_events() {
    let mut state = FeedState::new();
    let info = setup_with_gov(&mut state);
    let account = "fast_price_event".to_string();
    let env = mock_block();

    let msg = ExecuteMsg::SetFastPriceEvents {
        fast_price_events: account.clone(),
    };
    let res = execute(&mut state, info, &env, msg);
    assert!(res.is_ok());

    assert_eq!(state.config.fast_price_events, account);
}

#[test]
fn test_set_vault_price_feed() {
    let mut state = FeedState::new();
    let info = setup_with_gov(&mut state);
    let account = "vault_address".to_string();
    let env = mock_block();

    let msg = ExecuteMsg::SetVaultPriceFeed {
        vault_price_feed: account.clone(),
    };
    let res = execute(&mut state, info, &env, msg);
    assert!(res.is_ok());

    assert_eq!(state.vault_address, account);
}

#[test]
fn test_max_time_deviation() {
    let mut state = FeedState::new();
    let info = setup_with_gov(&mut state);
    let env = mock_block();

    let msg = ExecuteMsg::SetMaxTimeDeviation {
        max_time_deviation: 1,
    };
    let res = execute(&mut state, info, &env, msg);
    assert!(res.is_ok());

    assert_eq!(state.max_time_deviation, 1);
}

#[test]
fn test_set_price_duration() {
    let mut state = FeedState::new();
    let info = setup_with_gov(&mut state);
    let env = mock_block();

    let msg = ExecuteMsg::SetPriceDuration { price_duration: 1 };
    let res = execute(&mut state, info, &env, msg);
    assert!(res.is_ok());

    assert_eq!(state.config.price_duration, 1);
}

#[test]
fn test_set_max_price_update_delay() {
    let mut state = FeedState::new();
    let info = setup_with_gov(&mut state);
    let env = mock_block();

    let msg = ExecuteMsg::SetMaxPriceUpdateDelay {
        max_price_update_delay: 1,
    };
    let res = execute(&mut state, info, &env, msg);
    assert!(res.is_ok());

    assert_eq!(state.config.max_price_update_delay, 1);
}

#[test]
fn test_set_basis_points() {
    let mut state = FeedState::new();
    let info = setup_with_gov(&mut state);
    let env = mock_block();

    let msg = ExecuteMsg::SetSpreadBasisPointsIfChainError {
        spread_basis_points_if_chain_error: 1,
    };
    let res = execute(&mut state, info.clone(), &env, msg);
    assert!(res.is_ok());

    let msg = ExecuteMsg::SetSpreadBasisPointsIfInactive {
        spread_basis_points_if_inactive: 1,
    };
    let res = execute(&mut state, info, &env, msg);
    assert!(res.is_ok());

    assert_eq!(state.spread_basis_point.spread_basis_points_if_chain_error, 1);
    assert_eq!(state.spread_basis_point.spread_basis_points_if_inactive, 1);
}

#[test]
fn test_set_prices() {
    let mut state = FeedState::new();
    let info = setup_with_updater(&mut state);
    let env = mock_block();

    let tokens = vec!["token0".to_string(), "token1".to_string()];
    let prices = vec![100u128, 200u128];
    let timestamp = env.time;

    state.max_time_deviation = 1000;
    state.vault_address = "vault".to_string();
    state.price_data_interval = 1;

    let msg = ExecuteMsg::SetPrices {
        tokens,
        prices: prices.clone(),
        ref_prices: vec![0u128, 0u128],
        timestamp,
    };
    let res = execute(&mut state, info, &env, msg);
    assert!(res.is_ok());

    // check prices
    for i in 0..prices.len() {
        let price = state.prices.get(&format!("token{}", i)).unwrap();
        assert_eq!(price, prices[i]);
    }
}

#[test]
fn test_set_latest_answer() {
    let mut store = round_feed::instantiate("admin".to_string());

    // Set latest answer by non-admin address
    let res = round_feed::set_latest_answer(&mut store, &"random".to_string(), 123);
    assert!(res.is_err());

    // Set latest answer by admin address
    let res = round_feed::set_latest_answer(&mut store, &"admin".to_string(), 123);
    assert!(res.is_ok());
}

#[test]
fn test_set_admin() {
    let new_admin = "new_admin".to_string();

    let mut store = round_feed::instantiate("creator".to_string());

    // Set the governance
    let gov_addr = "gov_address".to_string();
    store.gov = gov_addr.clone();

    // non-gov address should error
    let res = round_feed::set_admin(
        &mut store,
        &"non_gov_address".to_string(),
        &new_admin,
        true,
    );
    match res {
        Err(round_feed::ContractError::Forbidden) => {} // expected
        _ => panic!("Unexpected error"),
    }

    let res = round_feed::set_admin(&mut store, &gov_addr, &new_admin, true);
    assert!(res.is_ok());

    // check admin status
    let admin_status = store.admins.get(&new_admin).unwrap();
    assert!(admin_status);
}

#[test]
fn test_query_missing_price_errors() {
    let state = FeedState::new();
    let res = query(
        &state,
        QueryMsg::Prices {
            address: "unknown".to_string(),
        },
    );
    assert_eq!(res.unwrap_err(), ContractError::Std);

    let res = query(&state, QueryMsg::DisableFastPriceVoteCount);
    match res.unwrap() {
        QueryAnswer::Amount(count) => assert_eq!(count, 0),
        _ => panic!("unexpected answer"),
    }
}

#[test]
fn test_error_descriptions() {
    assert_eq!(ContractError::AlreadyVoted.describe(), "already voted");
    assert_eq!(ContractError::Forbidden.describe(), "forbidden");
    assert_eq!(
        ContractError::MinblockInterval.describe(),
        "minBlockInterval not yet passed"
    );
}
