use fast_price_feed::admin;
use fast_price_feed::decode::{packed_price, scale_to_global};
use fast_price_feed::errors::ContractError;
use fast_price_feed::freshness::set_last_updated_values;
use fast_price_feed::ingest::{set_price, set_prices};
use fast_price_feed::resolve::{calculate_price_with_spread, favor_fast_price, get_price, get_price_data};
use fast_price_feed::round_feed;
use fast_price_feed::state::{BlockEnv, Config, FeedState, TokenData, PRICE_PRECISION, MAX_PRICE_DURATION};
use fast_price_feed::votes::{disable_fast_price, enable_fast_price};

fn pack_word(prices: [u64; 4]) -> [u8; 32] {
    let mut word = [0u8; 32];
    for (i, price) in prices.iter().enumerate() {
        word[i * 8..(i + 1) * 8].copy_from_slice(&price.to_le_bytes());
    }
    word
}

#[test]
fn watermark_monotonic_and_stale_update_is_noop() {
    let mut state = FeedState::new();
    let updater = "u".to_string();
    state.is_updater.insert(&updater, true);
    state.max_time_deviation = 500;
    state.price_data_interval = 1;
    let block = BlockEnv { height: 5, time: 1000 };

    let tokens = vec!["tok".to_string()];
    let res = set_prices(&mut state, &updater, &block, &tokens, &vec![100], &vec![0], 1000);
    assert!(res.is_ok());
    assert_eq!(state.last_updated.last_updated_at, 1000);
    assert_eq!(state.last_updated.last_updated_block, 5);
    assert_eq!(state.prices.get(&"tok".to_string()).unwrap(), 100);

    // an older timestamp succeeds as a no-op: no error, no price
    // mutation, watermark untouched
    let block2 = BlockEnv { height: 9, time: 1050 };
    let res = set_prices(&mut state, &updater, &block2, &tokens, &vec![555], &vec![0], 999);
    assert!(res.is_ok());
    assert_eq!(state.prices.get(&"tok".to_string()).unwrap(), 100);
    assert_eq!(state.last_updated.last_updated_at, 1000);
    assert_eq!(state.last_updated.last_updated_block, 5);
}

#[test]
fn bucket_reset_starts_accumulators_from_zero() {
    let mut state = FeedState::new();
    state.price_data_interval = 10;
    let token = "tok".to_string();

    // first observation: no prior reference price, deltas are zero
    set_price(&mut state, 5, &token, 200, 100).unwrap();
    let d = get_price_data(&state, &token);
    assert_eq!(d.ref_price, 100);
    assert_eq!(d.ref_time, 5);
    assert_eq!(d.cumulative_ref_delta, 0);
    assert_eq!(d.cumulative_fast_delta, 0);

    // second observation in a different bucket (5 / 10 != 25 / 10):
    // the accumulators hold this call's contributions alone
    set_price(&mut state, 25, &token, 180, 110).unwrap();
    let d = get_price_data(&state, &token);
    assert_eq!(d.ref_price, 110);
    assert_eq!(d.ref_time, 25);
    assert_eq!(d.cumulative_ref_delta, 10 * 10_000_000 / 100);
    assert_eq!(d.cumulative_fast_delta, 20 * 10_000_000 / 200);

    // third observation in the same bucket accumulates
    set_price(&mut state, 26, &token, 170, 121).unwrap();
    let d = get_price_data(&state, &token);
    assert_eq!(d.cumulative_ref_delta, 1_000_000 + 11 * 10_000_000 / 110);
    assert_eq!(d.cumulative_fast_delta, 1_000_000 + 10 * 10_000_000 / 180);
}

#[test]
fn decoder_truncates_at_short_registry() {
    let mut state = FeedState::new();
    state.max_time_deviation = 1000;
    state.price_data_interval = 1;
    state.token_data = vec![
        TokenData::new("a".to_string(), 1),
        TokenData::new("b".to_string(), 1),
    ];
    let block = BlockEnv { height: 1, time: 5000 };
    let word = pack_word([11, 22, 33, 44]);

    // a registry of two tokens ingests exactly two slots, no error
    let res = fast_price_feed::ingest::set_prices_with_bits(
        &mut state,
        &block,
        &word,
        5000,
        &vec![0, 0],
    );
    assert!(res.is_ok());
    assert_eq!(state.prices.get(&"a".to_string()).unwrap(), 11 * PRICE_PRECISION);
    assert_eq!(state.prices.get(&"b".to_string()).unwrap(), 22 * PRICE_PRECISION);
    assert!(state.prices.get(&"c".to_string()).is_none());
}

#[test]
fn packed_word_scenario_five_tokens() {
    let mut state = FeedState::new();
    state.max_time_deviation = 1000;
    state.price_data_interval = 1;
    state.token_data = vec![
        TokenData::new("a".to_string(), 1),
        TokenData::new("b".to_string(), 1),
        TokenData::new("c".to_string(), 1),
        TokenData::new("d".to_string(), 1),
        TokenData::new("e".to_string(), 1),
    ];
    let block = BlockEnv { height: 1, time: 5000 };
    let word = pack_word([1, 2, 3, 4]);

    let res = fast_price_feed::ingest::set_compacted_prices(
        &mut state,
        &block,
        &vec![word],
        5000,
        &vec![0; 5],
    );
    assert!(res.is_ok());
    assert_eq!(state.prices.get(&"a".to_string()).unwrap(), PRICE_PRECISION);
    assert_eq!(state.prices.get(&"d".to_string()).unwrap(), 4 * PRICE_PRECISION);
    // the fifth token had no packed slot and stays at its default
    assert!(state.prices.get(&"e".to_string()).is_none());
}

#[test]
fn packed_slot_extraction() {
    let word = pack_word([10, 20, 30, 40]);
    assert_eq!(packed_price(&word, 0), 10);
    assert_eq!(packed_price(&word, 2), 30);
    assert_eq!(packed_price(&word, 3), 40);
    let mut word2 = [0u8; 32];
    word2[8] = 0x01;
    word2[15] = 0x80;
    assert_eq!(packed_price(&word2, 1), 0x8000_0000_0000_0001);
}

#[test]
fn rescale_round_trip() {
    // precision divides the global scale: scaling up then down is exact
    let adjusted = scale_to_global(7, 1_000_000).unwrap();
    assert_eq!(adjusted, 7 * (PRICE_PRECISION / 1_000_000));
    assert_eq!(adjusted * 1_000_000 / PRICE_PRECISION, 7);

    let adjusted = scale_to_global(123_456, 1).unwrap();
    assert_eq!(adjusted * 1 / PRICE_PRECISION, 123_456);

    // a zero precision is an arithmetic failure, not a panic
    assert_eq!(scale_to_global(7, 0).unwrap_err(), ContractError::Computation);
}

#[test]
fn vote_count_tracks_votes_exactly() {
    let mut state = FeedState::new();
    let s1 = "signer1".to_string();
    let s2 = "signer2".to_string();
    state.is_signer.insert(&s1, true);
    state.is_signer.insert(&s2, true);

    disable_fast_price(&mut state, &s1).unwrap();
    assert_eq!(state.disable_fast_price_vote_count, 1);

    // voting disable twice in a row fails and changes no count
    let res = disable_fast_price(&mut state, &s1);
    assert_eq!(res.unwrap_err(), ContractError::AlreadyVoted);
    assert_eq!(state.disable_fast_price_vote_count, 1);

    disable_fast_price(&mut state, &s2).unwrap();
    assert_eq!(state.disable_fast_price_vote_count, 2);

    enable_fast_price(&mut state, &s1).unwrap();
    assert_eq!(state.disable_fast_price_vote_count, 1);

    // enabling twice in a row fails and changes no count
    let res = enable_fast_price(&mut state, &s1);
    assert_eq!(res.unwrap_err(), ContractError::AlreadyEnabled);
    assert_eq!(state.disable_fast_price_vote_count, 1);
}

#[test]
fn quorum_of_disable_votes_disfavors_fast_price() {
    let mut state = FeedState::new();
    state.min_auth = 2;
    let s1 = "signer1".to_string();
    let s2 = "signer2".to_string();
    state.is_signer.insert(&s1, true);
    state.is_signer.insert(&s2, true);
    let token = "tok".to_string();

    disable_fast_price(&mut state, &s1).unwrap();
    // quorum not yet reached, deviation within bounds: still favored
    assert!(favor_fast_price(&state, &token));

    disable_fast_price(&mut state, &s2).unwrap();
    assert_eq!(state.disable_fast_price_vote_count, 2);
    // quorum reached: not favored even though deviation is in bounds
    assert!(!favor_fast_price(&state, &token));
}

#[test]
fn spread_monotone_in_spread_bps() {
    let spreads = [0u128, 1, 10, 100, 1_000, 10_000];
    let mut last_max = 0u128;
    let mut last_min = u128::MAX;
    for s in spreads {
        let up = calculate_price_with_spread(10_000, s, 10_000, true).unwrap();
        let down = calculate_price_with_spread(10_000, s, 10_000, false).unwrap();
        assert!(up >= last_max);
        assert!(down <= last_min);
        last_max = up;
        last_min = down;
    }
    assert_eq!(calculate_price_with_spread(10_000, 30, 10_000, true).unwrap(), 10_030);
    assert_eq!(calculate_price_with_spread(10_000, 30, 10_000, false).unwrap(), 9_970);
    // a spread beyond the divisor cannot be subtracted
    assert_eq!(
        calculate_price_with_spread(10_000, 20_000, 10_000, false).unwrap_err(),
        ContractError::Computation
    );
}

#[test]
fn inactive_spread_overrides_stored_fast_price() {
    let mut state = FeedState::new();
    state.last_updated.last_updated_at = 100;
    state.config.price_duration = 10;
    state.config.max_price_update_delay = 1000;
    state.spread_basis_point.spread_basis_points_if_inactive = 30;
    let token = "tok".to_string();
    state.prices.insert(&token, 999);

    // now == last_updated_at + price_duration + 1, update delay not
    // yet exceeded: the inactivity spread applies to the reference
    // price and the stored fast price is ignored entirely
    let now = 111;
    let up = get_price(&state, &token, now, 10_000, true).unwrap();
    assert_eq!(up, 10_030);
    let down = get_price(&state, &token, now, 10_000, false).unwrap();
    assert_eq!(down, 9_970);
}

#[test]
fn chain_error_spread_after_update_delay() {
    let mut state = FeedState::new();
    state.last_updated.last_updated_at = 100;
    state.config.price_duration = 10;
    state.config.max_price_update_delay = 1000;
    state.spread_basis_point.spread_basis_points_if_chain_error = 50;
    let token = "tok".to_string();

    let now = 1101;
    let up = get_price(&state, &token, now, 10_000, true).unwrap();
    assert_eq!(up, 10_050);
}

#[test]
fn fresh_fast_price_within_deviation_is_trusted() {
    let mut state = FeedState::new();
    state.min_auth = 1;
    state.config.max_deviation_basis_points = 1000;
    state.config.price_duration = 100;
    state.config.max_price_update_delay = 1000;
    state.last_updated.last_updated_at = 50;
    let token = "tok".to_string();

    state.prices.insert(&token, 10_100);
    // deviation 100 bps <= 1000: the fast price is returned as is
    assert_eq!(get_price(&state, &token, 60, 10_000, true).unwrap(), 10_100);

    // deviation 2000 bps > 1000: the larger or smaller of the two
    state.prices.insert(&token, 12_000);
    assert_eq!(get_price(&state, &token, 60, 10_000, true).unwrap(), 12_000);
    assert_eq!(get_price(&state, &token, 60, 10_000, false).unwrap(), 10_000);

    // no stored fast price: the reference price passes through
    let other = "other".to_string();
    assert_eq!(get_price(&state, &other, 60, 10_000, true).unwrap(), 10_000);
}

#[test]
fn freshness_gate_rejections() {
    let mut state = FeedState::new();
    state.max_time_deviation = 10;
    let block = BlockEnv { height: 20, time: 1000 };

    // below and above the tolerance window
    let res = set_last_updated_values(&mut state, &block, 989);
    assert_eq!(res.unwrap_err(), ContractError::TimestampBelowAllowedRange);
    let res = set_last_updated_values(&mut state, &block, 1011);
    assert_eq!(res.unwrap_err(), ContractError::TimestamExceedsAllowedRange);

    // window boundaries are admitted
    let res = set_last_updated_values(&mut state, &block, 990);
    assert_eq!(res.unwrap(), true);
    assert_eq!(state.last_updated.last_updated_at, 990);
    assert_eq!(state.last_updated.last_updated_block, 20);

    // not enough blocks have passed
    state.config.min_block_interval = 5;
    let late = BlockEnv { height: 22, time: 1000 };
    let res = set_last_updated_values(&mut state, &late, 1000);
    assert_eq!(res.unwrap_err(), ContractError::MinblockInterval);

    // a block height behind the watermark fails the computation
    let behind = BlockEnv { height: 18, time: 1000 };
    let res = set_last_updated_values(&mut state, &behind, 1000);
    assert_eq!(res.unwrap_err(), ContractError::Computation);
}

#[test]
fn init_rejects_zero_price_duration() {
    let mut state = FeedState::new();
    let bad = Config {
        price_duration: 0,
        max_price_update_delay: 0,
        min_block_interval: 0,
        max_deviation_basis_points: 0,
        fast_price_events: "".to_string(),
        token_manager: "".to_string(),
    };
    let res = admin::init(&mut state, bad);
    assert_eq!(res.unwrap_err(), ContractError::InvalidPriceDuration);

    let good = Config {
        price_duration: 300,
        max_price_update_delay: 0,
        min_block_interval: 0,
        max_deviation_basis_points: 0,
        fast_price_events: "".to_string(),
        token_manager: "".to_string(),
    };
    assert!(admin::init(&mut state, good).is_ok());
    assert_eq!(state.config.price_duration, 300);

    // the governed setter refuses a duration at the ceiling
    state.gov = "gov".to_string();
    let res = admin::set_price_duration(&mut state, &"gov".to_string(), MAX_PRICE_DURATION);
    assert_eq!(res.unwrap_err(), ContractError::InvalidPriceDuration);
}

#[test]
fn set_tokens_replaces_registry_in_order() {
    let mut state = FeedState::new();
    let updater = "u".to_string();
    state.is_updater.insert(&updater, true);

    let tokens = vec!["a".to_string(), "b".to_string(), "c".to_string()];
    let precisions = vec![1u128, 1_000u128, 1_000_000u128];
    admin::set_tokens(&mut state, &updater, &tokens, &precisions).unwrap();
    assert_eq!(state.token_data.len(), 3);
    for i in 0..3 {
        assert_eq!(state.token_data[i].token, tokens[i]);
        assert_eq!(state.token_data[i].token_precision, precisions[i]);
    }

    // mismatched lengths are rejected before any mutation
    let res = admin::set_tokens(&mut state, &updater, &tokens, &vec![1u128]);
    assert_eq!(res.unwrap_err(), ContractError::InvalidLength);
    assert_eq!(state.token_data.len(), 3);
}

#[test]
fn failed_batch_leaves_store_untouched() {
    let mut state = FeedState::new();
    let updater = "u".to_string();
    state.is_updater.insert(&updater, true);
    state.max_time_deviation = 1000;
    // a zero interval makes the second token's ingestion fail
    state.price_data_interval = 0;
    let block = BlockEnv { height: 1, time: 5000 };

    let tokens = vec!["a".to_string(), "b".to_string()];
    // first token has no reference price and would succeed alone;
    // the second fails, so nothing at all may persist
    let res = set_prices(
        &mut state,
        &updater,
        &block,
        &tokens,
        &vec![100, 200],
        &vec![0, 7],
        5000,
    );
    assert_eq!(res.unwrap_err(), ContractError::Computation);
    assert!(state.prices.get(&"a".to_string()).is_none());
    assert_eq!(state.last_updated.last_updated_at, 0);
}

#[test]
fn migrate_version_gate() {
    let name = "crates.io:feed".to_string();
    let other = "crates.io:other".to_string();

    // equal or older stored versions migrate
    assert!(round_feed::migrate(&name, &"1.0.0".to_string(), &name, &"1.0.0".to_string()).is_ok());
    assert!(round_feed::migrate(&name, &"1.0.0".to_string(), &name, &"1.2.3".to_string()).is_ok());

    // a newer stored version does not
    let res = round_feed::migrate(&name, &"2.0.0".to_string(), &name, &"1.0.0".to_string());
    match res {
        Err(round_feed::ContractError::CannotMigrateVersion { previous_version }) => {
            assert_eq!(previous_version, "2.0.0");
        }
        _ => panic!("expected a version refusal"),
    }

    // another contract's data does not
    let res = round_feed::migrate(&other, &"1.0.0".to_string(), &name, &"1.0.0".to_string());
    match res {
        Err(round_feed::ContractError::CannotMigrate { previous_contract }) => {
            assert_eq!(previous_contract, other);
        }
        _ => panic!("expected a contract-name refusal"),
    }

    // an unparsable version is a generic error
    let res = round_feed::migrate(&name, &"abc".to_string(), &name, &"1.0.0".to_string());
    assert_eq!(res.unwrap_err(), round_feed::ContractError::Std);
}

#[test]
fn round_feed_rounds_accumulate() {
    let mut store = round_feed::instantiate("admin".to_string());
    let admin = "admin".to_string();

    assert_eq!(round_feed::set_latest_answer(&mut store, &admin, 10).unwrap(), 1);
    assert_eq!(round_feed::set_latest_answer(&mut store, &admin, -20).unwrap(), 2);
    assert_eq!(store.latest.round_id, 2);
    assert_eq!(store.latest.answer, -20);

    let round1 = round_feed::get_round_data(&store, 1);
    assert_eq!(round1.answer, 10);
    let round2 = round_feed::get_round_data(&store, 2);
    assert_eq!(round2.answer, -20);
    // a round never answered reports the default
    let round9 = round_feed::get_round_data(&store, 9);
    assert_eq!(round9.answer, 0);
}
