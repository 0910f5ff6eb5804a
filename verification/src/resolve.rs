use vstd::prelude::*;
use vstd::arithmetic::div_mod::lemma_div_is_ordered;
use crate::errors::ContractError;
use crate::state::{FeedState, FeedView, PriceDataItem, BASIS_POINTS_DIVISOR};

verus! {

/// Whether the fast price is trusted as-is for `token`: not when the
/// global spread flag is set, not when the disable-vote quorum is
/// reached, and not when the fast feed's cumulative drift exceeds the
/// reference feed's by more than the token's configured ceiling.
pub open spec fn favor_fast_price_spec(v: FeedView, token: Seq<char>) -> bool {
    if v.spread_enabled {
        false
    } else if v.disable_fast_price_vote_count >= v.min_auth {
        false
    } else {
        let d = v.data_of(token);
        !(d.cumulative_fast_delta > d.cumulative_ref_delta && d.cumulative_fast_delta
            - d.cumulative_ref_delta > v.max_delta_diff_of(token))
    }
}

/// The spread adjustment stays inside `u128`.
pub open spec fn spread_price_ok(
    ref_price: u128,
    spread: u128,
    divisor: u128,
    maximise: bool,
) -> bool {
    &&& divisor > 0
    &&& if maximise {
        divisor + spread <= u128::MAX && ref_price * (divisor + spread) <= u128::MAX
    } else {
        spread <= divisor && ref_price * (divisor - spread) <= u128::MAX
    }
}

/// A reference price widened away from the true price:
/// `ref_price * (divisor + spread) / divisor` when maximising, with the
/// spread subtracted instead when minimising. Truncating arithmetic.
pub open spec fn spread_price(ref_price: u128, spread: u128, divisor: u128, maximise: bool) -> u128
    recommends
        spread_price_ok(ref_price, spread, divisor, maximise),
{
    if maximise {
        (ref_price * (divisor + spread) / (divisor as int)) as u128
    } else {
        (ref_price * (divisor - spread) / (divisor as int)) as u128
    }
}

/// The spread adjustment as an operation result.
pub open spec fn spread_result(ref_price: u128, spread: u128, maximise: bool) -> Result<
    u128,
    ContractError,
> {
    if spread_price_ok(ref_price, spread, BASIS_POINTS_DIVISOR, maximise) {
        Ok(spread_price(ref_price, spread, BASIS_POINTS_DIVISOR, maximise))
    } else {
        Err(ContractError::Computation)
    }
}

/// The price the resolution engine owes a caller, by the first matching
/// rule: a chain-error spread once the update delay is exceeded, an
/// inactivity spread once the price duration is exceeded, the reference
/// price alone while no fast price is stored, the larger or smaller of
/// the two prices while the fast price is distrusted or deviates too
/// far, and the fast price itself otherwise.
pub open spec fn get_price_spec(
    v: FeedView,
    token: Seq<char>,
    now: u64,
    ref_price: u128,
    maximise: bool,
) -> Result<u128, ContractError> {
    let last = v.last_updated.last_updated_at;
    if now > last + v.config.max_price_update_delay {
        spread_result(ref_price, v.spread_basis_point.spread_basis_points_if_chain_error, maximise)
    } else if now > last + v.config.price_duration {
        spread_result(ref_price, v.spread_basis_point.spread_basis_points_if_inactive, maximise)
    } else {
        let fast = v.price_of(token);
        if fast == 0 {
            Ok(ref_price)
        } else if ref_price == 0 {
            Err(ContractError::Computation)
        } else {
            let diff: int = if ref_price > fast {
                ref_price - fast
            } else {
                fast - ref_price
            };
            if diff * (BASIS_POINTS_DIVISOR as int) > u128::MAX as int {
                Err(ContractError::Computation)
            } else {
                let diff_bps = diff * (BASIS_POINTS_DIVISOR as int) / (ref_price as int);
                let has_spread = !favor_fast_price_spec(v, token) || diff_bps
                    > v.config.max_deviation_basis_points as int;
                if has_spread {
                    if maximise {
                        Ok(
                            if ref_price > fast {
                                ref_price
                            } else {
                                fast
                            },
                        )
                    } else {
                        Ok(
                            if ref_price < fast {
                                ref_price
                            } else {
                                fast
                            },
                        )
                    }
                } else {
                    Ok(fast)
                }
            }
        }
    }
}

/// Adjust a reference price by a spread in basis points; truncating,
/// failing on overflow, on a zero divisor, and on a spread exceeding
/// the divisor when minimising.
pub fn calculate_price_with_spread(
    ref_price: u128,
    spread: u128,
    divisor: u128,
    maximise: bool,
) -> (r: Result<u128, ContractError>)
    ensures
        r is Ok <==> spread_price_ok(ref_price, spread, divisor, maximise),
        r is Ok ==> r->Ok_0 == spread_price(ref_price, spread, divisor, maximise),
        r is Err ==> r == Err::<u128, ContractError>(ContractError::Computation),
{
    if divisor == 0 {
        return Err(ContractError::Computation);
    }
    if maximise {
        match divisor.checked_add(spread) {
            Some(factor) => match ref_price.checked_mul(factor) {
                Some(product) => Ok(product / divisor),
                None => Err(ContractError::Computation),
            },
            None => Err(ContractError::Computation),
        }
    } else {
        if spread > divisor {
            return Err(ContractError::Computation);
        }
        match ref_price.checked_mul(divisor - spread) {
            Some(product) => Ok(product / divisor),
            None => Err(ContractError::Computation),
        }
    }
}

/// Whether the fast price is currently favored for `token`.
pub fn favor_fast_price(state: &FeedState, token: &String) -> (r: bool)
    requires
        state.wf(),
    ensures
        r == favor_fast_price_spec(state@, token@),
{
    if state.spread_enabled {
        return false;
    }
    if state.disable_fast_price_vote_count >= state.min_auth {
        return false;
    }
    let price_data = match state.price_data.get(token) {
        Some(d) => d,
        None => PriceDataItem { ref_price: 0, ref_time: 0, cumulative_ref_delta: 0, cumulative_fast_delta: 0 },
    };
    let max_cumulative_delta_diff = match state.max_cumulative_delta_diffs.get(token) {
        Some(m) => m,
        None => 0,
    };
    if price_data.cumulative_fast_delta > price_data.cumulative_ref_delta
        && price_data.cumulative_fast_delta - price_data.cumulative_ref_delta
        > max_cumulative_delta_diff {
        return false;
    }
    true
}

/// The current deviation record of `token`, zero until first written.
pub fn get_price_data(state: &FeedState, token: &String) -> (r: PriceDataItem)
    requires
        state.wf(),
    ensures
        r == state@.data_of(token@),
{
    match state.price_data.get(token) {
        Some(d) => d,
        None => PriceDataItem { ref_price: 0, ref_time: 0, cumulative_ref_delta: 0, cumulative_fast_delta: 0 },
    }
}

/// Resolve the price callers should use for `token` given the current
/// reference price, applying staleness or disagreement spreads.
pub fn get_price(
    state: &FeedState,
    token: &String,
    block_timestamp: u64,
    ref_price: u128,
    maximise: bool,
) -> (r: Result<u128, ContractError>)
    requires
        state.wf(),
    ensures
        r == get_price_spec(state@, token@, block_timestamp, ref_price, maximise),
{
    let last_updated_at = state.last_updated.last_updated_at;
    if block_timestamp as u128 > last_updated_at as u128
        + state.config.max_price_update_delay as u128 {
        return calculate_price_with_spread(
            ref_price,
            state.spread_basis_point.spread_basis_points_if_chain_error,
            BASIS_POINTS_DIVISOR,
            maximise,
        );
    }
    if block_timestamp as u128 > last_updated_at as u128 + state.config.price_duration as u128 {
        return calculate_price_with_spread(
            ref_price,
            state.spread_basis_point.spread_basis_points_if_inactive,
            BASIS_POINTS_DIVISOR,
            maximise,
        );
    }
    let fast_price = match state.prices.get(token) {
        Some(p) => p,
        None => 0,
    };
    if fast_price == 0 {
        return Ok(ref_price);
    }
    if ref_price == 0 {
        return Err(ContractError::Computation);
    }
    let diff = if ref_price > fast_price {
        ref_price - fast_price
    } else {
        fast_price - ref_price
    };
    let diff_basis_points = match diff.checked_mul(BASIS_POINTS_DIVISOR) {
        Some(scaled) => scaled / ref_price,
        None => {
            return Err(ContractError::Computation);
        },
    };
    let favored = favor_fast_price(state, token);
    let has_spread = !favored || diff_basis_points > state.config.max_deviation_basis_points;
    if has_spread {
        let result_price = if maximise {
            if ref_price > fast_price {
                ref_price
            } else {
                fast_price
            }
        } else {
            if ref_price < fast_price {
                ref_price
            } else {
                fast_price
            }
        };
        return Ok(result_price);
    }
    Ok(fast_price)
}

/// Spread monotonicity, maximising: for a fixed reference price, a
/// wider spread never lowers the adjusted price.
pub proof fn lemma_spread_monotone_max(ref_price: u128, s1: u128, s2: u128, divisor: u128)
    requires
        s1 <= s2,
        spread_price_ok(ref_price, s1, divisor, true),
        spread_price_ok(ref_price, s2, divisor, true),
    ensures
        spread_price(ref_price, s1, divisor, true) <= spread_price(ref_price, s2, divisor, true),
{
    assert(ref_price * (divisor + s1) <= ref_price * (divisor + s2)) by (nonlinear_arith)
        requires
            s1 <= s2,
            0 <= ref_price,
            0 < divisor,
    ;
    lemma_div_is_ordered(
        ref_price * (divisor + s1),
        ref_price * (divisor + s2),
        divisor as int,
    );
}

/// Spread monotonicity, minimising: for a fixed reference price, a
/// wider spread never raises the adjusted price.
pub proof fn lemma_spread_monotone_min(ref_price: u128, s1: u128, s2: u128, divisor: u128)
    requires
        s1 <= s2,
        spread_price_ok(ref_price, s1, divisor, false),
        spread_price_ok(ref_price, s2, divisor, false),
    ensures
        spread_price(ref_price, s1, divisor, false) >= spread_price(ref_price, s2, divisor, false),
{
    assert(ref_price * (divisor - s2) <= ref_price * (divisor - s1)) by (nonlinear_arith)
        requires
            s1 <= s2 <= divisor,
            0 <= ref_price,
    ;
    lemma_div_is_ordered(
        ref_price * (divisor - s2),
        ref_price * (divisor - s1),
        divisor as int,
    );
}

} // verus!
