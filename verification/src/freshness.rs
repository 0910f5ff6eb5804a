use vstd::prelude::*;
use crate::errors::ContractError;
use crate::state::{BlockEnv, FeedState, FeedView, LastUpdated};

verus! {

/// The freshness gate's decision on a candidate update.
///
/// `Ok(true)` admits the update (and moves the watermark), `Ok(false)`
/// ignores it as superseded by a newer observation, and an error
/// rejects the whole call: the block interval has not passed yet, the
/// candidate timestamp lies outside the tolerance window around chain
/// time, or the blocks-passed computation underflows.
pub open spec fn admit_decision(pre: FeedView, block: BlockEnv, timestamp: u64) -> Result<
    bool,
    ContractError,
> {
    if pre.config.min_block_interval > 0 && block.height < pre.last_updated.last_updated_block {
        Err(ContractError::Computation)
    } else if pre.config.min_block_interval > 0 && block.height
        - pre.last_updated.last_updated_block < pre.config.min_block_interval {
        Err(ContractError::MinblockInterval)
    } else if pre.max_time_deviation > block.time {
        Err(ContractError::TimestampBelowAllowedRange)
    } else if timestamp < block.time - pre.max_time_deviation {
        Err(ContractError::TimestampBelowAllowedRange)
    } else if timestamp > block.time + pre.max_time_deviation {
        Err(ContractError::TimestamExceedsAllowedRange)
    } else if timestamp < pre.last_updated.last_updated_at {
        Ok(false)
    } else {
        Ok(true)
    }
}

/// The store after an admitted update moved the watermark.
pub open spec fn admitted_view(pre: FeedView, block: BlockEnv, timestamp: u64) -> FeedView {
    FeedView {
        last_updated: LastUpdated { last_updated_at: timestamp, last_updated_block: block.height },
        ..pre
    }
}

/// Validate a candidate update's timestamp and block height against the
/// configured tolerances and, when admissible, persist the new
/// watermark.
///
/// The watermark `last_updated_at` never decreases; a candidate older
/// than it is ignored (`Ok(false)`) without error and without any state
/// change.
pub fn set_last_updated_values(state: &mut FeedState, block: &BlockEnv, timestamp: u64) -> (r:
    Result<bool, ContractError>)
    ensures
        r == admit_decision(old(state)@, *block, timestamp),
        r == Ok::<bool, ContractError>(true) ==> final(state)@ == admitted_view(
            old(state)@,
            *block,
            timestamp,
        ),
        r != Ok::<bool, ContractError>(true) ==> final(state)@ == old(state)@,
        final(state).wf() == old(state).wf(),
        final(state)@.last_updated.last_updated_at >= old(state)@.last_updated.last_updated_at,
{
    let min_block_interval = state.config.min_block_interval;
    if min_block_interval > 0 {
        if block.height < state.last_updated.last_updated_block {
            return Err(ContractError::Computation);
        }
        let blocks_passed = block.height - state.last_updated.last_updated_block;
        if blocks_passed < min_block_interval {
            return Err(ContractError::MinblockInterval);
        }
    }
    let max_time_deviation = state.max_time_deviation;
    if max_time_deviation > block.time {
        return Err(ContractError::TimestampBelowAllowedRange);
    }
    let lower_bound = block.time - max_time_deviation;
    if timestamp < lower_bound {
        return Err(ContractError::TimestampBelowAllowedRange);
    }
    if timestamp as u128 > block.time as u128 + max_time_deviation as u128 {
        return Err(ContractError::TimestamExceedsAllowedRange);
    }
    if timestamp < state.last_updated.last_updated_at {
        return Ok(false);
    }
    state.last_updated = LastUpdated { last_updated_at: timestamp, last_updated_block: block.height };
    proof {
        assert(state@ =~= (FeedView {
            last_updated: LastUpdated {
                last_updated_at: timestamp,
                last_updated_block: block.height,
            },
            ..old(state)@
        }));
    }
    Ok(true)
}

} // verus!
