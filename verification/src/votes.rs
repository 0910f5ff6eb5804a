use vstd::prelude::*;
use crate::errors::ContractError;
use crate::roles::only_signer;
use crate::state::{FeedState, FeedView};

verus! {

/// What a disable vote does: a non-signer is refused, a standing vote
/// is refused as a duplicate, and otherwise the sender's vote is set
/// with the running count stepping up by one in lock-step.
pub open spec fn disable_fast_price_post(
    pre: FeedView,
    post: FeedView,
    sender: Seq<char>,
    r: Result<(), ContractError>,
) -> bool {
    if !pre.signer_of(sender) {
        post == pre && r == Err::<(), ContractError>(ContractError::Forbidden)
    } else if pre.vote_of(sender) {
        post == pre && r == Err::<(), ContractError>(ContractError::AlreadyVoted)
    } else {
        r == Ok::<(), ContractError>(()) && post == (FeedView {
            disable_fast_price_votes: pre.disable_fast_price_votes.insert(sender, true),
            disable_fast_price_vote_count: (pre.disable_fast_price_vote_count + 1) as u128,
            ..pre
        })
    }
}

/// What an enable vote does: a non-signer is refused, a sender with no
/// standing vote is refused, and otherwise the vote is withdrawn with
/// the running count stepping down by one in lock-step.
pub open spec fn enable_fast_price_post(
    pre: FeedView,
    post: FeedView,
    sender: Seq<char>,
    r: Result<(), ContractError>,
) -> bool {
    if !pre.signer_of(sender) {
        post == pre && r == Err::<(), ContractError>(ContractError::Forbidden)
    } else if !pre.vote_of(sender) {
        post == pre && r == Err::<(), ContractError>(ContractError::AlreadyEnabled)
    } else {
        r == Ok::<(), ContractError>(()) && post == (FeedView {
            disable_fast_price_votes: pre.disable_fast_price_votes.insert(sender, false),
            disable_fast_price_vote_count: (pre.disable_fast_price_vote_count - 1) as u128,
            ..pre
        })
    }
}

/// Record a signer's vote to disable trust in the fast price path.
pub fn disable_fast_price(state: &mut FeedState, sender: &String) -> (r: Result<
    (),
    ContractError,
>)
    requires
        old(state).wf(),
    ensures
        final(state).wf(),
        disable_fast_price_post(old(state)@, final(state)@, sender@, r),
{
    if let Err(e) = only_signer(state, sender) {
        return Err(e);
    }
    match state.disable_fast_price_votes.get(sender) {
        Some(true) => {
            return Err(ContractError::AlreadyVoted);
        },
        _ => {},
    }
    let _len: usize = state.disable_fast_price_votes.len();
    proof {
        state.disable_fast_price_votes.lemma_true_count_le_len();
    }
    state.disable_fast_price_votes.set_flag(sender, true);
    state.disable_fast_price_vote_count = state.disable_fast_price_vote_count + 1;
    proof {
        assert(state@ =~= (FeedView {
            disable_fast_price_votes: old(state)@.disable_fast_price_votes.insert(sender@, true),
            disable_fast_price_vote_count: (old(state)@.disable_fast_price_vote_count + 1) as u128,
            ..old(state)@
        }));
    }
    Ok(())
}

/// Withdraw a signer's standing disable vote.
pub fn enable_fast_price(state: &mut FeedState, sender: &String) -> (r: Result<(), ContractError>)
    requires
        old(state).wf(),
    ensures
        final(state).wf(),
        enable_fast_price_post(old(state)@, final(state)@, sender@, r),
{
    if let Err(e) = only_signer(state, sender) {
        return Err(e);
    }
    match state.disable_fast_price_votes.get(sender) {
        Some(true) => {},
        _ => {
            return Err(ContractError::AlreadyEnabled);
        },
    }
    proof {
        state.disable_fast_price_votes.lemma_true_count_pos(sender@);
    }
    state.disable_fast_price_votes.set_flag(sender, false);
    state.disable_fast_price_vote_count = state.disable_fast_price_vote_count - 1;
    proof {
        assert(state@ =~= (FeedView {
            disable_fast_price_votes: old(state)@.disable_fast_price_votes.insert(sender@, false),
            disable_fast_price_vote_count: (old(state)@.disable_fast_price_vote_count - 1) as u128,
            ..old(state)@
        }));
    }
    Ok(())
}

} // verus!
