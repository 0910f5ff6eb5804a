use vstd::prelude::*;
use crate::errors::ContractError;
use crate::state::FeedState;

verus! {

/// Only the stored governor address passes.
pub fn is_gov(state: &FeedState, address: &String) -> (r: Result<(), ContractError>)
    ensures
        r is Ok <==> address@ == state@.gov,
        r is Err ==> r == Err::<(), ContractError>(ContractError::Forbidden),
{
    if *address == state.gov {
        Ok(())
    } else {
        Err(ContractError::Forbidden)
    }
}

/// Only an account whose updater flag is set passes.
pub fn only_updater(state: &FeedState, address: &String) -> (r: Result<(), ContractError>)
    requires
        state.wf(),
    ensures
        r is Ok <==> state@.updater_of(address@),
        r is Err ==> r == Err::<(), ContractError>(ContractError::Forbidden),
{
    match state.is_updater.get(address) {
        Some(true) => Ok(()),
        _ => Err(ContractError::Forbidden),
    }
}

/// Only an account whose signer flag is set passes.
pub fn only_signer(state: &FeedState, address: &String) -> (r: Result<(), ContractError>)
    requires
        state.wf(),
    ensures
        r is Ok <==> state@.signer_of(address@),
        r is Err ==> r == Err::<(), ContractError>(ContractError::Forbidden),
{
    match state.is_signer.get(address) {
        Some(true) => Ok(()),
        _ => Err(ContractError::Forbidden),
    }
}

/// Only the stored token manager address passes.
pub fn only_token_manager(state: &FeedState, address: &String) -> (r: Result<(), ContractError>)
    ensures
        r is Ok <==> address@ == state@.token_manager,
        r is Err ==> r == Err::<(), ContractError>(ContractError::Forbidden),
{
    if *address == state.token_manager {
        Ok(())
    } else {
        Err(ContractError::Forbidden)
    }
}

} // verus!
