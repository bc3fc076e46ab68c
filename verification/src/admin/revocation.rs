//! The guard that shuts revoked addresses out of staking, signing, voting
//! and proposing.
use vstd::prelude::*;

use crate::error::ContractError;

verus! {

/// Refuses an address whose rights were revoked: `revoked` says whether the
/// caller's address is on the revocation list.
pub fn check_not_revoked(revoked: bool) -> (r: Result<(), ContractError>)
    ensures
        r == (if revoked {
            Err::<(), ContractError>(ContractError::RevokedAddress)
        } else {
            Ok::<(), ContractError>(())
        }),
{
    if revoked {
        Err(ContractError::RevokedAddress)
    } else {
        Ok(())
    }
}

} // verus!
