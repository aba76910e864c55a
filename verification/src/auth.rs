use vstd::prelude::*;
use crate::error::Error;
use crate::identity::Identity;

verus! {

/// Stands in front of every reserved operation: passes exactly when the
/// caller is the party that the operation is reserved for.
pub fn require_caller_is(caller: &Identity, identity: &Identity) -> (r: Result<(), Error>)
    ensures
        r == if caller@ == identity@ {
            Ok::<(), Error>(())
        } else {
            Err::<(), Error>(Error::NotAuthorized)
        },
{
    if caller.same_as(identity) {
        Ok(())
    } else {
        Err(Error::NotAuthorized)
    }
}

} // verus!
