//! The check that a caller controls the record it wants to change.

use vstd::prelude::*;
use crate::error::CustomError;
use crate::state::Pubkey;

verus! {

/// Whether `caller` is the identity `controller` that a record names.
pub open spec fn is_controller(caller: Pubkey, controller: Pubkey) -> bool {
    caller@ == controller@
}

/// Admits `caller` only where it is the `controller` that a record names.
pub fn authorize(caller: &Pubkey, controller: &Pubkey) -> (r: Result<(), CustomError>)
    ensures
        r == (if is_controller(*caller, *controller) {
            Ok::<(), CustomError>(())
        } else {
            Err::<(), CustomError>(CustomError::Unauthorized)
        }),
{
    if *caller == *controller {
        Ok(())
    } else {
        Err(CustomError::Unauthorized)
    }
}

} // verus!
