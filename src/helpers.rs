//! Small helpers shared by the roles.
use vstd::prelude::*;

use crate::error::Error;

verus! {

/// Compiles only where `T` can be sent between threads.
pub fn is_send<T: Send>() {
}

/// Compiles only where `T` can be shared between threads.
pub fn is_sync<T: Sync>() {
}

/// Compiles only where `T` has a size known at compile time.
pub fn is_sized<T: Sized>() {
}

/// Whether `result` is `Ok`.
pub fn result_as_bool<T>(result: Result<T, Error>) -> (r: bool)
    ensures
        r == result is Ok,
{
    match result {
        Ok(_) => true,
        Err(_) => false,
    }
}

} // verus!
