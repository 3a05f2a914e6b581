//! The single call into the `rand` crate: drawing a value from the
//! thread-local generator. Nothing can be promised of a random result, so
//! the specification has no `ensures`; everything the board guarantees
//! holds whatever byte comes back.

use vstd::prelude::*;

verus! {

/// Relies on rand::random: draws a value from the thread-local generator.
pub assume_specification<T>[ rand::random::<T> ]() -> (r: T)
    where
        rand::distributions::Standard: rand::distributions::Distribution<T>,
;

} // verus!
