//! Randomness, drawn from the `rand` crate.
use vstd::prelude::*;

verus! {

/// Relies on `rand::random`: one value drawn from the thread-local generator
/// through the `Standard` distribution. Nothing is promised of the value;
/// every caller must state what holds of each possible outcome.
pub assume_specification<T>[ rand::random::<T> ]() -> (r: T)
    where
        rand::distributions::Standard: rand::distributions::Distribution<T>,
;

} // verus!
