use vstd::prelude::*;

verus! {

/// Relies on rand::random: it returns a value drawn from the thread-local
/// generator, of which nothing can be promised.
pub assume_specification<T>[ rand::random::<T> ]() -> (r: T)
    where
        rand::distributions::Standard: rand::distributions::Distribution<T>,
;

} // verus!
