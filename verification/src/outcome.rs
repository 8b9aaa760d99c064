//! The mathematical reading of a fallible result.

use vstd::prelude::*;

verus! {

/// A result read through the views of what it holds.
pub open spec fn outcome_view<T: View, E: View>(r: Result<T, E>) -> Result<T::V, E::V> {
    match r {
        Ok(value) => Ok(value@),
        Err(error) => Err(error@),
    }
}

/// Two checks in a row: the first failure is the one that counts.
pub open spec fn first_failure<E>(first: Result<(), E>, next: Result<(), E>) -> Result<(), E> {
    match first {
        Err(error) => Err(error),
        Ok(_) => next,
    }
}

} // verus!
