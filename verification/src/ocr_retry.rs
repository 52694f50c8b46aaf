//! Retrying on-device text recognition once after a cold-start failure.

use vstd::prelude::*;

verus! {

/// Runs `operation`; when it fails, runs it exactly once more and returns
/// that second outcome together with the first error. Both outcomes are ones
/// the operation can give.
pub fn run_with_one_retry<T, E, F: FnMut() -> Result<T, E>>(operation: F) -> (outcome: (Result<T, E>, Option<E>))
    requires
        operation.requires(()),
    ensures
        exists|first: Result<T, E>| #![trigger operation.ensures((), first)]
            operation.ensures((), first) && match first {
                Ok(value) => outcome == (Ok::<T, E>(value), None::<E>),
                Err(error) => outcome.1 == Some(error) && exists|second: Result<T, E>| #![trigger operation.ensures((), second)]
                    operation.ensures((), second) && outcome.0 == second,
            },
{
    let mut operation = operation;
    match operation() {
        Ok(value) => (Ok(value), None),
        Err(first_error) => (operation(), Some(first_error)),
    }
}

} // verus!
