//! How every operation ends: with a new state and an answer, or with an
//! error and the state untouched.

use vstd::prelude::*;

verus! {

/// How an operation ends. Where `expected` is a new state and an answer, the
/// state after the operation is that state and the answer is returned;
/// where it is an error, the error is returned and the state is untouched.
pub open spec fn settles<S, R, E>(
    expected: Result<(S, R), E>,
    before: S,
    after: S,
    answer: Result<R, E>,
) -> bool {
    match expected {
        Ok((state, receipt)) => after == state && answer == Ok::<R, E>(receipt),
        Err(e) => after == before && answer == Err::<R, E>(e),
    }
}

} // verus!
