//! Combinators that give ordered validation passes their meaning.
//!
//! A validation pass visits entries `0, 1, ..., n - 1` in order and stops at
//! the first entry that fails; `first_failure` is that result.

use vstd::prelude::*;

use crate::hbc::error::ParseError;

verus! {

/// The outcome of checking entries `0..n` in order: the error of the first
/// failing entry, or success when every entry passes.
pub open spec fn first_failure(n: int, check: spec_fn(int) -> Result<(), ParseError>) -> Result<(), ParseError>
    decreases n,
{
    if n <= 0 {
        Ok(())
    } else {
        match first_failure(n - 1, check) {
            Ok(_) => check(n - 1),
            Err(e) => Err(e),
        }
    }
}

/// Runs `first` and, only when it succeeds, `second`.
pub open spec fn then(first: Result<(), ParseError>, second: Result<(), ParseError>) -> Result<(), ParseError> {
    match first {
        Ok(_) => second,
        Err(e) => Err(e),
    }
}

/// Once a prefix of the entries has failed, checking more entries keeps that error.
pub proof fn lemma_first_failure_sticks(k: int, n: int, check: spec_fn(int) -> Result<(), ParseError>)
    requires
        0 <= k <= n,
        first_failure(k, check) is Err,
    ensures
        first_failure(n, check) == first_failure(k, check),
    decreases n - k,
{
    if k < n {
        lemma_first_failure_sticks(k, n - 1, check);
    }
}

/// Every entry of a passing prefix passes.
pub proof fn lemma_first_failure_ok(n: int, check: spec_fn(int) -> Result<(), ParseError>)
    requires
        first_failure(n, check) is Ok,
    ensures
        forall|i: int| 0 <= i < n ==> (#[trigger] check(i)) is Ok,
    decreases n,
{
    if n > 0 {
        lemma_first_failure_ok(n - 1, check);
    }
}

/// When every entry passes, so does the whole run.
pub proof fn lemma_first_failure_all_ok(n: int, check: spec_fn(int) -> Result<(), ParseError>)
    requires
        forall|i: int| 0 <= i < n ==> (#[trigger] check(i)) is Ok,
    ensures
        first_failure(n, check) is Ok,
    decreases n,
{
    if n > 0 {
        lemma_first_failure_all_ok(n - 1, check);
        assert(check(n - 1) is Ok);
    }
}

/// A successful check carries no information beyond its success.
pub proof fn lemma_ok_is_unit(result: Result<(), ParseError>)
    requires
        result is Ok,
    ensures
        result == Ok::<(), ParseError>(()),
{
    match result {
        Ok(u) => {
            assert(u == ());
        },
        Err(_) => {},
    }
}

} // verus!
