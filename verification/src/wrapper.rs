//! The propagation wrapper: runs a computation as an immediately-invoked
//! nullary closure and yields its result.
//!
//! Inside the closure, early-return propagation (`?`) exits the closure, not
//! the caller's own function, so code that chains `?` on `Option` or `Result`
//! values can run inside a function whose return type supports neither.

use vstd::prelude::*;

verus! {

/// Invokes the given nullary computation exactly once and returns its result,
/// unchanged: whatever the computation promises of its result holds of the
/// returned value.
///
/// This is the synchronous propagation wrapper, for a block and for a single
/// expression alike: either is passed as the body of the closure.
pub fn wrap_call<T, F: FnOnce() -> T>(f: F) -> (r: T)
    requires
        call_requires(f, ()),
    ensures
        call_ensures(f, (), r),
{
    f()
}

/// Law: for every value `v`, wrapping a computation that produces the success
/// container `Ok(v)` yields exactly `Ok(v)`.
pub fn wrap_produce_success<T, E>(v: T) -> (r: Result<T, E>)
    ensures
        r == Ok::<T, E>(v),
{
    let produce_success = (|| -> (c: Result<T, E>)
        ensures
            c == Ok::<T, E>(v),
        {
            Ok(v)
        });
    wrap_call(produce_success)
}

/// Law: for every failure `e`, wrapping a computation that produces the
/// failure container `Err(e)` yields exactly `Err(e)`.
pub fn wrap_produce_failure<T, E>(e: E) -> (r: Result<T, E>)
    ensures
        r == Err::<T, E>(e),
{
    let produce_failure = (|| -> (c: Result<T, E>)
        ensures
            c == Err::<T, E>(e),
        {
            Err(e)
        });
    wrap_call(produce_failure)
}

/// Law: for every value `v`, wrapping a computation that produces the present
/// container `Some(v)` yields exactly `Some(v)`.
pub fn wrap_produce_present<T>(v: T) -> (r: Option<T>)
    ensures
        r == Some(v),
{
    let produce_present = (|| -> (c: Option<T>)
        ensures
            c == Some(v),
        {
            Some(v)
        });
    wrap_call(produce_present)
}

/// Law: wrapping a computation that produces the absent container yields
/// exactly the absent container.
pub fn wrap_produce_absent<T>() -> (r: Option<T>)
    ensures
        r is None,
{
    let produce_absent = (|| -> (c: Option<T>)
        ensures
            c is None,
        {
            None
        });
    wrap_call(produce_absent)
}

} // verus!
