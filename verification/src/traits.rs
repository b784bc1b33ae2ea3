//! Container extensions: `Discard`, which consumes an `Option` or `Result`
//! and yields unit, and the decision half of the asynchronous map over the
//! same two container types.
//!
//! An asynchronous map cannot itself be verified code, since the suspension
//! point lies outside what the verifier models. The operation therefore
//! splits into two verified decisions around the one suspension point:
//! [`option_async_map_step`] / [`result_async_map_step`] decide whether the
//! transform is to be invoked — exactly when a value is held, and with that
//! value — or the final container is already fixed; and
//! [`option_async_map_finish`] / [`result_async_map_finish`] rewrap the
//! transform's output. The caller that owns the suspension point performs the
//! transform between the two.

use vstd::prelude::*;

verus! {

/// Consumes a container and yields unit, discarding any held value or
/// failure payload.
///
/// Law: applied to any success, failure, present or absent container this
/// always returns unit and never panics (verified code proves absence of
/// panics), the payload being dropped at the call site.
pub trait Discard {
    /// Takes ownership of the container and discards it.
    fn discard(self);
}

impl<T, E> Discard for Result<T, E> {
    fn discard(self) {
    }
}

impl<T> Discard for Option<T> {
    fn discard(self) {
    }
}

/// What remains to be done after the mapping decision on a container: either
/// invoke the one-shot transform on the held value, or the final container is
/// already fixed and the transform is never invoked.
#[derive(Debug, PartialEq, Eq)]
pub enum MapStep<T, C> {
    /// The container held `T`: the transform is to be invoked on it, once.
    Transform(T),
    /// The container held no value to transform: this is the final result.
    Done(C),
}

/// The container an asynchronous map over an optional value yields, given the
/// original container and the transform's output: present wrapping the output
/// when a value was present, absent unchanged otherwise.
pub open spec fn option_async_map_spec<T, U>(c: Option<T>, u: U) -> Option<U> {
    match c {
        Some(_) => Some(u),
        None => None,
    }
}

/// The container an asynchronous map over a success-or-failure value yields,
/// given the original container and the transform's output: success wrapping
/// the output on success, the original failure payload unchanged otherwise.
pub open spec fn result_async_map_spec<T, E, U>(c: Result<T, E>, u: U) -> Result<U, E> {
    match c {
        Ok(_) => Ok(u),
        Err(e) => Err(e),
    }
}

/// The mapping decision on an optional-value container: asks for the
/// transform exactly when a value is present, handing over that value;
/// otherwise the final container is the absent container, untouched.
pub fn option_async_map_step<T, U>(c: Option<T>) -> (s: MapStep<T, Option<U>>)
    ensures
        (match c {
            Some(t) => s == MapStep::<T, Option<U>>::Transform(t),
            None => s == MapStep::<T, Option<U>>::Done(None::<U>),
        }),
{
    match c {
        Some(t) => MapStep::Transform(t),
        None => MapStep::Done(None),
    }
}

/// Rewraps the transform's output as a present container.
pub fn option_async_map_finish<U>(u: U) -> (r: Option<U>)
    ensures
        r == Some(u),
{
    Some(u)
}

/// The mapping decision on a success-or-failure container: asks for the
/// transform exactly when a success value is held, handing over that value;
/// otherwise the final container carries the original failure payload,
/// untouched.
pub fn result_async_map_step<T, E, U>(c: Result<T, E>) -> (s: MapStep<T, Result<U, E>>)
    ensures
        (match c {
            Ok(t) => s == MapStep::<T, Result<U, E>>::Transform(t),
            Err(e) => s == MapStep::<T, Result<U, E>>::Done(Err(e)),
        }),
{
    match c {
        Ok(t) => MapStep::Transform(t),
        Err(e) => MapStep::Done(Err(e)),
    }
}

/// Rewraps the transform's output as a success container.
pub fn result_async_map_finish<U, E>(u: U) -> (r: Result<U, E>)
    ensures
        r == Ok::<U, E>(u),
{
    Ok(u)
}

/// Law: an asynchronous map over an optional value, performed as decision,
/// transform, rewrap, yields exactly what [`option_async_map_spec`] states —
/// present wrapping the transform's output `u` when a value was present, the
/// absent container untouched (and the transform never invoked) otherwise.
///
/// `s` is the decision taken on `c`, and `r` the container the caller ends
/// with: the rewrapped transform output after `MapStep::Transform`, the fixed
/// container after `MapStep::Done`.
pub proof fn lemma_option_async_map<T, U>(c: Option<T>, s: MapStep<T, Option<U>>, u: U, r: Option<U>)
    requires
        (match c {
            Some(t) => s == MapStep::<T, Option<U>>::Transform(t),
            None => s == MapStep::<T, Option<U>>::Done(None::<U>),
        }),
        (match s {
            MapStep::Transform(_) => r == Some(u),
            MapStep::Done(d) => r == d,
        }),
    ensures
        r == option_async_map_spec(c, u),
{
}

/// Law: an asynchronous map over a success-or-failure value, performed as
/// decision, transform, rewrap, yields exactly what [`result_async_map_spec`]
/// states — success wrapping the transform's output `u` on success, the
/// original failure payload untouched (and the transform never invoked)
/// otherwise.
pub proof fn lemma_result_async_map<T, E, U>(
    c: Result<T, E>,
    s: MapStep<T, Result<U, E>>,
    u: U,
    r: Result<U, E>,
)
    requires
        (match c {
            Ok(t) => s == MapStep::<T, Result<U, E>>::Transform(t),
            Err(e) => s == MapStep::<T, Result<U, E>>::Done(Err(e)),
        }),
        (match s {
            MapStep::Transform(_) => r == Ok::<U, E>(u),
            MapStep::Done(d) => r == d,
        }),
    ensures
        r == result_async_map_spec(c, u),
{
}

} // verus!
