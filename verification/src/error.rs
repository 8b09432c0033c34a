//! Helpers that turn a failed computation into a fallback value.

use vstd::prelude::*;

verus! {

/// What [`drop_errors_or`] returns: the success value, or the fallback when
/// the computation failed.
pub open spec fn value_or<T, E>(ran: Result<T, E>, fallback: T) -> T {
    match ran {
        Ok(t) => t,
        Err(_) => fallback,
    }
}

/// Suppresses an error: returns the success value, or `default` if `ran` is an
/// error. The error itself is discarded.
pub fn drop_errors_or<T, E: core::fmt::Debug>(ran: Result<T, E>, default: T) -> (out: T)
    ensures
        out == value_or(ran, default),
{
    match ran {
        Ok(t) => t,
        Err(_) => default,
    }
}

/// Suppresses an error: returns the success value, or the default value of
/// the result type if `ran` is an error.
///
/// To choose the fallback yourself, see [`drop_errors_or`].
pub fn drop_errors_or_default<T: Default, E: core::fmt::Debug>(ran: Result<T, E>) -> (out: T)
    ensures
        ran matches Ok(t) ==> out == t,
        ran is Err ==> call_ensures(T::default, (), out),
{
    match ran {
        Ok(t) => t,
        Err(_) => T::default(),
    }
}

} // verus!
