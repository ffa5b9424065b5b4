//! Conversion method for infallible results.
//!
//! This crate provides a convenience trait `UnwrapInfallible`,
//! adding method `unwrap_infallible` to `Result` types where an `Err` variant
//! is statically known to never occur.
//!
//! Unlike `Result::unwrap`, the method carries no panic path in its
//! contract: it is implemented exactly for the result types whose error
//! type is uninhabited, so the success payload is always there to return.
//! The canonical uninhabited error type is `core::convert::Infallible`;
//! any user-declared type with no variants can opt in by supplying a
//! conversion into `Infallible` (see [`IntoInfallible`]), which serves as
//! an explicit, per-type proof that no value of it can exist.

use core::convert::Infallible;
use vstd::prelude::*;

verus! {

/// An explicit proof that a type is uninhabited, given as a conversion
/// into [`Infallible`], the canonical uninhabited type.
///
/// Since no value of `Infallible` can ever exist, a type that converts
/// into it can have no values either: the conversion can never actually
/// run. Implement this trait for a zero-variant type of your own (the
/// body of the conversion is then an empty `match`) to unlock
/// [`UnwrapInfallible`] on results that use that type as their error.
pub trait IntoInfallible {
    /// Converts this (nonexistent) value into `Infallible`.
    fn into_infallible(self) -> Infallible;
}

impl IntoInfallible for Infallible {
    fn into_infallible(self) -> Infallible {
        self
    }
}

/// Unwrapping an infallible result into its success value.
pub trait UnwrapInfallible: Sized {
    /// Type of the success payload of the container.
    type Output;

    /// The container that holds `v` as its success payload.
    spec fn success(v: Self::Output) -> Self;

    /// Unwraps a result, returning the content of an `Ok`.
    ///
    /// Unlike `Result::unwrap`, this method is known to never panic
    /// on the result types it is implemented for. Therefore, it can be used
    /// instead of `unwrap` as a maintainability safeguard that will fail
    /// to compile if the error type of the `Result` is later changed
    /// to an error that can actually occur.
    fn unwrap_infallible(self) -> (r: Self::Output)
        ensures
            self == Self::success(r),
    ;

    /// Round-trip law: a container determines its success payload, so
    /// together with `unwrap_infallible`'s postcondition, unwrapping the
    /// container built from `v` yields exactly `v`.
    proof fn success_determines_payload(v: Self::Output, r: Self::Output)
        ensures
            Self::success(v) == Self::success(r) ==> v == r,
    ;
}

/// The container `r` is success-tagged and holds exactly `v` as its
/// payload.
pub open spec fn holds_success<T, E>(r: Result<T, E>, v: T) -> bool {
    r == Ok::<T, E>(v)
}

/// Extracts the success value of a result whose error type is
/// uninhabited.
///
/// This is the whole operation in function form: return the payload of
/// an `Ok`, and on the `Err` branch — which can never be taken, since no
/// value of `E` exists — convert the error into `Infallible` and let the
/// impossibility of that value close the branch.
pub fn unwrap_or_extract<T, E: IntoInfallible>(r: Result<T, E>) -> (v: T)
    ensures
        holds_success(r, v),
{
    match r {
        Ok(v) => v,
        Err(e) => {
            let never: Infallible = e.into_infallible();
            // No value of `Infallible` exists, so this arm is unreachable;
            // asking for the `Ok` payload of a result rebuilt around
            // `never` lets the verifier see the contradiction.
            infallible_is_ok(Err(never))
        },
    }
}

impl<T, E: IntoInfallible> UnwrapInfallible for Result<T, E> {
    type Output = T;

    open spec fn success(v: T) -> Self {
        Ok(v)
    }

    fn unwrap_infallible(self) -> (r: T) {
        unwrap_or_extract(self)
    }

    proof fn success_determines_payload(v: T, r: T) {
    }
}

/// Relies on `core::convert::Infallible` being an enum with no variants:
/// no value of it can ever be constructed, so a result with it as error
/// type necessarily holds an `Ok`, and the `Err` arm below can never run.
#[verifier::external_body]
fn infallible_is_ok<T>(r: Result<T, Infallible>) -> (v: T)
    ensures
        holds_success(r, v),
{
    match r {
        Ok(v) => v,
        Err(never) => match never {},
    }
}

} // verus!
