//! Seals the terminate-on-failure traits: only the two supported input
//! shapes — success-or-failure and present-or-absent — may carry them, since
//! only for those does a failure path mean anything.

use vstd::prelude::*;

verus! {

/// The sealing bound of [`ExitOnError`](crate::ExitOnError) and
/// [`QuitOnError`](crate::QuitOnError).
pub trait Sealed {}

impl<T, E: Into<anyhow::Error>> Sealed for Result<T, E> {
}

impl<T> Sealed for Option<T> {
}

} // verus!
