//! Fallible versions of the reference-conversion traits of
//! `core::convert`.
//!
//! `TryFrom` and `TryInto` are missing on purpose: the core library
//! already provides them.

use vstd::prelude::*;

verus! {

/// The try trait for `AsRef`.
pub trait TryAsRef<T: ?Sized> {
    /// The type returned in the event of an error.
    type Error;

    /// Whether `try_as_ref_err` describes when `try_as_ref` fails.
    spec fn obeys_try_as_ref_spec() -> bool;

    /// The error that converting this value reports, if any, when
    /// `obeys_try_as_ref_spec` holds.
    spec fn try_as_ref_err(&self) -> Option<Self::Error>;

    /// The fallible equivalent of `AsRef::as_ref`.
    fn try_as_ref(&self) -> (r: Result<&T, Self::Error>)
        ensures
            Self::obeys_try_as_ref_spec() ==> match self.try_as_ref_err() {
                None => r is Ok,
                Some(e) => r == Err::<&T, Self::Error>(e),
            },
    ;
}

/// The try trait for `AsMut`.
pub trait TryAsMut<T: ?Sized> {
    /// The type returned in the event of an error.
    type Error;

    /// The fallible equivalent of `AsMut::as_mut`.
    fn try_as_mut(&mut self) -> (r: Result<&mut T, Self::Error>);
}

} // verus!
