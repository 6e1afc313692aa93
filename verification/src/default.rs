//! Fallible version of `core::default::Default`.

use vstd::prelude::*;

use crate::Infallible;

verus! {

/// The try trait for `Default`.
pub trait TryDefault: Sized {
    /// The type returned in the event of an error.
    type Error;

    /// Whether `try_default_spec` describes what `try_default` returns.
    spec fn obeys_try_default_spec() -> bool;

    /// The outcome that `try_default` returns, when
    /// `obeys_try_default_spec` holds.
    spec fn try_default_spec() -> Result<Self, Self::Error>;

    /// The fallible equivalent of `Default::default`.
    fn try_default() -> (r: Result<Self, Self::Error>)
        ensures
            Self::obeys_try_default_spec() ==> r == Self::try_default_spec(),
    ;
}

impl<T: Default> TryDefault for T {
    type Error = Infallible;

    open spec fn obeys_try_default_spec() -> bool {
        false
    }

    open spec fn try_default_spec() -> Result<T, Infallible> {
        Ok(vstd::pervasive::arbitrary())
    }

    fn try_default() -> (r: Result<T, Infallible>)
        ensures
            r matches Ok(v) && call_ensures(<T as Default>::default, (), v),
    {
        Ok(T::default())
    }
}

} // verus!
