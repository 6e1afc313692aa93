//! Fallible versions of the cloning traits of `core::clone`.

use vstd::pervasive::cloned;
use vstd::prelude::*;

use crate::Infallible;

verus! {

/// The try trait for `Clone`.
pub trait TryClone: Sized {
    /// The type returned in the event of an error.
    type Error;

    /// Whether `try_clone_spec` describes what `try_clone` returns.
    spec fn obeys_try_clone_spec() -> bool;

    /// The outcome that `try_clone` returns, when `obeys_try_clone_spec`
    /// holds.
    spec fn try_clone_spec(&self) -> Result<Self, Self::Error>;

    /// The fallible equivalent of `Clone::clone`.
    fn try_clone(&self) -> (r: Result<Self, Self::Error>)
        ensures
            Self::obeys_try_clone_spec() ==> r == self.try_clone_spec(),
    ;

    /// The fallible equivalent of `Clone::clone_from`: copies the state
    /// of `source` into `self`.  When cloning the source fails, the
    /// failure is reported unchanged and `self` keeps its prior value.
    fn try_clone_from(&mut self, source: &Self) -> (r: Result<(), Self::Error>)
        ensures
            Self::obeys_try_clone_spec() ==> match source.try_clone_spec() {
                Ok(v) => r == Ok::<(), Self::Error>(()) && *final(self) == v,
                Err(e) => r == Err::<(), Self::Error>(e) && *final(self) == *old(self),
            },
        default_ensures
            exists|c: Result<Self, Self::Error>|
                {
                    &&& #[trigger] call_ensures(Self::try_clone, (source,), c)
                    &&& match c {
                        Ok(v) => r == Ok::<(), Self::Error>(()) && *final(self) == v,
                        Err(e) => r == Err::<(), Self::Error>(e) && *final(self) == *old(self),
                    }
                },
    {
        match source.try_clone() {
            Ok(v) => {
                *self = v;
                Ok(())
            },
            Err(e) => Err(e),
        }
    }
}

/// Relies on `T::clone_from`: the standard library documents it as
/// equivalent in functionality to `*dst = src.clone()`, possibly reusing
/// the resources of `dst`.
#[verifier::external_body]
fn clone_from_raw<T: Clone>(dst: &mut T, src: &T)
    ensures
        cloned::<T>(*src, *final(dst)),
{
    dst.clone_from(src)
}

impl<T: Clone> TryClone for T {
    type Error = Infallible;

    open spec fn obeys_try_clone_spec() -> bool {
        false
    }

    open spec fn try_clone_spec(&self) -> Result<T, Infallible> {
        Ok(vstd::pervasive::arbitrary())
    }

    fn try_clone(&self) -> (r: Result<T, Infallible>)
        ensures
            r matches Ok(c) && cloned::<T>(*self, c),
    {
        Ok(self.clone())
    }

    fn try_clone_from(&mut self, source: &Self) -> (r: Result<(), Infallible>)
        ensures
            r is Ok,
            cloned::<T>(*source, *final(self)),
    {
        clone_from_raw(self, source);
        Ok(())
    }
}

} // verus!
