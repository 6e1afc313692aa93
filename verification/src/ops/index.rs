//! Fallible versions of the indexing traits of `core::ops`.

use core::ops::Index;
use core::ops::IndexMut;
use vstd::prelude::*;

use crate::Infallible;

verus! {

/// The try trait for `Index`.
pub trait TryIndex<Idx> {
    /// The type returned in the event of an error.
    type Error;

    /// The type returned after performing the operation.
    type Output: ?Sized;

    /// The indexes that `try_index` accepts without panicking.
    spec fn try_index_req(&self, index: &Idx) -> bool;

    /// Whether `try_index_err` describes when `try_index` fails.
    spec fn obeys_try_index_spec() -> bool;

    /// The error that reading at `index` reports, if any, when
    /// `obeys_try_index_spec` holds.
    spec fn try_index_err(&self, index: &Idx) -> Option<Self::Error>;

    /// The fallible equivalent of `Index::index`.
    fn try_index(&self, index: Idx) -> (r: Result<&Self::Output, Self::Error>)
        requires
            self.try_index_req(&index),
        ensures
            Self::obeys_try_index_spec() ==> match self.try_index_err(&index) {
                None => r is Ok,
                Some(e) => r == Err::<&Self::Output, Self::Error>(e),
            },
    ;
}

/// The try trait for `IndexMut`.
pub trait TryIndexMut<Idx>: TryIndex<Idx> {
    /// The fallible equivalent of `IndexMut::index_mut`.
    fn try_index_mut(&mut self, index: Idx) -> (r: Result<&mut Self::Output, Self::Error>)
        requires
            old(self).try_index_req(&index),
    ;
}

/// Relies on `T::index_mut`: hands out an exclusive reference to the
/// addressed element; the index is restricted to those that reading
/// accepts.
#[verifier::external_body]
fn index_mut_raw<T: IndexMut<Idx> + ?Sized, Idx>(container: &mut T, index: Idx) -> &mut <T as Index<
    Idx,
>>::Output
    requires
        vstd::std_specs::core::IndexSpec::index_req(&*old(container), &index),
{
    container.index_mut(index)
}

impl<T: Index<Idx>, Idx> TryIndex<Idx> for T {
    type Error = Infallible;

    type Output = <T as Index<Idx>>::Output;

    open spec fn try_index_req(&self, index: &Idx) -> bool {
        vstd::std_specs::core::IndexSpec::index_req(self, index)
    }

    open spec fn obeys_try_index_spec() -> bool {
        true
    }

    open spec fn try_index_err(&self, index: &Idx) -> Option<Infallible> {
        None
    }

    fn try_index(&self, index: Idx) -> (r: Result<&Self::Output, Infallible>)
        ensures
            r is Ok,
    {
        Ok(self.index(index))
    }
}

impl<T: IndexMut<Idx>, Idx> TryIndexMut<Idx> for T {
    fn try_index_mut(&mut self, index: Idx) -> (r: Result<&mut Self::Output, Infallible>)
        ensures
            r is Ok,
    {
        Ok(index_mut_raw(self, index))
    }
}

} // verus!
