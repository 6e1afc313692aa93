//! Fallible versions of the borrowing traits of `core::borrow`.

use core::borrow::Borrow;
use vstd::prelude::*;

use crate::Infallible;

verus! {

/// The try trait for `Borrow`.
pub trait TryBorrow<Borrowed: ?Sized> {
    /// The type returned in the event of an error.
    type Error;

    /// Whether `try_borrow_err` describes when `try_borrow` fails.
    spec fn obeys_try_borrow_spec() -> bool;

    /// The error that borrowing from this value reports, if any, when
    /// `obeys_try_borrow_spec` holds.
    spec fn try_borrow_err(&self) -> Option<Self::Error>;

    /// The fallible equivalent of `Borrow::borrow`.
    fn try_borrow(&self) -> (r: Result<&Borrowed, Self::Error>)
        ensures
            Self::obeys_try_borrow_spec() ==> match self.try_borrow_err() {
                None => r is Ok,
                Some(e) => r == Err::<&Borrowed, Self::Error>(e),
            },
    ;
}

/// The try trait for `BorrowMut`.
///
/// Verus cannot name the standard `BorrowMut` trait in an
/// implementation's bounds, so the delegating implementation below
/// covers only the reflexive borrow (`Borrowed = Self`) that the
/// standard library gives every type; other implementations are written
/// by hand.
pub trait TryBorrowMut<Borrowed: ?Sized>: TryBorrow<Borrowed> {
    /// The fallible equivalent of `BorrowMut::borrow_mut`.
    fn try_borrow_mut(&mut self) -> (r: Result<&mut Borrowed, Self::Error>);
}

/// Relies on `T::borrow`: hands out a borrowed view of the value.
#[verifier::external_body]
fn borrow_raw<T: Borrow<Borrowed> + ?Sized, Borrowed: ?Sized>(value: &T) -> &Borrowed {
    value.borrow()
}

impl<T: Borrow<Borrowed>, Borrowed: ?Sized> TryBorrow<Borrowed> for T {
    type Error = Infallible;

    open spec fn obeys_try_borrow_spec() -> bool {
        true
    }

    open spec fn try_borrow_err(&self) -> Option<Infallible> {
        None
    }

    fn try_borrow(&self) -> (r: Result<&Borrowed, Infallible>)
        ensures
            r is Ok,
    {
        Ok(borrow_raw(self))
    }
}

impl<T> TryBorrowMut<T> for T {
    fn try_borrow_mut(&mut self) -> (r: Result<&mut T, Infallible>)
        ensures
            (r matches Ok(v) && *v == *old(self) && *final(self) == *final(v)),
    {
        Ok(self)
    }
}

} // verus!
