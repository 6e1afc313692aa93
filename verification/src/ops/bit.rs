//! Fallible versions of the bitwise operator traits of `core::ops`.

use core::ops::BitAnd;
use core::ops::BitOr;
use core::ops::BitXor;
use core::ops::Not;
use core::ops::Shl;
use core::ops::Shr;
use vstd::prelude::*;
use vstd::std_specs::ops::BitAndSpec;
use vstd::std_specs::ops::BitOrSpec;
use vstd::std_specs::ops::BitXorSpec;
use vstd::std_specs::ops::NotSpec;
use vstd::std_specs::ops::ShlSpec;
use vstd::std_specs::ops::ShrSpec;

use crate::Infallible;

verus! {

/// The try trait for `Not`.
pub trait TryNot {
    /// The type returned in the event of an error.
    type Error;

    /// The type returned after performing the operation.
    type Output;

    /// The operands that `try_not` accepts without panicking.
    spec fn try_not_req(self) -> bool where Self: Sized;

    /// Whether `try_not_spec` describes what `try_not` returns.
    spec fn obeys_try_not_spec() -> bool;

    /// The outcome that `try_not` returns, when `obeys_try_not_spec`
    /// holds.
    spec fn try_not_spec(self) -> Result<Self::Output, Self::Error> where Self: Sized;

    /// The fallible equivalent of `Not::not`.
    fn try_not(self) -> (r: Result<Self::Output, Self::Error>)
        requires
            self.try_not_req(),
        ensures
            Self::obeys_try_not_spec() ==> r == self.try_not_spec(),
    ;
}

impl<T: Not> TryNot for T {
    type Error = Infallible;

    type Output = <T as Not>::Output;

    open spec fn try_not_req(self) -> bool {
        self.not_req()
    }

    open spec fn obeys_try_not_spec() -> bool {
        <T as NotSpec>::obeys_not_spec()
    }

    open spec fn try_not_spec(self) -> Result<Self::Output, Infallible> {
        Ok(self.not_spec())
    }

    fn try_not(self) -> (r: Result<Self::Output, Infallible>)
        ensures
            r is Ok,
    {
        Ok(self.not())
    }
}

/// The try trait for `BitAnd`.
pub trait TryBitAnd<Rhs = Self> {
    /// The type returned in the event of an error.
    type Error;

    /// The type returned after performing the operation.
    type Output;

    /// The operands that `try_bitand` accepts without panicking.
    spec fn try_bitand_req(self, other: Rhs) -> bool where Self: Sized;

    /// Whether `try_bitand_spec` describes what `try_bitand` returns.
    spec fn obeys_try_bitand_spec() -> bool;

    /// The outcome that `try_bitand` returns, when `obeys_try_bitand_spec`
    /// holds.
    spec fn try_bitand_spec(self, other: Rhs) -> Result<Self::Output, Self::Error> where Self: Sized;

    /// The fallible equivalent of `BitAnd::bitand`.
    fn try_bitand(self, other: Rhs) -> (r: Result<Self::Output, Self::Error>)
        requires
            self.try_bitand_req(other),
        ensures
            Self::obeys_try_bitand_spec() ==> r == self.try_bitand_spec(other),
    ;
}

impl<T: BitAnd<Rhs>, Rhs> TryBitAnd<Rhs> for T {
    type Error = Infallible;

    type Output = <T as BitAnd<Rhs>>::Output;

    open spec fn try_bitand_req(self, other: Rhs) -> bool {
        self.bitand_req(other)
    }

    open spec fn obeys_try_bitand_spec() -> bool {
        <T as BitAndSpec<Rhs>>::obeys_bitand_spec()
    }

    open spec fn try_bitand_spec(self, other: Rhs) -> Result<Self::Output, Infallible> {
        Ok(self.bitand_spec(other))
    }

    fn try_bitand(self, other: Rhs) -> (r: Result<Self::Output, Infallible>)
        ensures
            r is Ok,
    {
        Ok(self & other)
    }
}

/// The try trait for `BitOr`.
pub trait TryBitOr<Rhs = Self> {
    /// The type returned in the event of an error.
    type Error;

    /// The type returned after performing the operation.
    type Output;

    /// The operands that `try_bitor` accepts without panicking.
    spec fn try_bitor_req(self, other: Rhs) -> bool where Self: Sized;

    /// Whether `try_bitor_spec` describes what `try_bitor` returns.
    spec fn obeys_try_bitor_spec() -> bool;

    /// The outcome that `try_bitor` returns, when `obeys_try_bitor_spec`
    /// holds.
    spec fn try_bitor_spec(self, other: Rhs) -> Result<Self::Output, Self::Error> where Self: Sized;

    /// The fallible equivalent of `BitOr::bitor`.
    fn try_bitor(self, other: Rhs) -> (r: Result<Self::Output, Self::Error>)
        requires
            self.try_bitor_req(other),
        ensures
            Self::obeys_try_bitor_spec() ==> r == self.try_bitor_spec(other),
    ;
}

impl<T: BitOr<Rhs>, Rhs> TryBitOr<Rhs> for T {
    type Error = Infallible;

    type Output = <T as BitOr<Rhs>>::Output;

    open spec fn try_bitor_req(self, other: Rhs) -> bool {
        self.bitor_req(other)
    }

    open spec fn obeys_try_bitor_spec() -> bool {
        <T as BitOrSpec<Rhs>>::obeys_bitor_spec()
    }

    open spec fn try_bitor_spec(self, other: Rhs) -> Result<Self::Output, Infallible> {
        Ok(self.bitor_spec(other))
    }

    fn try_bitor(self, other: Rhs) -> (r: Result<Self::Output, Infallible>)
        ensures
            r is Ok,
    {
        Ok(self | other)
    }
}

/// The try trait for `BitXor`.
pub trait TryBitXor<Rhs = Self> {
    /// The type returned in the event of an error.
    type Error;

    /// The type returned after performing the operation.
    type Output;

    /// The operands that `try_bitxor` accepts without panicking.
    spec fn try_bitxor_req(self, other: Rhs) -> bool where Self: Sized;

    /// Whether `try_bitxor_spec` describes what `try_bitxor` returns.
    spec fn obeys_try_bitxor_spec() -> bool;

    /// The outcome that `try_bitxor` returns, when `obeys_try_bitxor_spec`
    /// holds.
    spec fn try_bitxor_spec(self, other: Rhs) -> Result<Self::Output, Self::Error> where Self: Sized;

    /// The fallible equivalent of `BitXor::bitxor`.
    fn try_bitxor(self, other: Rhs) -> (r: Result<Self::Output, Self::Error>)
        requires
            self.try_bitxor_req(other),
        ensures
            Self::obeys_try_bitxor_spec() ==> r == self.try_bitxor_spec(other),
    ;
}

impl<T: BitXor<Rhs>, Rhs> TryBitXor<Rhs> for T {
    type Error = Infallible;

    type Output = <T as BitXor<Rhs>>::Output;

    open spec fn try_bitxor_req(self, other: Rhs) -> bool {
        self.bitxor_req(other)
    }

    open spec fn obeys_try_bitxor_spec() -> bool {
        <T as BitXorSpec<Rhs>>::obeys_bitxor_spec()
    }

    open spec fn try_bitxor_spec(self, other: Rhs) -> Result<Self::Output, Infallible> {
        Ok(self.bitxor_spec(other))
    }

    fn try_bitxor(self, other: Rhs) -> (r: Result<Self::Output, Infallible>)
        ensures
            r is Ok,
    {
        Ok(self ^ other)
    }
}

/// The try trait for `Shl`.
pub trait TryShl<Rhs = Self> {
    /// The type returned in the event of an error.
    type Error;

    /// The type returned after performing the operation.
    type Output;

    /// The operands that `try_shl` accepts without panicking.
    spec fn try_shl_req(self, other: Rhs) -> bool where Self: Sized;

    /// Whether `try_shl_spec` describes what `try_shl` returns.
    spec fn obeys_try_shl_spec() -> bool;

    /// The outcome that `try_shl` returns, when `obeys_try_shl_spec`
    /// holds.
    spec fn try_shl_spec(self, other: Rhs) -> Result<Self::Output, Self::Error> where Self: Sized;

    /// The fallible equivalent of `Shl::shl`.
    fn try_shl(self, other: Rhs) -> (r: Result<Self::Output, Self::Error>)
        requires
            self.try_shl_req(other),
        ensures
            Self::obeys_try_shl_spec() ==> r == self.try_shl_spec(other),
    ;
}

impl<T: Shl<Rhs>, Rhs> TryShl<Rhs> for T {
    type Error = Infallible;

    type Output = <T as Shl<Rhs>>::Output;

    open spec fn try_shl_req(self, other: Rhs) -> bool {
        self.shl_req(other)
    }

    open spec fn obeys_try_shl_spec() -> bool {
        <T as ShlSpec<Rhs>>::obeys_shl_spec()
    }

    open spec fn try_shl_spec(self, other: Rhs) -> Result<Self::Output, Infallible> {
        Ok(self.shl_spec(other))
    }

    fn try_shl(self, other: Rhs) -> (r: Result<Self::Output, Infallible>)
        ensures
            r is Ok,
    {
        Ok(self << other)
    }
}

/// The try trait for `Shr`.
pub trait TryShr<Rhs = Self> {
    /// The type returned in the event of an error.
    type Error;

    /// The type returned after performing the operation.
    type Output;

    /// The operands that `try_shr` accepts without panicking.
    spec fn try_shr_req(self, other: Rhs) -> bool where Self: Sized;

    /// Whether `try_shr_spec` describes what `try_shr` returns.
    spec fn obeys_try_shr_spec() -> bool;

    /// The outcome that `try_shr` returns, when `obeys_try_shr_spec`
    /// holds.
    spec fn try_shr_spec(self, other: Rhs) -> Result<Self::Output, Self::Error> where Self: Sized;

    /// The fallible equivalent of `Shr::shr`.
    fn try_shr(self, other: Rhs) -> (r: Result<Self::Output, Self::Error>)
        requires
            self.try_shr_req(other),
        ensures
            Self::obeys_try_shr_spec() ==> r == self.try_shr_spec(other),
    ;
}

impl<T: Shr<Rhs>, Rhs> TryShr<Rhs> for T {
    type Error = Infallible;

    type Output = <T as Shr<Rhs>>::Output;

    open spec fn try_shr_req(self, other: Rhs) -> bool {
        self.shr_req(other)
    }

    open spec fn obeys_try_shr_spec() -> bool {
        <T as ShrSpec<Rhs>>::obeys_shr_spec()
    }

    open spec fn try_shr_spec(self, other: Rhs) -> Result<Self::Output, Infallible> {
        Ok(self.shr_spec(other))
    }

    fn try_shr(self, other: Rhs) -> (r: Result<Self::Output, Infallible>)
        ensures
            r is Ok,
    {
        Ok(self >> other)
    }
}

/// The try trait for `BitAndAssign`.
///
/// The delegating implementation is guarded by `BitAnd<Rhs, Output = Self>
/// together with `Copy`, not by the standard `BitAndAssign` trait: Verus
/// cannot name the standard assign traits in an implementation's bounds,
/// so the delegation computes the non-assigning operation and stores the
/// result.  A type that implements only `BitAndAssign` is not covered.
pub trait TryBitAndAssign<Rhs = Self> {
    /// The type returned in the event of an error.
    type Error;

    /// The operands that `try_bitand_assign` accepts without panicking.
    spec fn try_bitand_assign_req(&self, other: &Rhs) -> bool;

    /// Whether `try_bitand_assign_spec` describes what `try_bitand_assign`
    /// does.
    spec fn obeys_try_bitand_assign_spec() -> bool;

    /// The new value on success, or the reported error, when
    /// `obeys_try_bitand_assign_spec` holds.
    spec fn try_bitand_assign_spec(&self, other: &Rhs) -> Result<Self, Self::Error> where Self: Sized;

    /// The fallible equivalent of `BitAndAssign::bitand_assign`.
    fn try_bitand_assign(&mut self, other: Rhs) -> (r: Result<(), Self::Error>) where Self: Sized
        requires
            old(self).try_bitand_assign_req(&other),
        ensures
            Self::obeys_try_bitand_assign_spec() ==> match old(self).try_bitand_assign_spec(&other) {
                Ok(v) => r == Ok::<(), Self::Error>(()) && *final(self) == v,
                Err(e) => r == Err::<(), Self::Error>(e),
            },
    ;
}

impl<T: BitAnd<Rhs, Output = T> + Copy, Rhs> TryBitAndAssign<Rhs> for T {
    type Error = Infallible;

    open spec fn try_bitand_assign_req(&self, other: &Rhs) -> bool {
        (*self).bitand_req(*other)
    }

    open spec fn obeys_try_bitand_assign_spec() -> bool {
        <T as BitAndSpec<Rhs>>::obeys_bitand_spec()
    }

    open spec fn try_bitand_assign_spec(&self, other: &Rhs) -> Result<T, Infallible> {
        Ok((*self).bitand_spec(*other))
    }

    fn try_bitand_assign(&mut self, other: Rhs) -> (r: Result<(), Infallible>)
        ensures
            r is Ok,
    {
        *self = (*self).bitand(other);
        Ok(())
    }
}

/// The try trait for `BitOrAssign`.
///
/// The delegating implementation is guarded by `BitOr<Rhs, Output = Self>
/// together with `Copy`, not by the standard `BitOrAssign` trait: Verus
/// cannot name the standard assign traits in an implementation's bounds,
/// so the delegation computes the non-assigning operation and stores the
/// result.  A type that implements only `BitOrAssign` is not covered.
pub trait TryBitOrAssign<Rhs = Self> {
    /// The type returned in the event of an error.
    type Error;

    /// The operands that `try_bitor_assign` accepts without panicking.
    spec fn try_bitor_assign_req(&self, other: &Rhs) -> bool;

    /// Whether `try_bitor_assign_spec` describes what `try_bitor_assign`
    /// does.
    spec fn obeys_try_bitor_assign_spec() -> bool;

    /// The new value on success, or the reported error, when
    /// `obeys_try_bitor_assign_spec` holds.
    spec fn try_bitor_assign_spec(&self, other: &Rhs) -> Result<Self, Self::Error> where Self: Sized;

    /// The fallible equivalent of `BitOrAssign::bitor_assign`.
    fn try_bitor_assign(&mut self, other: Rhs) -> (r: Result<(), Self::Error>) where Self: Sized
        requires
            old(self).try_bitor_assign_req(&other),
        ensures
            Self::obeys_try_bitor_assign_spec() ==> match old(self).try_bitor_assign_spec(&other) {
                Ok(v) => r == Ok::<(), Self::Error>(()) && *final(self) == v,
                Err(e) => r == Err::<(), Self::Error>(e),
            },
    ;
}

impl<T: BitOr<Rhs, Output = T> + Copy, Rhs> TryBitOrAssign<Rhs> for T {
    type Error = Infallible;

    open spec fn try_bitor_assign_req(&self, other: &Rhs) -> bool {
        (*self).bitor_req(*other)
    }

    open spec fn obeys_try_bitor_assign_spec() -> bool {
        <T as BitOrSpec<Rhs>>::obeys_bitor_spec()
    }

    open spec fn try_bitor_assign_spec(&self, other: &Rhs) -> Result<T, Infallible> {
        Ok((*self).bitor_spec(*other))
    }

    fn try_bitor_assign(&mut self, other: Rhs) -> (r: Result<(), Infallible>)
        ensures
            r is Ok,
    {
        *self = (*self).bitor(other);
        Ok(())
    }
}

/// The try trait for `BitXorAssign`.
///
/// The delegating implementation is guarded by `BitXor<Rhs, Output = Self>
/// together with `Copy`, not by the standard `BitXorAssign` trait: Verus
/// cannot name the standard assign traits in an implementation's bounds,
/// so the delegation computes the non-assigning operation and stores the
/// result.  A type that implements only `BitXorAssign` is not covered.
pub trait TryBitXorAssign<Rhs = Self> {
    /// The type returned in the event of an error.
    type Error;

    /// The operands that `try_bitxor_assign` accepts without panicking.
    spec fn try_bitxor_assign_req(&self, other: &Rhs) -> bool;

    /// Whether `try_bitxor_assign_spec` describes what `try_bitxor_assign`
    /// does.
    spec fn obeys_try_bitxor_assign_spec() -> bool;

    /// The new value on success, or the reported error, when
    /// `obeys_try_bitxor_assign_spec` holds.
    spec fn try_bitxor_assign_spec(&self, other: &Rhs) -> Result<Self, Self::Error> where Self: Sized;

    /// The fallible equivalent of `BitXorAssign::bitxor_assign`.
    fn try_bitxor_assign(&mut self, other: Rhs) -> (r: Result<(), Self::Error>) where Self: Sized
        requires
            old(self).try_bitxor_assign_req(&other),
        ensures
            Self::obeys_try_bitxor_assign_spec() ==> match old(self).try_bitxor_assign_spec(&other) {
                Ok(v) => r == Ok::<(), Self::Error>(()) && *final(self) == v,
                Err(e) => r == Err::<(), Self::Error>(e),
            },
    ;
}

impl<T: BitXor<Rhs, Output = T> + Copy, Rhs> TryBitXorAssign<Rhs> for T {
    type Error = Infallible;

    open spec fn try_bitxor_assign_req(&self, other: &Rhs) -> bool {
        (*self).bitxor_req(*other)
    }

    open spec fn obeys_try_bitxor_assign_spec() -> bool {
        <T as BitXorSpec<Rhs>>::obeys_bitxor_spec()
    }

    open spec fn try_bitxor_assign_spec(&self, other: &Rhs) -> Result<T, Infallible> {
        Ok((*self).bitxor_spec(*other))
    }

    fn try_bitxor_assign(&mut self, other: Rhs) -> (r: Result<(), Infallible>)
        ensures
            r is Ok,
    {
        *self = (*self).bitxor(other);
        Ok(())
    }
}

/// The try trait for `ShlAssign`.
///
/// The delegating implementation is guarded by `Shl<Rhs, Output = Self>
/// together with `Copy`, not by the standard `ShlAssign` trait: Verus
/// cannot name the standard assign traits in an implementation's bounds,
/// so the delegation computes the non-assigning operation and stores the
/// result.  A type that implements only `ShlAssign` is not covered.
pub trait TryShlAssign<Rhs = Self> {
    /// The type returned in the event of an error.
    type Error;

    /// The operands that `try_shl_assign` accepts without panicking.
    spec fn try_shl_assign_req(&self, other: &Rhs) -> bool;

    /// Whether `try_shl_assign_spec` describes what `try_shl_assign`
    /// does.
    spec fn obeys_try_shl_assign_spec() -> bool;

    /// The new value on success, or the reported error, when
    /// `obeys_try_shl_assign_spec` holds.
    spec fn try_shl_assign_spec(&self, other: &Rhs) -> Result<Self, Self::Error> where Self: Sized;

    /// The fallible equivalent of `ShlAssign::shl_assign`.
    fn try_shl_assign(&mut self, other: Rhs) -> (r: Result<(), Self::Error>) where Self: Sized
        requires
            old(self).try_shl_assign_req(&other),
        ensures
            Self::obeys_try_shl_assign_spec() ==> match old(self).try_shl_assign_spec(&other) {
                Ok(v) => r == Ok::<(), Self::Error>(()) && *final(self) == v,
                Err(e) => r == Err::<(), Self::Error>(e),
            },
    ;
}

impl<T: Shl<Rhs, Output = T> + Copy, Rhs> TryShlAssign<Rhs> for T {
    type Error = Infallible;

    open spec fn try_shl_assign_req(&self, other: &Rhs) -> bool {
        (*self).shl_req(*other)
    }

    open spec fn obeys_try_shl_assign_spec() -> bool {
        <T as ShlSpec<Rhs>>::obeys_shl_spec()
    }

    open spec fn try_shl_assign_spec(&self, other: &Rhs) -> Result<T, Infallible> {
        Ok((*self).shl_spec(*other))
    }

    fn try_shl_assign(&mut self, other: Rhs) -> (r: Result<(), Infallible>)
        ensures
            r is Ok,
    {
        *self = (*self).shl(other);
        Ok(())
    }
}

/// The try trait for `ShrAssign`.
///
/// The delegating implementation is guarded by `Shr<Rhs, Output = Self>
/// together with `Copy`, not by the standard `ShrAssign` trait: Verus
/// cannot name the standard assign traits in an implementation's bounds,
/// so the delegation computes the non-assigning operation and stores the
/// result.  A type that implements only `ShrAssign` is not covered.
pub trait TryShrAssign<Rhs = Self> {
    /// The type returned in the event of an error.
    type Error;

    /// The operands that `try_shr_assign` accepts without panicking.
    spec fn try_shr_assign_req(&self, other: &Rhs) -> bool;

    /// Whether `try_shr_assign_spec` describes what `try_shr_assign`
    /// does.
    spec fn obeys_try_shr_assign_spec() -> bool;

    /// The new value on success, or the reported error, when
    /// `obeys_try_shr_assign_spec` holds.
    spec fn try_shr_assign_spec(&self, other: &Rhs) -> Result<Self, Self::Error> where Self: Sized;

    /// The fallible equivalent of `ShrAssign::shr_assign`.
    fn try_shr_assign(&mut self, other: Rhs) -> (r: Result<(), Self::Error>) where Self: Sized
        requires
            old(self).try_shr_assign_req(&other),
        ensures
            Self::obeys_try_shr_assign_spec() ==> match old(self).try_shr_assign_spec(&other) {
                Ok(v) => r == Ok::<(), Self::Error>(()) && *final(self) == v,
                Err(e) => r == Err::<(), Self::Error>(e),
            },
    ;
}

impl<T: Shr<Rhs, Output = T> + Copy, Rhs> TryShrAssign<Rhs> for T {
    type Error = Infallible;

    open spec fn try_shr_assign_req(&self, other: &Rhs) -> bool {
        (*self).shr_req(*other)
    }

    open spec fn obeys_try_shr_assign_spec() -> bool {
        <T as ShrSpec<Rhs>>::obeys_shr_spec()
    }

    open spec fn try_shr_assign_spec(&self, other: &Rhs) -> Result<T, Infallible> {
        Ok((*self).shr_spec(*other))
    }

    fn try_shr_assign(&mut self, other: Rhs) -> (r: Result<(), Infallible>)
        ensures
            r is Ok,
    {
        *self = (*self).shr(other);
        Ok(())
    }
}

} // verus!
