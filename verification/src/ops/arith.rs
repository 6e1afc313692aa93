//! Fallible versions of the arithmetic operator traits of `core::ops`.

use core::ops::Add;
use core::ops::Div;
use core::ops::Mul;
use core::ops::Neg;
use core::ops::Rem;
use core::ops::Sub;
use vstd::prelude::*;
use vstd::std_specs::ops::AddSpec;
use vstd::std_specs::ops::DivSpec;
use vstd::std_specs::ops::MulSpec;
use vstd::std_specs::ops::NegSpec;
use vstd::std_specs::ops::RemSpec;
use vstd::std_specs::ops::SubSpec;

use crate::Infallible;

verus! {

/// The try trait for `Neg`.
pub trait TryNeg {
    /// The type returned in the event of an error.
    type Error;

    /// The type returned after performing the operation.
    type Output;

    /// The operands that `try_neg` accepts without panicking.
    spec fn try_neg_req(self) -> bool where Self: Sized;

    /// Whether `try_neg_spec` describes what `try_neg` returns.
    spec fn obeys_try_neg_spec() -> bool;

    /// The outcome that `try_neg` returns, when `obeys_try_neg_spec`
    /// holds.
    spec fn try_neg_spec(self) -> Result<Self::Output, Self::Error> where Self: Sized;

    /// The fallible equivalent of `Neg::neg`.
    fn try_neg(self) -> (r: Result<Self::Output, Self::Error>)
        requires
            self.try_neg_req(),
        ensures
            Self::obeys_try_neg_spec() ==> r == self.try_neg_spec(),
    ;
}

impl<T: Neg> TryNeg for T {
    type Error = Infallible;

    type Output = <T as Neg>::Output;

    open spec fn try_neg_req(self) -> bool {
        self.neg_req()
    }

    open spec fn obeys_try_neg_spec() -> bool {
        <T as NegSpec>::obeys_neg_spec()
    }

    open spec fn try_neg_spec(self) -> Result<Self::Output, Infallible> {
        Ok(self.neg_spec())
    }

    fn try_neg(self) -> (r: Result<Self::Output, Infallible>)
        ensures
            r is Ok,
    {
        Ok(self.neg())
    }
}

/// The try trait for `Add`.
pub trait TryAdd<Rhs = Self> {
    /// The type returned in the event of an error.
    type Error;

    /// The type returned after performing the operation.
    type Output;

    /// The operands that `try_add` accepts without panicking.
    spec fn try_add_req(self, other: Rhs) -> bool where Self: Sized;

    /// Whether `try_add_spec` describes what `try_add` returns.
    spec fn obeys_try_add_spec() -> bool;

    /// The outcome that `try_add` returns, when `obeys_try_add_spec`
    /// holds.
    spec fn try_add_spec(self, other: Rhs) -> Result<Self::Output, Self::Error> where Self: Sized;

    /// The fallible equivalent of `Add::add`.
    fn try_add(self, other: Rhs) -> (r: Result<Self::Output, Self::Error>)
        requires
            self.try_add_req(other),
        ensures
            Self::obeys_try_add_spec() ==> r == self.try_add_spec(other),
    ;
}

impl<T: Add<Rhs>, Rhs> TryAdd<Rhs> for T {
    type Error = Infallible;

    type Output = <T as Add<Rhs>>::Output;

    open spec fn try_add_req(self, other: Rhs) -> bool {
        self.add_req(other)
    }

    open spec fn obeys_try_add_spec() -> bool {
        <T as AddSpec<Rhs>>::obeys_add_spec()
    }

    open spec fn try_add_spec(self, other: Rhs) -> Result<Self::Output, Infallible> {
        Ok(self.add_spec(other))
    }

    fn try_add(self, other: Rhs) -> (r: Result<Self::Output, Infallible>)
        ensures
            r is Ok,
    {
        Ok(self + other)
    }
}

/// The try trait for `Sub`.
pub trait TrySub<Rhs = Self> {
    /// The type returned in the event of an error.
    type Error;

    /// The type returned after performing the operation.
    type Output;

    /// The operands that `try_sub` accepts without panicking.
    spec fn try_sub_req(self, other: Rhs) -> bool where Self: Sized;

    /// Whether `try_sub_spec` describes what `try_sub` returns.
    spec fn obeys_try_sub_spec() -> bool;

    /// The outcome that `try_sub` returns, when `obeys_try_sub_spec`
    /// holds.
    spec fn try_sub_spec(self, other: Rhs) -> Result<Self::Output, Self::Error> where Self: Sized;

    /// The fallible equivalent of `Sub::sub`.
    fn try_sub(self, other: Rhs) -> (r: Result<Self::Output, Self::Error>)
        requires
            self.try_sub_req(other),
        ensures
            Self::obeys_try_sub_spec() ==> r == self.try_sub_spec(other),
    ;
}

impl<T: Sub<Rhs>, Rhs> TrySub<Rhs> for T {
    type Error = Infallible;

    type Output = <T as Sub<Rhs>>::Output;

    open spec fn try_sub_req(self, other: Rhs) -> bool {
        self.sub_req(other)
    }

    open spec fn obeys_try_sub_spec() -> bool {
        <T as SubSpec<Rhs>>::obeys_sub_spec()
    }

    open spec fn try_sub_spec(self, other: Rhs) -> Result<Self::Output, Infallible> {
        Ok(self.sub_spec(other))
    }

    fn try_sub(self, other: Rhs) -> (r: Result<Self::Output, Infallible>)
        ensures
            r is Ok,
    {
        Ok(self - other)
    }
}

/// The try trait for `Mul`.
pub trait TryMul<Rhs = Self> {
    /// The type returned in the event of an error.
    type Error;

    /// The type returned after performing the operation.
    type Output;

    /// The operands that `try_mul` accepts without panicking.
    spec fn try_mul_req(self, other: Rhs) -> bool where Self: Sized;

    /// Whether `try_mul_spec` describes what `try_mul` returns.
    spec fn obeys_try_mul_spec() -> bool;

    /// The outcome that `try_mul` returns, when `obeys_try_mul_spec`
    /// holds.
    spec fn try_mul_spec(self, other: Rhs) -> Result<Self::Output, Self::Error> where Self: Sized;

    /// The fallible equivalent of `Mul::mul`.
    fn try_mul(self, other: Rhs) -> (r: Result<Self::Output, Self::Error>)
        requires
            self.try_mul_req(other),
        ensures
            Self::obeys_try_mul_spec() ==> r == self.try_mul_spec(other),
    ;
}

impl<T: Mul<Rhs>, Rhs> TryMul<Rhs> for T {
    type Error = Infallible;

    type Output = <T as Mul<Rhs>>::Output;

    open spec fn try_mul_req(self, other: Rhs) -> bool {
        self.mul_req(other)
    }

    open spec fn obeys_try_mul_spec() -> bool {
        <T as MulSpec<Rhs>>::obeys_mul_spec()
    }

    open spec fn try_mul_spec(self, other: Rhs) -> Result<Self::Output, Infallible> {
        Ok(self.mul_spec(other))
    }

    fn try_mul(self, other: Rhs) -> (r: Result<Self::Output, Infallible>)
        ensures
            r is Ok,
    {
        Ok(self * other)
    }
}

/// The try trait for `Div`.
pub trait TryDiv<Rhs = Self> {
    /// The type returned in the event of an error.
    type Error;

    /// The type returned after performing the operation.
    type Output;

    /// The operands that `try_div` accepts without panicking.
    spec fn try_div_req(self, other: Rhs) -> bool where Self: Sized;

    /// Whether `try_div_spec` describes what `try_div` returns.
    spec fn obeys_try_div_spec() -> bool;

    /// The outcome that `try_div` returns, when `obeys_try_div_spec`
    /// holds.
    spec fn try_div_spec(self, other: Rhs) -> Result<Self::Output, Self::Error> where Self: Sized;

    /// The fallible equivalent of `Div::div`.
    fn try_div(self, other: Rhs) -> (r: Result<Self::Output, Self::Error>)
        requires
            self.try_div_req(other),
        ensures
            Self::obeys_try_div_spec() ==> r == self.try_div_spec(other),
    ;
}

impl<T: Div<Rhs>, Rhs> TryDiv<Rhs> for T {
    type Error = Infallible;

    type Output = <T as Div<Rhs>>::Output;

    open spec fn try_div_req(self, other: Rhs) -> bool {
        self.div_req(other)
    }

    open spec fn obeys_try_div_spec() -> bool {
        <T as DivSpec<Rhs>>::obeys_div_spec()
    }

    open spec fn try_div_spec(self, other: Rhs) -> Result<Self::Output, Infallible> {
        Ok(self.div_spec(other))
    }

    fn try_div(self, other: Rhs) -> (r: Result<Self::Output, Infallible>)
        ensures
            r is Ok,
    {
        Ok(self / other)
    }
}

/// The try trait for `Rem`.
pub trait TryRem<Rhs = Self> {
    /// The type returned in the event of an error.
    type Error;

    /// The type returned after performing the operation.
    type Output;

    /// The operands that `try_rem` accepts without panicking.
    spec fn try_rem_req(self, other: Rhs) -> bool where Self: Sized;

    /// Whether `try_rem_spec` describes what `try_rem` returns.
    spec fn obeys_try_rem_spec() -> bool;

    /// The outcome that `try_rem` returns, when `obeys_try_rem_spec`
    /// holds.
    spec fn try_rem_spec(self, other: Rhs) -> Result<Self::Output, Self::Error> where Self: Sized;

    /// The fallible equivalent of `Rem::rem`.
    fn try_rem(self, other: Rhs) -> (r: Result<Self::Output, Self::Error>)
        requires
            self.try_rem_req(other),
        ensures
            Self::obeys_try_rem_spec() ==> r == self.try_rem_spec(other),
    ;
}

impl<T: Rem<Rhs>, Rhs> TryRem<Rhs> for T {
    type Error = Infallible;

    type Output = <T as Rem<Rhs>>::Output;

    open spec fn try_rem_req(self, other: Rhs) -> bool {
        self.rem_req(other)
    }

    open spec fn obeys_try_rem_spec() -> bool {
        <T as RemSpec<Rhs>>::obeys_rem_spec()
    }

    open spec fn try_rem_spec(self, other: Rhs) -> Result<Self::Output, Infallible> {
        Ok(self.rem_spec(other))
    }

    fn try_rem(self, other: Rhs) -> (r: Result<Self::Output, Infallible>)
        ensures
            r is Ok,
    {
        Ok(self % other)
    }
}

/// The try trait for `AddAssign`.
///
/// The delegating implementation is guarded by `Add<Rhs, Output = Self>
/// together with `Copy`, not by the standard `AddAssign` trait: Verus
/// cannot name the standard assign traits in an implementation's bounds,
/// so the delegation computes the non-assigning operation and stores the
/// result.  A type that implements only `AddAssign` is not covered.
pub trait TryAddAssign<Rhs = Self> {
    /// The type returned in the event of an error.
    type Error;

    /// The operands that `try_add_assign` accepts without panicking.
    spec fn try_add_assign_req(&self, other: &Rhs) -> bool;

    /// Whether `try_add_assign_spec` describes what `try_add_assign`
    /// does.
    spec fn obeys_try_add_assign_spec() -> bool;

    /// The new value on success, or the reported error, when
    /// `obeys_try_add_assign_spec` holds.
    spec fn try_add_assign_spec(&self, other: &Rhs) -> Result<Self, Self::Error> where Self: Sized;

    /// The fallible equivalent of `AddAssign::add_assign`.
    fn try_add_assign(&mut self, other: Rhs) -> (r: Result<(), Self::Error>) where Self: Sized
        requires
            old(self).try_add_assign_req(&other),
        ensures
            Self::obeys_try_add_assign_spec() ==> match old(self).try_add_assign_spec(&other) {
                Ok(v) => r == Ok::<(), Self::Error>(()) && *final(self) == v,
                Err(e) => r == Err::<(), Self::Error>(e),
            },
    ;
}

impl<T: Add<Rhs, Output = T> + Copy, Rhs> TryAddAssign<Rhs> for T {
    type Error = Infallible;

    open spec fn try_add_assign_req(&self, other: &Rhs) -> bool {
        (*self).add_req(*other)
    }

    open spec fn obeys_try_add_assign_spec() -> bool {
        <T as AddSpec<Rhs>>::obeys_add_spec()
    }

    open spec fn try_add_assign_spec(&self, other: &Rhs) -> Result<T, Infallible> {
        Ok((*self).add_spec(*other))
    }

    fn try_add_assign(&mut self, other: Rhs) -> (r: Result<(), Infallible>)
        ensures
            r is Ok,
    {
        *self = (*self).add(other);
        Ok(())
    }
}

/// The try trait for `SubAssign`.
///
/// The delegating implementation is guarded by `Sub<Rhs, Output = Self>
/// together with `Copy`, not by the standard `SubAssign` trait: Verus
/// cannot name the standard assign traits in an implementation's bounds,
/// so the delegation computes the non-assigning operation and stores the
/// result.  A type that implements only `SubAssign` is not covered.
pub trait TrySubAssign<Rhs = Self> {
    /// The type returned in the event of an error.
    type Error;

    /// The operands that `try_sub_assign` accepts without panicking.
    spec fn try_sub_assign_req(&self, other: &Rhs) -> bool;

    /// Whether `try_sub_assign_spec` describes what `try_sub_assign`
    /// does.
    spec fn obeys_try_sub_assign_spec() -> bool;

    /// The new value on success, or the reported error, when
    /// `obeys_try_sub_assign_spec` holds.
    spec fn try_sub_assign_spec(&self, other: &Rhs) -> Result<Self, Self::Error> where Self: Sized;

    /// The fallible equivalent of `SubAssign::sub_assign`.
    fn try_sub_assign(&mut self, other: Rhs) -> (r: Result<(), Self::Error>) where Self: Sized
        requires
            old(self).try_sub_assign_req(&other),
        ensures
            Self::obeys_try_sub_assign_spec() ==> match old(self).try_sub_assign_spec(&other) {
                Ok(v) => r == Ok::<(), Self::Error>(()) && *final(self) == v,
                Err(e) => r == Err::<(), Self::Error>(e),
            },
    ;
}

impl<T: Sub<Rhs, Output = T> + Copy, Rhs> TrySubAssign<Rhs> for T {
    type Error = Infallible;

    open spec fn try_sub_assign_req(&self, other: &Rhs) -> bool {
        (*self).sub_req(*other)
    }

    open spec fn obeys_try_sub_assign_spec() -> bool {
        <T as SubSpec<Rhs>>::obeys_sub_spec()
    }

    open spec fn try_sub_assign_spec(&self, other: &Rhs) -> Result<T, Infallible> {
        Ok((*self).sub_spec(*other))
    }

    fn try_sub_assign(&mut self, other: Rhs) -> (r: Result<(), Infallible>)
        ensures
            r is Ok,
    {
        *self = (*self).sub(other);
        Ok(())
    }
}

/// The try trait for `MulAssign`.
///
/// The delegating implementation is guarded by `Mul<Rhs, Output = Self>
/// together with `Copy`, not by the standard `MulAssign` trait: Verus
/// cannot name the standard assign traits in an implementation's bounds,
/// so the delegation computes the non-assigning operation and stores the
/// result.  A type that implements only `MulAssign` is not covered.
pub trait TryMulAssign<Rhs = Self> {
    /// The type returned in the event of an error.
    type Error;

    /// The operands that `try_mul_assign` accepts without panicking.
    spec fn try_mul_assign_req(&self, other: &Rhs) -> bool;

    /// Whether `try_mul_assign_spec` describes what `try_mul_assign`
    /// does.
    spec fn obeys_try_mul_assign_spec() -> bool;

    /// The new value on success, or the reported error, when
    /// `obeys_try_mul_assign_spec` holds.
    spec fn try_mul_assign_spec(&self, other: &Rhs) -> Result<Self, Self::Error> where Self: Sized;

    /// The fallible equivalent of `MulAssign::mul_assign`.
    fn try_mul_assign(&mut self, other: Rhs) -> (r: Result<(), Self::Error>) where Self: Sized
        requires
            old(self).try_mul_assign_req(&other),
        ensures
            Self::obeys_try_mul_assign_spec() ==> match old(self).try_mul_assign_spec(&other) {
                Ok(v) => r == Ok::<(), Self::Error>(()) && *final(self) == v,
                Err(e) => r == Err::<(), Self::Error>(e),
            },
    ;
}

impl<T: Mul<Rhs, Output = T> + Copy, Rhs> TryMulAssign<Rhs> for T {
    type Error = Infallible;

    open spec fn try_mul_assign_req(&self, other: &Rhs) -> bool {
        (*self).mul_req(*other)
    }

    open spec fn obeys_try_mul_assign_spec() -> bool {
        <T as MulSpec<Rhs>>::obeys_mul_spec()
    }

    open spec fn try_mul_assign_spec(&self, other: &Rhs) -> Result<T, Infallible> {
        Ok((*self).mul_spec(*other))
    }

    fn try_mul_assign(&mut self, other: Rhs) -> (r: Result<(), Infallible>)
        ensures
            r is Ok,
    {
        *self = (*self).mul(other);
        Ok(())
    }
}

/// The try trait for `DivAssign`.
///
/// The delegating implementation is guarded by `Div<Rhs, Output = Self>
/// together with `Copy`, not by the standard `DivAssign` trait: Verus
/// cannot name the standard assign traits in an implementation's bounds,
/// so the delegation computes the non-assigning operation and stores the
/// result.  A type that implements only `DivAssign` is not covered.
pub trait TryDivAssign<Rhs = Self> {
    /// The type returned in the event of an error.
    type Error;

    /// The operands that `try_div_assign` accepts without panicking.
    spec fn try_div_assign_req(&self, other: &Rhs) -> bool;

    /// Whether `try_div_assign_spec` describes what `try_div_assign`
    /// does.
    spec fn obeys_try_div_assign_spec() -> bool;

    /// The new value on success, or the reported error, when
    /// `obeys_try_div_assign_spec` holds.
    spec fn try_div_assign_spec(&self, other: &Rhs) -> Result<Self, Self::Error> where Self: Sized;

    /// The fallible equivalent of `DivAssign::div_assign`.
    fn try_div_assign(&mut self, other: Rhs) -> (r: Result<(), Self::Error>) where Self: Sized
        requires
            old(self).try_div_assign_req(&other),
        ensures
            Self::obeys_try_div_assign_spec() ==> match old(self).try_div_assign_spec(&other) {
                Ok(v) => r == Ok::<(), Self::Error>(()) && *final(self) == v,
                Err(e) => r == Err::<(), Self::Error>(e),
            },
    ;
}

impl<T: Div<Rhs, Output = T> + Copy, Rhs> TryDivAssign<Rhs> for T {
    type Error = Infallible;

    open spec fn try_div_assign_req(&self, other: &Rhs) -> bool {
        (*self).div_req(*other)
    }

    open spec fn obeys_try_div_assign_spec() -> bool {
        <T as DivSpec<Rhs>>::obeys_div_spec()
    }

    open spec fn try_div_assign_spec(&self, other: &Rhs) -> Result<T, Infallible> {
        Ok((*self).div_spec(*other))
    }

    fn try_div_assign(&mut self, other: Rhs) -> (r: Result<(), Infallible>)
        ensures
            r is Ok,
    {
        *self = (*self).div(other);
        Ok(())
    }
}

/// The try trait for `RemAssign`.
///
/// The delegating implementation is guarded by `Rem<Rhs, Output = Self>
/// together with `Copy`, not by the standard `RemAssign` trait: Verus
/// cannot name the standard assign traits in an implementation's bounds,
/// so the delegation computes the non-assigning operation and stores the
/// result.  A type that implements only `RemAssign` is not covered.
pub trait TryRemAssign<Rhs = Self> {
    /// The type returned in the event of an error.
    type Error;

    /// The operands that `try_rem_assign` accepts without panicking.
    spec fn try_rem_assign_req(&self, other: &Rhs) -> bool;

    /// Whether `try_rem_assign_spec` describes what `try_rem_assign`
    /// does.
    spec fn obeys_try_rem_assign_spec() -> bool;

    /// The new value on success, or the reported error, when
    /// `obeys_try_rem_assign_spec` holds.
    spec fn try_rem_assign_spec(&self, other: &Rhs) -> Result<Self, Self::Error> where Self: Sized;

    /// The fallible equivalent of `RemAssign::rem_assign`.
    fn try_rem_assign(&mut self, other: Rhs) -> (r: Result<(), Self::Error>) where Self: Sized
        requires
            old(self).try_rem_assign_req(&other),
        ensures
            Self::obeys_try_rem_assign_spec() ==> match old(self).try_rem_assign_spec(&other) {
                Ok(v) => r == Ok::<(), Self::Error>(()) && *final(self) == v,
                Err(e) => r == Err::<(), Self::Error>(e),
            },
    ;
}

impl<T: Rem<Rhs, Output = T> + Copy, Rhs> TryRemAssign<Rhs> for T {
    type Error = Infallible;

    open spec fn try_rem_assign_req(&self, other: &Rhs) -> bool {
        (*self).rem_req(*other)
    }

    open spec fn obeys_try_rem_assign_spec() -> bool {
        <T as RemSpec<Rhs>>::obeys_rem_spec()
    }

    open spec fn try_rem_assign_spec(&self, other: &Rhs) -> Result<T, Infallible> {
        Ok((*self).rem_spec(*other))
    }

    fn try_rem_assign(&mut self, other: Rhs) -> (r: Result<(), Infallible>)
        ensures
            r is Ok,
    {
        *self = (*self).rem(other);
        Ok(())
    }
}


/// Delegation faithfulness of the blanket addition: it cannot fail, and
/// whenever the infallible `+` of `T` is described by its specification,
/// the fallible method returns exactly its value, wrapped as a success.
pub proof fn lemma_blanket_try_add<T: Add<Rhs>, Rhs>(
    x: T,
    y: Rhs,
    r: Result<<T as Add<Rhs>>::Output, Infallible>,
)
    requires
        call_ensures(<T as TryAdd<Rhs>>::try_add, (x, y), r),
    ensures
        r is Ok,
        <T as AddSpec<Rhs>>::obeys_add_spec() ==> r == Ok::<<T as Add<Rhs>>::Output, Infallible>(
            x.add_spec(y),
        ),
{
}

} // verus!
