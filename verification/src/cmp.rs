//! Fallible versions of the comparison traits of `core::cmp`.

use core::cmp::Ordering;
use vstd::prelude::*;
use vstd::std_specs::cmp::OrdSpec;
use vstd::std_specs::cmp::PartialEqSpec;
use vstd::std_specs::cmp::PartialOrdSpec;

use crate::Infallible;

verus! {

/// Maps an equality outcome to the matching inequality outcome: a success
/// is negated, a failure is passed through unchanged.
pub open spec fn negated<E>(r: Result<bool, E>) -> Result<bool, E> {
    match r {
        Ok(b) => Ok(!b),
        Err(e) => Err(e),
    }
}

/// Maps a comparison outcome to "the ordering is exactly `want`":
/// a failure is passed through unchanged.
pub open spec fn compared_is<E>(r: Result<Option<Ordering>, E>, want: Ordering) -> Result<
    bool,
    E,
> {
    match r {
        Ok(o) => Ok(o == Some(want)),
        Err(e) => Err(e),
    }
}

/// Maps a comparison outcome to "the ordering is `want` or `Equal`"
/// (so an incomparable pair yields `false`): a failure is passed through
/// unchanged.
pub open spec fn compared_is_or_equal<E>(r: Result<Option<Ordering>, E>, want: Ordering) -> Result<
    bool,
    E,
> {
    match r {
        Ok(o) => Ok(o == Some(want) || o == Some(Ordering::Equal)),
        Err(e) => Err(e),
    }
}

/// The outcome of choosing the maximum of `a` and `b` from the outcome `c`
/// of comparing `a` to `b`: on a tie the second operand wins, and a failed
/// comparison is passed through unchanged.
pub open spec fn chosen_max<T, E>(a: T, b: T, c: Result<Ordering, E>) -> Result<T, E> {
    match c {
        Ok(Ordering::Greater) => Ok(a),
        Ok(_) => Ok(b),
        Err(e) => Err(e),
    }
}

/// The outcome of choosing the minimum of `a` and `b` from the outcome `c`
/// of comparing `a` to `b`: on a tie the first operand wins, and a failed
/// comparison is passed through unchanged.
pub open spec fn chosen_min<T, E>(a: T, b: T, c: Result<Ordering, E>) -> Result<T, E> {
    match c {
        Ok(Ordering::Greater) => Ok(b),
        Ok(_) => Ok(a),
        Err(e) => Err(e),
    }
}

/// The outcome of clamping `value` into `[min, max]`, given the outcome
/// `below` of comparing `value` to `min` and the outcome `above` of
/// comparing `value` to `max`.  The first failed comparison is passed
/// through unchanged, and the comparison against `max` is not consulted
/// when the value is already below `min`.
pub open spec fn clamped<T, E>(
    value: T,
    min: T,
    max: T,
    below: Result<Option<Ordering>, E>,
    above: Result<Option<Ordering>, E>,
) -> Result<T, E> {
    match below {
        Err(e) => Err(e),
        Ok(o) => if o == Some(Ordering::Less) {
            Ok(min)
        } else {
            match above {
                Err(e) => Err(e),
                Ok(o2) => if o2 == Some(Ordering::Greater) {
                    Ok(max)
                } else {
                    Ok(value)
                },
            }
        },
    }
}

/// The try trait for `PartialEq`.
pub trait TryPartialEq<Rhs: ?Sized = Self> {
    /// The type returned in the event of an error.
    type Error;

    /// Whether `try_eq_spec` describes what `try_eq` returns.
    spec fn obeys_try_eq_spec() -> bool;

    /// The outcome that `try_eq` returns, when `obeys_try_eq_spec` holds.
    spec fn try_eq_spec(&self, other: &Rhs) -> Result<bool, Self::Error>;

    /// The fallible equivalent of `PartialEq::eq`.
    fn try_eq(&self, other: &Rhs) -> (r: Result<bool, Self::Error>)
        ensures
            Self::obeys_try_eq_spec() ==> r == self.try_eq_spec(other),
    ;

    /// The fallible equivalent of `PartialEq::ne`: the negation of
    /// `try_eq`, propagating its failure unchanged.
    fn try_ne(&self, other: &Rhs) -> (r: Result<bool, Self::Error>)
        ensures
            Self::obeys_try_eq_spec() ==> r == negated(self.try_eq_spec(other)),
        default_ensures
            exists|q: Result<bool, Self::Error>|
                {
                    &&& #[trigger] call_ensures(Self::try_eq, (self, other), q)
                    &&& r == negated(q)
                },
    {
        match self.try_eq(other) {
            Ok(b) => Ok(!b),
            Err(e) => Err(e),
        }
    }
}

/// The try trait for `Eq`: if `try_eq` returns `Ok`, the requirements of
/// `Eq` hold.
pub trait TryEq: TryPartialEq<Self> {

}

/// The try trait for `PartialOrd`.
pub trait TryPartialOrd<Rhs: ?Sized = Self>: TryPartialEq<Rhs> {
    /// Whether `try_partial_cmp_spec` describes what `try_partial_cmp`
    /// returns.
    spec fn obeys_try_partial_cmp_spec() -> bool;

    /// The outcome that `try_partial_cmp` returns, when
    /// `obeys_try_partial_cmp_spec` holds.
    spec fn try_partial_cmp_spec(&self, other: &Rhs) -> Result<Option<Ordering>, Self::Error>;

    /// The fallible equivalent of `PartialOrd::partial_cmp`.
    fn try_partial_cmp(&self, other: &Rhs) -> (r: Result<Option<Ordering>, Self::Error>)
        ensures
            Self::obeys_try_partial_cmp_spec() ==> r == self.try_partial_cmp_spec(other),
    ;

    /// The fallible equivalent of `PartialOrd::lt`, propagating the
    /// failure of `try_partial_cmp` unchanged.
    fn try_lt(&self, other: &Rhs) -> (r: Result<bool, Self::Error>)
        ensures
            Self::obeys_try_partial_cmp_spec() ==> r == compared_is(
                self.try_partial_cmp_spec(other),
                Ordering::Less,
            ),
        default_ensures
            exists|q: Result<Option<Ordering>, Self::Error>|
                {
                    &&& #[trigger] call_ensures(Self::try_partial_cmp, (self, other), q)
                    &&& r == compared_is(q, Ordering::Less)
                },
    {
        match self.try_partial_cmp(other) {
            Ok(o) => Ok(matches!(o, Some(Ordering::Less))),
            Err(e) => Err(e),
        }
    }

    /// The fallible equivalent of `PartialOrd::le`, propagating the
    /// failure of `try_partial_cmp` unchanged.  As with the infallible
    /// `<=`, an incomparable pair yields `false`.
    fn try_le(&self, other: &Rhs) -> (r: Result<bool, Self::Error>)
        ensures
            Self::obeys_try_partial_cmp_spec() ==> r == compared_is_or_equal(
                self.try_partial_cmp_spec(other),
                Ordering::Less,
            ),
        default_ensures
            exists|q: Result<Option<Ordering>, Self::Error>|
                {
                    &&& #[trigger] call_ensures(Self::try_partial_cmp, (self, other), q)
                    &&& r == compared_is_or_equal(q, Ordering::Less)
                },
    {
        match self.try_partial_cmp(other) {
            Ok(o) => Ok(matches!(o, Some(Ordering::Less | Ordering::Equal))),
            Err(e) => Err(e),
        }
    }

    /// The fallible equivalent of `PartialOrd::gt`, propagating the
    /// failure of `try_partial_cmp` unchanged.
    fn try_gt(&self, other: &Rhs) -> (r: Result<bool, Self::Error>)
        ensures
            Self::obeys_try_partial_cmp_spec() ==> r == compared_is(
                self.try_partial_cmp_spec(other),
                Ordering::Greater,
            ),
        default_ensures
            exists|q: Result<Option<Ordering>, Self::Error>|
                {
                    &&& #[trigger] call_ensures(Self::try_partial_cmp, (self, other), q)
                    &&& r == compared_is(q, Ordering::Greater)
                },
    {
        match self.try_partial_cmp(other) {
            Ok(o) => Ok(matches!(o, Some(Ordering::Greater))),
            Err(e) => Err(e),
        }
    }

    /// The fallible equivalent of `PartialOrd::ge`, propagating the
    /// failure of `try_partial_cmp` unchanged.  As with the infallible
    /// `>=`, an incomparable pair yields `false`.
    fn try_ge(&self, other: &Rhs) -> (r: Result<bool, Self::Error>)
        ensures
            Self::obeys_try_partial_cmp_spec() ==> r == compared_is_or_equal(
                self.try_partial_cmp_spec(other),
                Ordering::Greater,
            ),
        default_ensures
            exists|q: Result<Option<Ordering>, Self::Error>|
                {
                    &&& #[trigger] call_ensures(Self::try_partial_cmp, (self, other), q)
                    &&& r == compared_is_or_equal(q, Ordering::Greater)
                },
    {
        match self.try_partial_cmp(other) {
            Ok(o) => Ok(matches!(o, Some(Ordering::Greater | Ordering::Equal))),
            Err(e) => Err(e),
        }
    }
}

/// The try trait for `Ord`.
pub trait TryOrd: TryEq + TryPartialOrd<Self> {
    /// Whether `try_cmp_spec` describes what `try_cmp` returns.
    spec fn obeys_try_cmp_spec() -> bool;

    /// The outcome that `try_cmp` returns, when `obeys_try_cmp_spec`
    /// holds.
    spec fn try_cmp_spec(&self, other: &Self) -> Result<Ordering, Self::Error>;

    /// The fallible equivalent of `Ord::cmp`.
    fn try_cmp(&self, other: &Self) -> (r: Result<Ordering, Self::Error>)
        ensures
            Self::obeys_try_cmp_spec() ==> r == self.try_cmp_spec(other),
    ;

    /// The fallible equivalent of `Ord::max`, propagating the failure of
    /// `try_cmp` unchanged.
    fn try_max(self, other: Self) -> (r: Result<Self, Self::Error>) where Self: Sized
        ensures
            Self::obeys_try_cmp_spec() ==> r == chosen_max(self, other, self.try_cmp_spec(&other)),
        default_ensures
            exists|c: Result<Ordering, Self::Error>|
                {
                    &&& #[trigger] call_ensures(Self::try_cmp, (&self, &other), c)
                    &&& r == chosen_max(self, other, c)
                },
    {
        match self.try_cmp(&other) {
            Ok(Ordering::Less) | Ok(Ordering::Equal) => Ok(other),
            Ok(Ordering::Greater) => Ok(self),
            Err(e) => Err(e),
        }
    }

    /// The fallible equivalent of `Ord::min`, propagating the failure of
    /// `try_cmp` unchanged.
    fn try_min(self, other: Self) -> (r: Result<Self, Self::Error>) where Self: Sized
        ensures
            Self::obeys_try_cmp_spec() ==> r == chosen_min(self, other, self.try_cmp_spec(&other)),
        default_ensures
            exists|c: Result<Ordering, Self::Error>|
                {
                    &&& #[trigger] call_ensures(Self::try_cmp, (&self, &other), c)
                    &&& r == chosen_min(self, other, c)
                },
    {
        match self.try_cmp(&other) {
            Ok(Ordering::Less) | Ok(Ordering::Equal) => Ok(self),
            Ok(Ordering::Greater) => Ok(other),
            Err(e) => Err(e),
        }
    }

    /// The fallible equivalent of `Ord::clamp`, propagating the first
    /// failed comparison unchanged.
    ///
    /// A caller must not pass bounds that are known to be out of order:
    /// that is a contract violation, not a reported error.
    fn try_clamp(self, min: Self, max: Self) -> (r: Result<Self, Self::Error>) where Self: Sized
        requires
            Self::obeys_try_partial_cmp_spec() ==> (min.try_partial_cmp_spec(&max) matches Ok(o)
                ==> o matches Some(Ordering::Less | Ordering::Equal)),
        ensures
            Self::obeys_try_partial_cmp_spec() ==> r == clamped(
                self,
                min,
                max,
                self.try_partial_cmp_spec(&min),
                self.try_partial_cmp_spec(&max),
            ),
        default_ensures
            exists|b1: Result<bool, Self::Error>|
                {
                    &&& #[trigger] call_ensures(Self::try_lt, (&self, &min), b1)
                    &&& match b1 {
                        Err(e) => r == Err::<Self, Self::Error>(e),
                        Ok(true) => r == Ok::<Self, Self::Error>(min),
                        Ok(false) => exists|b2: Result<bool, Self::Error>|
                            {
                                &&& #[trigger] call_ensures(Self::try_gt, (&self, &max), b2)
                                &&& match b2 {
                                    Err(e) => r == Err::<Self, Self::Error>(e),
                                    Ok(true) => r == Ok::<Self, Self::Error>(max),
                                    Ok(false) => r == Ok::<Self, Self::Error>(self),
                                }
                            },
                    }
                },
    {
        match self.try_lt(&min) {
            Err(e) => Err(e),
            Ok(true) => Ok(min),
            Ok(false) => match self.try_gt(&max) {
                Err(e) => Err(e),
                Ok(true) => Ok(max),
                Ok(false) => Ok(self),
            },
        }
    }
}

impl<T: PartialEq<Rhs>, Rhs: ?Sized> TryPartialEq<Rhs> for T {
    type Error = Infallible;

    open spec fn obeys_try_eq_spec() -> bool {
        <T as PartialEqSpec<Rhs>>::obeys_eq_spec()
    }

    open spec fn try_eq_spec(&self, other: &Rhs) -> Result<bool, Infallible> {
        Ok(self.eq_spec(other))
    }

    fn try_eq(&self, other: &Rhs) -> (r: Result<bool, Infallible>)
        ensures
            r is Ok,
    {
        Ok(self == other)
    }

    fn try_ne(&self, other: &Rhs) -> (r: Result<bool, Infallible>)
        ensures
            r is Ok,
    {
        Ok(self != other)
    }
}

impl<T: Eq> TryEq for T {

}

impl<T: PartialOrd<Rhs>, Rhs: ?Sized> TryPartialOrd<Rhs> for T {
    open spec fn obeys_try_partial_cmp_spec() -> bool {
        <T as PartialOrdSpec<Rhs>>::obeys_partial_cmp_spec()
    }

    open spec fn try_partial_cmp_spec(&self, other: &Rhs) -> Result<Option<Ordering>, Infallible> {
        Ok(self.partial_cmp_spec(other))
    }

    fn try_partial_cmp(&self, other: &Rhs) -> (r: Result<Option<Ordering>, Infallible>)
        ensures
            r is Ok,
    {
        Ok(self.partial_cmp(other))
    }

    fn try_lt(&self, other: &Rhs) -> (r: Result<bool, Infallible>)
        ensures
            r is Ok,
    {
        Ok(self < other)
    }

    fn try_le(&self, other: &Rhs) -> (r: Result<bool, Infallible>)
        ensures
            r is Ok,
    {
        Ok(self <= other)
    }

    fn try_gt(&self, other: &Rhs) -> (r: Result<bool, Infallible>)
        ensures
            r is Ok,
    {
        Ok(self > other)
    }

    fn try_ge(&self, other: &Rhs) -> (r: Result<bool, Infallible>)
        ensures
            r is Ok,
    {
        Ok(self >= other)
    }
}

/// Whether the comparison spec of `T` is antisymmetric: swapping the
/// operands of `cmp` reverses the reported ordering.  The documented
/// contract of `Ord` (a total order) includes this; it is what lets the
/// delegation to `Ord::max` and `Ord::min` be described from either
/// operand's point of view.
pub open spec fn cmp_spec_antisymmetric<T: Ord>() -> bool {
    forall|a: T, b: T| #[trigger] a.cmp_spec(&b) == reversed(b.cmp_spec(&a))
}

/// The opposite of an ordering.
pub open spec fn reversed(o: Ordering) -> Ordering {
    match o {
        Ordering::Less => Ordering::Greater,
        Ordering::Equal => Ordering::Equal,
        Ordering::Greater => Ordering::Less,
    }
}

impl<T: Ord> TryOrd for T {
    open spec fn obeys_try_cmp_spec() -> bool {
        <T as OrdSpec>::obeys_cmp_spec() && cmp_spec_antisymmetric::<T>()
    }

    open spec fn try_cmp_spec(&self, other: &Self) -> Result<Ordering, Infallible> {
        Ok(self.cmp_spec(other))
    }

    fn try_cmp(&self, other: &Self) -> (r: Result<Ordering, Infallible>)
        ensures
            r is Ok,
    {
        Ok(self.cmp(other))
    }

    fn try_max(self, other: Self) -> (r: Result<Self, Infallible>)
        ensures
            r is Ok,
    {
        Ok(self.max(other))
    }

    fn try_min(self, other: Self) -> (r: Result<Self, Infallible>)
        ensures
            r is Ok,
    {
        Ok(self.min(other))
    }

    fn try_clamp(self, min: Self, max: Self) -> (r: Result<Self, Infallible>)
        ensures
            r is Ok,
    {
        Ok(
            if self < min {
                min
            } else if self > max {
                max
            } else {
                self
            },
        )
    }
}


/// Delegation faithfulness of the blanket equality: whenever the
/// infallible `==` of `T` is described by its specification, the fallible
/// method returns exactly that boolean, wrapped as a success.
pub proof fn lemma_blanket_try_eq_faithful<T: PartialEq<Rhs>, Rhs: ?Sized>(
    a: &T,
    b: &Rhs,
    r: Result<bool, Infallible>,
)
    requires
        <T as PartialEqSpec<Rhs>>::obeys_eq_spec(),
        call_ensures(<T as TryPartialEq<Rhs>>::try_eq, (a, b), r),
    ensures
        r == Ok::<bool, Infallible>(a.eq_spec(b)),
{
}

/// The blanket equality cannot fail: every outcome of `try_eq` on a type
/// that only has the delegating implementation is a success.
pub proof fn lemma_blanket_try_eq_infallible<T: PartialEq<Rhs>, Rhs: ?Sized>(
    a: &T,
    b: &Rhs,
    r: Result<bool, Infallible>,
)
    requires
        call_ensures(<T as TryPartialEq<Rhs>>::try_eq, (a, b), r),
    ensures
        r is Ok,
{
}

/// The blanket partial comparison cannot fail, and is faithful to the
/// infallible `partial_cmp` whenever the latter is described by its
/// specification.
pub proof fn lemma_blanket_try_partial_cmp<T: PartialOrd<Rhs>, Rhs: ?Sized>(
    a: &T,
    b: &Rhs,
    r: Result<Option<Ordering>, Infallible>,
)
    requires
        call_ensures(<T as TryPartialOrd<Rhs>>::try_partial_cmp, (a, b), r),
    ensures
        r is Ok,
        <T as PartialOrdSpec<Rhs>>::obeys_partial_cmp_spec() ==> r == Ok::<
            Option<Ordering>,
            Infallible,
        >(a.partial_cmp_spec(b)),
{
}

/// The blanket total comparison cannot fail, and is faithful to the
/// infallible `cmp` whenever the latter is described by its
/// specification.
pub proof fn lemma_blanket_try_cmp<T: Ord>(a: &T, b: &T, r: Result<Ordering, Infallible>)
    requires
        call_ensures(<T as TryOrd>::try_cmp, (a, b), r),
    ensures
        r is Ok,
        <T as OrdSpec>::obeys_cmp_spec() && cmp_spec_antisymmetric::<T>() ==> r == Ok::<
            Ordering,
            Infallible,
        >(a.cmp_spec(b)),
{
}

/// Short-circuit of the derived inequality: when the primary `try_eq` of
/// any implementation is specified to fail with `e`, `try_ne` reports the
/// same error.
pub proof fn lemma_try_ne_short_circuit<T: TryPartialEq<Rhs> + ?Sized, Rhs: ?Sized>(
    a: &T,
    b: &Rhs,
    e: T::Error,
    r: Result<bool, T::Error>,
)
    requires
        T::obeys_try_eq_spec(),
        T::try_eq_spec(a, b) == Err::<bool, T::Error>(e),
        call_ensures(T::try_ne, (a, b), r),
    ensures
        r == Err::<bool, T::Error>(e),
{
}

/// Short-circuit of the derived strict comparison: when the primary
/// `try_partial_cmp` of any implementation is specified to fail with `e`,
/// `try_lt` reports the same error.
pub proof fn lemma_try_lt_short_circuit<T: TryPartialOrd<Rhs> + ?Sized, Rhs: ?Sized>(
    a: &T,
    b: &Rhs,
    e: T::Error,
    r: Result<bool, T::Error>,
)
    requires
        T::obeys_try_partial_cmp_spec(),
        T::try_partial_cmp_spec(a, b) == Err::<Option<Ordering>, T::Error>(e),
        call_ensures(T::try_lt, (a, b), r),
    ensures
        r == Err::<bool, T::Error>(e),
{
}

/// Short-circuit of `try_le`, as for `try_lt`.
pub proof fn lemma_try_le_short_circuit<T: TryPartialOrd<Rhs> + ?Sized, Rhs: ?Sized>(
    a: &T,
    b: &Rhs,
    e: T::Error,
    r: Result<bool, T::Error>,
)
    requires
        T::obeys_try_partial_cmp_spec(),
        T::try_partial_cmp_spec(a, b) == Err::<Option<Ordering>, T::Error>(e),
        call_ensures(T::try_le, (a, b), r),
    ensures
        r == Err::<bool, T::Error>(e),
{
}

/// Short-circuit of `try_gt`, as for `try_lt`.
pub proof fn lemma_try_gt_short_circuit<T: TryPartialOrd<Rhs> + ?Sized, Rhs: ?Sized>(
    a: &T,
    b: &Rhs,
    e: T::Error,
    r: Result<bool, T::Error>,
)
    requires
        T::obeys_try_partial_cmp_spec(),
        T::try_partial_cmp_spec(a, b) == Err::<Option<Ordering>, T::Error>(e),
        call_ensures(T::try_gt, (a, b), r),
    ensures
        r == Err::<bool, T::Error>(e),
{
}

/// Short-circuit of `try_ge`, as for `try_lt`.
pub proof fn lemma_try_ge_short_circuit<T: TryPartialOrd<Rhs> + ?Sized, Rhs: ?Sized>(
    a: &T,
    b: &Rhs,
    e: T::Error,
    r: Result<bool, T::Error>,
)
    requires
        T::obeys_try_partial_cmp_spec(),
        T::try_partial_cmp_spec(a, b) == Err::<Option<Ordering>, T::Error>(e),
        call_ensures(T::try_ge, (a, b), r),
    ensures
        r == Err::<bool, T::Error>(e),
{
}

/// Short-circuit of the derived maximum: when the primary `try_cmp` of
/// any implementation is specified to fail with `e`, `try_max` reports
/// the same error.
pub proof fn lemma_try_max_short_circuit<T: TryOrd>(a: T, b: T, e: T::Error, r: Result<T, T::Error>)
    requires
        T::obeys_try_cmp_spec(),
        T::try_cmp_spec(&a, &b) == Err::<Ordering, T::Error>(e),
        call_ensures(T::try_max, (a, b), r),
    ensures
        r == Err::<T, T::Error>(e),
{
}

/// Short-circuit of `try_min`, as for `try_max`.
pub proof fn lemma_try_min_short_circuit<T: TryOrd>(a: T, b: T, e: T::Error, r: Result<T, T::Error>)
    requires
        T::obeys_try_cmp_spec(),
        T::try_cmp_spec(&a, &b) == Err::<Ordering, T::Error>(e),
        call_ensures(T::try_min, (a, b), r),
    ensures
        r == Err::<T, T::Error>(e),
{
}

/// Short-circuit of the derived clamp: when comparing the value to the
/// lower bound is specified to fail with `e`, `try_clamp` reports the
/// same error.
pub proof fn lemma_try_clamp_short_circuit<T: TryOrd>(
    x: T,
    min: T,
    max: T,
    e: T::Error,
    r: Result<T, T::Error>,
)
    requires
        T::obeys_try_partial_cmp_spec(),
        T::try_partial_cmp_spec(&x, &min) == Err::<Option<Ordering>, T::Error>(e),
        call_ensures(T::try_clamp, (x, min, max), r),
    ensures
        r == Err::<T, T::Error>(e),
{
}

/// The clamp contract for the blanket delegation: with in-order bounds,
/// clamping returns the lower bound below it, the upper bound above it,
/// and the value itself otherwise, exactly as the infallible clamp does.
pub proof fn lemma_blanket_try_clamp<T: Ord>(x: T, min: T, max: T, r: Result<T, Infallible>)
    requires
        <T as PartialOrdSpec>::obeys_partial_cmp_spec(),
        call_ensures(<T as TryOrd>::try_clamp, (x, min, max), r),
    ensures
        r == Ok::<T, Infallible>(
            if x.partial_cmp_spec(&min) == Some(Ordering::Less) {
                min
            } else if x.partial_cmp_spec(&max) == Some(Ordering::Greater) {
                max
            } else {
                x
            },
        ),
{
}

} // verus!
