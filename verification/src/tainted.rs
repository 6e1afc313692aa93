//! A small value type with hand-written fallible implementations.
//!
//! [`Tainted`] wraps a number together with a taint mark.  Every fallible
//! operation refuses to touch a tainted value and reports [`TaintError`];
//! on clean values it behaves like the operation on the wrapped number.
//! The type deliberately implements none of the infallible traits, so the
//! blanket delegations do not apply to it: it exercises the hand-written
//! side of the fallible interfaces, including the provided derived
//! methods and their failure propagation.

use core::cmp::Ordering;
use vstd::prelude::*;

use crate::clone::TryClone;
use crate::cmp::TryEq;
use crate::cmp::TryOrd;
use crate::cmp::TryPartialEq;
use crate::cmp::TryPartialOrd;
use crate::convert::TryAsMut;
use crate::convert::TryAsRef;
use crate::default::TryDefault;
use crate::hash::hasher_write_u64;
use crate::hash::TryHash;

verus! {

/// The error reported by every fallible operation on a tainted value.
#[derive(Clone, Copy, Debug, PartialEq, Eq, Structural)]
pub struct TaintError;

/// A number carrying a taint mark that makes every operation on it fail.
pub struct Tainted {
    /// The wrapped number.
    pub value: u64,
    /// Whether operations on this value must fail.
    pub tainted: bool,
}

impl Tainted {
    /// A clean value.
    pub fn new(value: u64) -> (r: Tainted)
        ensures
            r == (Tainted { value, tainted: false }),
    {
        Tainted { value, tainted: false }
    }

    /// A tainted value: every fallible operation on it reports
    /// [`TaintError`].
    pub fn bad(value: u64) -> (r: Tainted)
        ensures
            r == (Tainted { value, tainted: true }),
    {
        Tainted { value, tainted: true }
    }

    /// The ordering of the wrapped numbers.
    pub open spec fn cmp_value(&self, other: &Tainted) -> Ordering {
        if self.value < other.value {
            Ordering::Less
        } else if self.value > other.value {
            Ordering::Greater
        } else {
            Ordering::Equal
        }
    }

    /// Whether either operand is tainted.
    pub open spec fn either_tainted(&self, other: &Tainted) -> bool {
        self.tainted || other.tainted
    }
}

impl TryPartialEq for Tainted {
    type Error = TaintError;

    open spec fn obeys_try_eq_spec() -> bool {
        true
    }

    open spec fn try_eq_spec(&self, other: &Tainted) -> Result<bool, TaintError> {
        if self.either_tainted(other) {
            Err(TaintError)
        } else {
            Ok(self.value == other.value)
        }
    }

    fn try_eq(&self, other: &Tainted) -> (r: Result<bool, TaintError>) {
        if self.tainted || other.tainted {
            Err(TaintError)
        } else {
            Ok(self.value == other.value)
        }
    }
}

impl TryEq for Tainted {

}

impl TryPartialOrd for Tainted {
    open spec fn obeys_try_partial_cmp_spec() -> bool {
        true
    }

    open spec fn try_partial_cmp_spec(&self, other: &Tainted) -> Result<
        Option<Ordering>,
        TaintError,
    > {
        if self.either_tainted(other) {
            Err(TaintError)
        } else {
            Ok(Some(self.cmp_value(other)))
        }
    }

    fn try_partial_cmp(&self, other: &Tainted) -> (r: Result<Option<Ordering>, TaintError>) {
        if self.tainted || other.tainted {
            Err(TaintError)
        } else if self.value < other.value {
            Ok(Some(Ordering::Less))
        } else if self.value > other.value {
            Ok(Some(Ordering::Greater))
        } else {
            Ok(Some(Ordering::Equal))
        }
    }
}

impl TryOrd for Tainted {
    open spec fn obeys_try_cmp_spec() -> bool {
        true
    }

    open spec fn try_cmp_spec(&self, other: &Tainted) -> Result<Ordering, TaintError> {
        if self.either_tainted(other) {
            Err(TaintError)
        } else {
            Ok(self.cmp_value(other))
        }
    }

    fn try_cmp(&self, other: &Tainted) -> (r: Result<Ordering, TaintError>) {
        if self.tainted || other.tainted {
            Err(TaintError)
        } else if self.value < other.value {
            Ok(Ordering::Less)
        } else if self.value > other.value {
            Ok(Ordering::Greater)
        } else {
            Ok(Ordering::Equal)
        }
    }
}

impl TryClone for Tainted {
    type Error = TaintError;

    open spec fn obeys_try_clone_spec() -> bool {
        true
    }

    open spec fn try_clone_spec(&self) -> Result<Tainted, TaintError> {
        if self.tainted {
            Err(TaintError)
        } else {
            Ok(Tainted { value: self.value, tainted: false })
        }
    }

    fn try_clone(&self) -> (r: Result<Tainted, TaintError>) {
        if self.tainted {
            Err(TaintError)
        } else {
            Ok(Tainted { value: self.value, tainted: false })
        }
    }
}

impl TryHash for Tainted {
    type Error = TaintError;

    open spec fn obeys_try_hash_spec() -> bool {
        true
    }

    open spec fn try_hash_err(&self) -> Option<TaintError> {
        if self.tainted {
            Some(TaintError)
        } else {
            None
        }
    }

    fn try_hash<H: core::hash::Hasher>(&self, state: &mut H) -> (r: Result<(), TaintError>) {
        if self.tainted {
            Err(TaintError)
        } else {
            hasher_write_u64(state, self.value);
            Ok(())
        }
    }
}

impl TryDefault for Tainted {
    type Error = TaintError;

    open spec fn obeys_try_default_spec() -> bool {
        true
    }

    open spec fn try_default_spec() -> Result<Tainted, TaintError> {
        Ok(Tainted { value: 0, tainted: false })
    }

    fn try_default() -> (r: Result<Tainted, TaintError>) {
        Ok(Tainted { value: 0, tainted: false })
    }
}

impl TryAsRef<u64> for Tainted {
    type Error = TaintError;

    open spec fn obeys_try_as_ref_spec() -> bool {
        true
    }

    open spec fn try_as_ref_err(&self) -> Option<TaintError> {
        if self.tainted {
            Some(TaintError)
        } else {
            None
        }
    }

    fn try_as_ref(&self) -> (r: Result<&u64, TaintError>)
        ensures
            !self.tainted ==> (r matches Ok(v) && *v == self.value),
    {
        if self.tainted {
            Err(TaintError)
        } else {
            Ok(&self.value)
        }
    }
}

impl TryAsMut<u64> for Tainted {
    type Error = TaintError;

    fn try_as_mut(&mut self) -> (r: Result<&mut u64, TaintError>)
        ensures
            old(self).tainted ==> r == Err::<&mut u64, TaintError>(TaintError) && *final(self)
                == *old(self),
            !old(self).tainted ==> (r matches Ok(v) && *v == old(self).value && *final(self) == (
            Tainted { value: *final(v), tainted: false })),
    {
        if self.tainted {
            Err(TaintError)
        } else {
            Ok(&mut self.value)
        }
    }
}

} // verus!
