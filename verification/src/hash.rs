//! Fallible version of the hashing trait of `core::hash`.

use core::hash::Hash;
use core::hash::Hasher;
use vstd::prelude::*;

use crate::Infallible;

verus! {

/// Turns the error reported while hashing one value, if any, into the
/// outcome of the hashing call.
pub open spec fn hash_outcome<E>(e: Option<E>) -> Result<(), E> {
    match e {
        None => Ok(()),
        Some(e) => Err(e),
    }
}

/// The first error in a sequence of per-element hashing outcomes, if
/// any: the elements are considered in sequence order.
pub open spec fn first_err<E>(errs: Seq<Option<E>>) -> Option<E>
    decreases errs.len(),
{
    if errs.len() == 0 {
        None
    } else {
        match errs[0] {
            Some(e) => Some(e),
            None => first_err(errs.skip(1)),
        }
    }
}

/// When no element reports an error, neither does the whole sequence.
pub proof fn lemma_first_err_none<E>(errs: Seq<Option<E>>)
    requires
        forall|j: int| 0 <= j < errs.len() ==> (#[trigger] errs[j]) is None,
    ensures
        first_err(errs) is None,
    decreases errs.len(),
{
    if errs.len() > 0 {
        lemma_first_err_none(errs.skip(1));
    }
}

/// When every element before position `i` reports no error and the
/// element at `i` reports `e`, then `e` is the error of the whole
/// sequence.
pub proof fn lemma_first_err_at<E>(errs: Seq<Option<E>>, i: int, e: E)
    requires
        0 <= i < errs.len(),
        forall|j: int| 0 <= j < i ==> (#[trigger] errs[j]) is None,
        errs[i] == Some(e),
    ensures
        first_err(errs) == Some(e),
    decreases i,
{
    if i > 0 {
        lemma_first_err_at(errs.skip(1), i - 1, e);
    }
}

/// The try trait for `Hash`.
///
/// Whether hashing a value fails is modelled as a property of the value
/// alone (`try_hash_err`); an implementation whose failures depend on the
/// hasher state can leave `obeys_try_hash_spec` false.
pub trait TryHash {
    /// The type returned in the event of an error.
    type Error;

    /// Whether `try_hash_err` describes when `try_hash` fails.
    spec fn obeys_try_hash_spec() -> bool;

    /// The error that hashing this value reports, if any, when
    /// `obeys_try_hash_spec` holds.
    spec fn try_hash_err(&self) -> Option<Self::Error>;

    /// The fallible equivalent of `Hash::hash`: feeds this value into
    /// the given hasher state.
    fn try_hash<H: Hasher>(&self, state: &mut H) -> (r: Result<(), Self::Error>)
        ensures
            Self::obeys_try_hash_spec() ==> r == hash_outcome(self.try_hash_err()),
    ;

    /// The fallible equivalent of `Hash::hash_slice`: feeds each element
    /// of `data` into the given hasher state, in sequence order, and
    /// stops at the first element whose `try_hash` fails, reporting its
    /// error unchanged.
    fn try_hash_slice<H: Hasher>(data: &[Self], state: &mut H) -> (r: Result<
        (),
        Self::Error,
    >) where Self: Sized
        ensures
            Self::obeys_try_hash_spec() ==> r == hash_outcome(
                first_err(data@.map_values(|x: Self| x.try_hash_err())),
            ),
        default_ensures
            data@.len() == 0 ==> *final(state) == *old(state),
    {
        let n: usize = data.len();
        if n == 0 {
            return Ok(());
        }
        let mut i: usize = 0;
        while i < n
            invariant
                n == data@.len(),
                i <= n,
                Self::obeys_try_hash_spec() ==> forall|j: int|
                    0 <= j < i ==> (#[trigger] data@[j].try_hash_err()) is None,
            decreases n - i,
        {
            match data[i].try_hash(state) {
                Ok(()) => {},
                Err(e) => {
                    proof {
                        if Self::obeys_try_hash_spec() {
                            lemma_first_err_at(
                                data@.map_values(|x: Self| x.try_hash_err()),
                                i as int,
                                e,
                            );
                        }
                    }
                    return Err(e);
                },
            }
            i = i + 1;
        }
        proof {
            if Self::obeys_try_hash_spec() {
                lemma_first_err_none(data@.map_values(|x: Self| x.try_hash_err()));
            }
        }
        Ok(())
    }
}

/// Relies on `T::hash`: feeds the value into the hasher state.
#[verifier::external_body]
fn hash_raw<T: Hash + ?Sized, H: Hasher>(value: &T, state: &mut H) {
    value.hash(state)
}

/// Relies on `T::hash_slice`: feeds each element, in order, into the
/// hasher state.
#[verifier::external_body]
fn hash_slice_raw<T: Hash, H: Hasher>(data: &[T], state: &mut H) {
    T::hash_slice(data, state)
}

/// Relies on `H::write_u64`: feeds one `u64` into the hasher state.
#[verifier::external_body]
pub(crate) fn hasher_write_u64<H: Hasher>(state: &mut H, value: u64) {
    state.write_u64(value)
}

impl<T: Hash> TryHash for T {
    type Error = Infallible;

    open spec fn obeys_try_hash_spec() -> bool {
        true
    }

    open spec fn try_hash_err(&self) -> Option<Infallible> {
        None
    }

    fn try_hash<H: Hasher>(&self, state: &mut H) -> (r: Result<(), Infallible>) {
        hash_raw(self, state);
        Ok(())
    }

    fn try_hash_slice<H: Hasher>(data: &[T], state: &mut H) -> (r: Result<(), Infallible>) {
        proof {
            lemma_first_err_none(data@.map_values(|x: T| x.try_hash_err()));
        }
        hash_slice_raw(data, state);
        Ok(())
    }
}

} // verus!
