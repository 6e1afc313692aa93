//! Fallible counterparts of the standard library's behavioral traits.
//!
//! Every trait in this crate mirrors one of the standard library's
//! behavioral traits (equality, ordering, arithmetic, bitwise operations,
//! indexing, cloning, hashing, default construction, borrowing, and type
//! introspection), with each method returning a `Result` instead of a bare
//! value.  A blanket implementation covers every type that already
//! implements the infallible original: it calls the original method and
//! wraps the result in `Ok`, with [`Infallible`] as the error type.
//!
//! The traits carry specifications.  Each family exposes spec functions
//! that an implementation uses to describe its own outcomes, and the
//! provided (derived) methods are verified to propagate the first failure
//! of the primary method they are built from, unchanged.

use vstd::prelude::*;

pub mod any;
pub mod borrow;
pub mod clone;
pub mod cmp;
pub mod convert;
pub mod default;
pub mod hash;
pub mod ops;
pub mod tainted;

verus! {

/// The error type used by the blanket implementations: no value of it can
/// ever be constructed, so a fallible call whose error type is
/// `Infallible` cannot fail.
pub type Infallible = core::convert::Infallible;

} // verus!
