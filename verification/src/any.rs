//! Fallible version of the introspection trait of `core::any`.

use core::any::TypeId;
use vstd::prelude::*;

use crate::Infallible;

verus! {

#[verifier::external_type_specification]
#[verifier::external_body]
pub struct ExTypeId(TypeId);

/// The try trait for `Any`.
pub trait TryAny: 'static {
    /// The type returned in the event of an error.
    type Error;

    /// Whether `try_type_id_err` describes when `try_type_id` fails.
    spec fn obeys_try_type_id_spec() -> bool;

    /// The error that asking this value for its type identifier
    /// reports, if any, when `obeys_try_type_id_spec` holds.
    spec fn try_type_id_err(&self) -> Option<Self::Error>;

    /// The fallible equivalent of `Any::type_id`.
    fn try_type_id(&self) -> (r: Result<TypeId, Self::Error>)
        ensures
            Self::obeys_try_type_id_spec() ==> match self.try_type_id_err() {
                None => r is Ok,
                Some(e) => r == Err::<TypeId, Self::Error>(e),
            },
    ;
}

/// Relies on `TypeId::of`: the stable identifier of the type.
#[verifier::external_body]
fn type_id_raw<T: 'static>() -> TypeId {
    TypeId::of::<T>()
}

impl<T: 'static> TryAny for T {
    type Error = Infallible;

    open spec fn obeys_try_type_id_spec() -> bool {
        true
    }

    open spec fn try_type_id_err(&self) -> Option<Infallible> {
        None
    }

    fn try_type_id(&self) -> (r: Result<TypeId, Infallible>)
        ensures
            r is Ok,
    {
        Ok(type_id_raw::<T>())
    }
}

} // verus!
