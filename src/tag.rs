use std::any::TypeId;
use vstd::prelude::*;

verus! {

/// `std::any::TypeId`, the identity of a concrete type within one process.
#[verifier::external_type_specification]
#[verifier::external_body]
pub struct ExTypeId(TypeId);

/// Relies on `<TypeId as PartialEq>::eq`: two ids compare equal exactly when
/// they are the same id.
pub assume_specification[ <TypeId as PartialEq>::eq ](a: &TypeId, b: &TypeId) -> (r: bool)
    ensures
        r == (*a == *b),
;

/// Relies on `TypeId::of`: the id of the type `T`.
pub assume_specification<T: ?Sized + 'static>[ TypeId::of::<T> ]() -> (r: TypeId);

/// The tag of the element type `T`: equal for the same type, different for
/// different types, within one run of the process.
pub fn tag_of<T: ?Sized + 'static>() -> (r: TypeId) {
    TypeId::of::<T>()
}

} // verus!
