//! Addresses of places, as plain integers.
//!
//! A pointer is held as the address it carries: `0` is the null pointer, any
//! other value is the address of a place.

use vstd::prelude::*;

verus! {

/// The address of the null pointer.
pub const NULL: usize = 0;

/// Whether a value of type `T` can stand at `addr`: the address is not null
/// and is a multiple of the alignment of `T`.
pub open spec fn is_place_of<T>(addr: usize) -> bool {
    addr != NULL && addr as nat % vstd::layout::align_of::<T>() == 0
}

/// The address of the place that `place` refers to.
///
/// Calls `core::ptr::from_ref` and `expose_provenance` on the pointer it gives.
/// Not proved: that the address is never null and is aligned for `T`, which
/// the language promises of every reference. Nothing else is claimed of the
/// address.
#[verifier::external_body]
pub(crate) fn address_of<T>(place: &T) -> (addr: usize)
    ensures
        is_place_of::<T>(addr),
{
    core::ptr::from_ref(place).expose_provenance()
}

/// The address of the place that `place` refers to, for writing through.
///
/// Calls `core::ptr::from_mut` and `expose_provenance` on the pointer it gives.
/// Not proved: that the address is never null and is aligned for `T`, which
/// the language promises of every reference, and that taking the address
/// writes nothing to the place.
#[verifier::external_body]
pub(crate) fn address_of_mut<T>(place: &mut T) -> (addr: usize)
    ensures
        is_place_of::<T>(addr),
        *final(place) == *old(place),
{
    core::ptr::from_mut(place).expose_provenance()
}

} // verus!
