//! Addresses out of optional references.
//!
//! An optional reference and an optional box are each laid out as one
//! pointer: the null pointer where the option is empty, the address of the
//! referent where it is not. No other optional value is promised that layout,
//! so no other has these traits.

use crate::address::{address_of, address_of_mut, is_place_of, NULL};
use vstd::prelude::*;

verus! {

/// An optional value that is laid out as a pointer to read through.
pub trait AsRawPtr {
    /// The type of the place pointed at.
    type Pointee;

    /// The value at the place pointed at; `None` where the option is empty.
    spec fn pointee(&self) -> Option<Self::Pointee>;

    /// The address held: null exactly when the option is empty, else the
    /// address of the place that holds [`AsRawPtr::pointee`], which is
    /// aligned for the pointee.
    fn as_raw_ptr(&self) -> (addr: usize)
        ensures
            (addr == NULL) <==> self.pointee() is None,
            self.pointee() is Some ==> is_place_of::<Self::Pointee>(addr),
    ;
}

/// An optional value that is laid out as a pointer to write through.
pub trait AsRawMutPtr: Sized {
    /// The type of the place pointed at.
    type Pointee;

    /// The value at the place pointed at; `None` where the option is empty.
    spec fn pointee_mut(&self) -> Option<Self::Pointee>;

    /// The address held: null exactly when the option is empty, else the
    /// address of the place that holds [`AsRawMutPtr::pointee_mut`], which
    /// is aligned for the pointee. Taking the address changes neither the
    /// option nor the value at the place.
    fn as_raw_mut_ptr(&mut self) -> (addr: usize)
        ensures
            (addr == NULL) <==> old(self).pointee_mut() is None,
            old(self).pointee_mut() is Some ==> is_place_of::<Self::Pointee>(addr),
            final(self).pointee_mut() == old(self).pointee_mut(),
    ;
}

impl<'a, T> AsRawPtr for Option<&'a T> {
    type Pointee = T;

    open spec fn pointee(&self) -> Option<T> {
        match self {
            Some(target) => Some(**target),
            None => None,
        }
    }

    fn as_raw_ptr(&self) -> (addr: usize) {
        match self {
            None => NULL,
            Some(target) => address_of(*target),
        }
    }
}

impl<'a, T> AsRawPtr for Option<&'a mut T> {
    type Pointee = T;

    open spec fn pointee(&self) -> Option<T> {
        match self {
            Some(target) => Some(**target),
            None => None,
        }
    }

    fn as_raw_ptr(&self) -> (addr: usize) {
        match self {
            None => NULL,
            Some(target) => address_of(&**target),
        }
    }
}

impl<'a, T> AsRawMutPtr for Option<&'a mut T> {
    type Pointee = T;

    open spec fn pointee_mut(&self) -> Option<T> {
        match self {
            Some(target) => Some(**target),
            None => None,
        }
    }

    fn as_raw_mut_ptr(&mut self) -> (addr: usize) {
        match self {
            None => NULL,
            Some(target) => address_of_mut(&mut **target),
        }
    }
}

impl<T> AsRawPtr for Option<Box<T>> {
    type Pointee = T;

    open spec fn pointee(&self) -> Option<T> {
        match self {
            Some(target) => Some(**target),
            None => None,
        }
    }

    fn as_raw_ptr(&self) -> (addr: usize) {
        match self {
            None => NULL,
            Some(target) => address_of(&**target),
        }
    }
}

impl<T> AsRawMutPtr for Option<Box<T>> {
    type Pointee = T;

    open spec fn pointee_mut(&self) -> Option<T> {
        match self {
            Some(target) => Some(**target),
            None => None,
        }
    }

    fn as_raw_mut_ptr(&mut self) -> (addr: usize)
        ensures
            *final(self) == *old(self),
    {
        match self {
            None => NULL,
            Some(target) => address_of_mut(&mut **target),
        }
    }
}

} // verus!
