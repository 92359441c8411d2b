//! Wrapper types that are laid out exactly as their single inner field.

use crate::address::{address_of, address_of_mut, is_place_of};
use vstd::prelude::*;

verus! {

/// A wrapper that is laid out in memory exactly as the one field it wraps.
///
/// An implementation names the wrapped type as [`ReprTransparent::Inner`] and
/// says with [`ReprTransparent::inner`] which value of that type a wrapper
/// holds. Every operation hands out that value or its place, never a copy
/// made field by field.
///
/// Only types declared `#[repr(transparent)]` whose first field has the type
/// `Inner` should implement this trait: the address that
/// [`ReprTransparent::as_inner_ptr`] returns is the wrapper's own, and it is
/// the address of the inner value only under that layout. An implementation
/// answers for the layout with [`ReprTransparent::same_layout`]; what the
/// trait says of sizes and alignment rests on it.
///
/// There is no way to borrow the inner value mutably. A wrapper may keep
/// rules about its inner value that a caller holding `&mut Inner` could
/// break; the raw address from [`ReprTransparent::as_inner_mut_ptr`] makes
/// going around the wrapper an explicit choice.
pub trait ReprTransparent: Sized {
    /// The type of the wrapped field.
    type Inner;

    /// The wrapped value. It is read in contracts only.
    spec fn inner(&self) -> Self::Inner;

    /// What an implementation answers for: the wrapper has the size and the
    /// alignment of the type it wraps.
    proof fn same_layout()
        ensures
            vstd::layout::size_of::<Self>() == vstd::layout::size_of::<Self::Inner>(),
            vstd::layout::align_of::<Self>() == vstd::layout::align_of::<Self::Inner>(),
    ;

    /// Gives up the wrapper for the value it wraps.
    fn into_inner(self) -> (inner: Self::Inner)
        ensures
            inner == self.inner(),
    ;

    /// Borrows the wrapped value for as long as the wrapper is borrowed.
    fn as_inner_ref(&self) -> (inner: &Self::Inner)
        ensures
            *inner == self.inner(),
    ;

    /// The address of the wrapped value: that of the wrapper itself, which
    /// is never null and is aligned for the wrapper and so for its inner type.
    fn as_inner_ptr(&self) -> (addr: usize)
        ensures
            is_place_of::<Self>(addr),
            is_place_of::<Self::Inner>(addr),
    {
        proof {
            Self::same_layout();
        }
        address_of(self)
    }

    /// The address of the wrapped value, for writing through: that of the
    /// wrapper itself, which is never null and is aligned for the wrapper and
    /// so for its inner type. The wrapper is left as it was.
    fn as_inner_mut_ptr(&mut self) -> (addr: usize)
        ensures
            is_place_of::<Self>(addr),
            is_place_of::<Self::Inner>(addr),
            *final(self) == *old(self),
    {
        proof {
            Self::same_layout();
        }
        address_of_mut(self)
    }
}

/// Giving up a wrapper yields the value it wraps, and that value fills the
/// wrapper: the two types have one size and one alignment, so the conversion
/// drops no byte and adds none.
pub proof fn lemma_into_inner_is_whole<W: ReprTransparent>(wrapper: W, owned: W::Inner)
    requires
        call_ensures(W::into_inner, (wrapper,), owned),
    ensures
        owned == wrapper.inner(),
        vstd::layout::size_of::<W>() == vstd::layout::size_of::<W::Inner>(),
        vstd::layout::align_of::<W>() == vstd::layout::align_of::<W::Inner>(),
{
    W::same_layout();
}

/// Taking the inner value out of a wrapper gives back the value that the
/// wrapper was made of: a wrapper that holds `value` gives `value`, whether
/// it is given up (`owned`) or borrowed (`borrowed`).
pub proof fn lemma_round_trip<W: ReprTransparent>(
    wrapper: W,
    value: W::Inner,
    owned: W::Inner,
    borrowed: W::Inner,
)
    requires
        wrapper.inner() == value,
        call_ensures(W::into_inner, (wrapper,), owned),
        call_ensures(W::as_inner_ref, (&wrapper,), &borrowed),
    ensures
        owned == value,
        borrowed == value,
{
}

} // verus!
