//! Zero-cost views of a wrapper type as the single field it is laid out as,
//! addresses out of optional references, and the rules by which an
//! implementation of [`ReprTransparent`] is derived from a type declaration.

pub mod address;
pub mod generate;
pub mod option;
pub mod repr_transparent;

pub use generate::{Attribute, Declaration, DeriveError, Fields, Shape, Token, Variant};
pub use option::{AsRawMutPtr, AsRawPtr};
pub use repr_transparent::ReprTransparent;
