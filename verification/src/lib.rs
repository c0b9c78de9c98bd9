//! Relative pointers: a pointer kept as the signed byte distance from the
//! place where it is stored to its target, so that a block of memory holding
//! both can be moved as a whole.
//!
//! Addresses are plain `usize` values. A record never looks at memory; it only
//! does the arithmetic between the address of its own slot and the address of
//! its target.

pub mod offset;
pub mod traits;
pub mod err;
pub mod kinds;
pub mod rel;
mod sealed;

pub use err::OutOfRange;
pub use rel::Rel;
