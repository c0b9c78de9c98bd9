//! Keeps the set of offset types closed.

use vstd::prelude::*;

verus! {

/// Marks the primitive integer types that can be offset types. The trait
/// cannot be named from outside the library, so the set cannot grow.
pub trait Primitive {

}

impl Primitive for i8 {

}

impl Primitive for i16 {

}

impl Primitive for i32 {

}

impl Primitive for i64 {

}

impl Primitive for i128 {

}

impl Primitive for isize {

}

} // verus!
