//! The offset integer and the address arithmetic of a relative pointer.

use crate::sealed::Primitive;
use num_traits::PrimInt;
use vstd::prelude::*;

verus! {

/// The mathematical reading of a signed primitive integer type that can hold
/// an offset: the value of each member, and the least and greatest value.
/// The types that have it are `i8`, `i16`, `i32`, `i64`, `i128` and `isize`,
/// and no others can be given it.
pub trait OffsetInt: Sized + Primitive {
    /// The number that `self` stands for.
    spec fn val(&self) -> int;

    /// The least value of the type.
    spec fn lo() -> int;

    /// The greatest value of the type.
    spec fn hi() -> int;

    /// Zero is a value of the type, and every value lies between the least
    /// and the greatest.
    proof fn lemma_range(&self)
        ensures
            Self::lo() <= 0 <= Self::hi(),
            Self::lo() <= self.val() <= Self::hi(),
    ;
}

impl OffsetInt for i8 {
    open spec fn val(&self) -> int {
        *self as int
    }

    open spec fn lo() -> int {
        i8::MIN as int
    }

    open spec fn hi() -> int {
        i8::MAX as int
    }

    proof fn lemma_range(&self) {
    }
}

impl OffsetInt for i16 {
    open spec fn val(&self) -> int {
        *self as int
    }

    open spec fn lo() -> int {
        i16::MIN as int
    }

    open spec fn hi() -> int {
        i16::MAX as int
    }

    proof fn lemma_range(&self) {
    }
}

impl OffsetInt for i32 {
    open spec fn val(&self) -> int {
        *self as int
    }

    open spec fn lo() -> int {
        i32::MIN as int
    }

    open spec fn hi() -> int {
        i32::MAX as int
    }

    proof fn lemma_range(&self) {
    }
}

impl OffsetInt for i64 {
    open spec fn val(&self) -> int {
        *self as int
    }

    open spec fn lo() -> int {
        i64::MIN as int
    }

    open spec fn hi() -> int {
        i64::MAX as int
    }

    proof fn lemma_range(&self) {
    }
}

impl OffsetInt for i128 {
    open spec fn val(&self) -> int {
        *self as int
    }

    open spec fn lo() -> int {
        i128::MIN as int
    }

    open spec fn hi() -> int {
        i128::MAX as int
    }

    proof fn lemma_range(&self) {
    }
}

impl OffsetInt for isize {
    open spec fn val(&self) -> int {
        *self as int
    }

    open spec fn lo() -> int {
        isize::MIN as int
    }

    open spec fn hi() -> int {
        isize::MAX as int
    }

    proof fn lemma_range(&self) {
    }
}

/// Whether `d` can be stored in the offset type `I`.
pub open spec fn fits<I: OffsetInt>(d: int) -> bool {
    I::lo() <= d <= I::hi()
}

/// Number of distinct addresses: one more than the greatest `usize`.
pub open spec fn address_space() -> int {
    usize::MAX as int + 1
}

/// The signed distance from `from` to `to`: the one value in the range of
/// `isize` that differs from `to - from` by a multiple of the address space.
pub open spec fn delta(from: usize, to: usize) -> int {
    let d = to as int - from as int;
    if d > isize::MAX as int {
        d - address_space()
    } else if d < isize::MIN as int {
        d + address_space()
    } else {
        d
    }
}

/// The address that lies `off` bytes after `at`, wrapping round at the ends
/// of the address space.
pub open spec fn displaced(at: usize, off: int) -> usize {
    let s = at as int + off;
    if s > usize::MAX as int {
        (s - address_space()) as usize
    } else if s < 0 {
        (s + address_space()) as usize
    } else {
        s as usize
    }
}

/// `NumCast::from` of num_traits, called on an `isize` for one of the signed
/// primitive types: the cast succeeds exactly when the number lies between the
/// least and the greatest value of the target type, and then keeps the number.
#[verifier::external_body]
pub(crate) fn narrow<I: PrimInt + OffsetInt>(d: isize) -> (r: Option<I>)
    ensures
        r.is_some() <==> fits::<I>(d as int),
        r.is_some() ==> r.unwrap().val() == d as int,
{
    <I as num_traits::NumCast>::from(d)
}

/// `ToPrimitive::to_isize` of num_traits, called on a value of one of the
/// signed primitive types: `Some` of the same number exactly when the number
/// lies in the range of `isize`.
#[verifier::external_body]
pub(crate) fn widen<I: PrimInt + OffsetInt>(v: &I) -> (r: Option<isize>)
    ensures
        r.is_some() <==> isize::MIN as int <= v.val() <= isize::MAX as int,
        r.is_some() ==> r.unwrap() as int == v.val(),
{
    num_traits::ToPrimitive::to_isize(v)
}

/// `Zero::zero` of num_traits for one of the signed primitive types: the
/// number zero.
#[verifier::external_body]
pub(crate) fn zero<I: PrimInt + OffsetInt>() -> (r: I)
    ensures
        r.val() == 0,
{
    <I as num_traits::Zero>::zero()
}

/// `Bounded::min_value` of num_traits for one of the signed primitive types:
/// the least value of the type.
#[verifier::external_body]
pub(crate) fn least<I: PrimInt + OffsetInt>() -> (r: I)
    ensures
        r.val() == I::lo(),
{
    <I as num_traits::Bounded>::min_value()
}

/// `Bounded::max_value` of num_traits for one of the signed primitive types:
/// the greatest value of the type.
#[verifier::external_body]
pub(crate) fn greatest<I: PrimInt + OffsetInt>() -> (r: I)
    ensures
        r.val() == I::hi(),
{
    <I as num_traits::Bounded>::max_value()
}

/// The signed distance from the address `from` to the address `to`, computed
/// with wrap-around as the hardware does.
pub fn distance(from: usize, to: usize) -> (d: isize)
    ensures
        d as int == delta(from, to),
{
    let u: usize = to.wrapping_sub(from);
    if u <= isize::MAX as usize {
        u as isize
    } else {
        let back: usize = usize::MAX - u;
        -(back as isize) - 1
    }
}

/// The address `off` bytes away from `at`, computed with wrap-around.
pub fn displace(at: usize, off: isize) -> (a: usize)
    ensures
        a == displaced(at, off as int),
{
    at.wrapping_add_signed(off)
}

/// Going the distance from `from` to `to`, starting at `from`, ends at `to`.
pub proof fn lemma_displaced_delta(from: usize, to: usize)
    ensures
        isize::MIN as int <= delta(from, to) <= isize::MAX as int,
        displaced(from, delta(from, to)) == to,
{
}

/// Moving a place and the address `off` bytes after it by the same distance
/// keeps them `off` bytes apart: the address `off` bytes after the new place
/// is the old address moved by the distance from the old place to the new.
pub proof fn lemma_displaced_moved(at: usize, off: int, new_at: usize)
    requires
        isize::MIN as int <= off <= isize::MAX as int,
    ensures
        displaced(new_at, off) == displaced(displaced(at, off), delta(at, new_at)),
{
}

} // verus!
