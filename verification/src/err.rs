//! The one error of the library: a distance that the offset type cannot hold.

use crate::offset::{greatest, least, OffsetInt};
use core::fmt::UpperHex;
use core::marker::PhantomData;
use num_traits::PrimInt;
use vstd::prelude::*;
use vstd::string::StringExecFns;

verus! {

/// The target lies too far from the record for the offset type `I`. Holds the
/// distance that was asked for, in full width.
#[derive(Debug)]
pub struct OutOfRange<I> {
    offset: isize,
    _int: PhantomData<I>,
}

impl<I> OutOfRange<I> {
    /// The distance that did not fit.
    pub closed spec fn attempted(&self) -> int {
        self.offset as int
    }

    /// The error for the distance `offset`.
    pub fn new(offset: isize) -> (e: Self)
        ensures
            e.attempted() == offset as int,
    {
        OutOfRange { offset, _int: PhantomData }
    }

    /// The distance that did not fit.
    pub fn offset(&self) -> (d: isize)
        ensures
            d as int == self.attempted(),
    {
        self.offset
    }
}

impl<I> Clone for OutOfRange<I> {
    fn clone(&self) -> (e: Self)
        ensures
            e.attempted() == self.attempted(),
    {
        OutOfRange { offset: self.offset, _int: PhantomData }
    }
}

impl<I> Copy for OutOfRange<I> {

}

impl<I: PrimInt + OffsetInt> OutOfRange<I> {
    /// The least and the greatest distance that the offset type can hold.
    pub fn bounds(&self) -> (b: (I, I))
        ensures
            b.0.val() == I::lo(),
            b.1.val() == I::hi(),
    {
        (least::<I>(), greatest::<I>())
    }
}

/// The text that std's `{:#X}` writes for the number `val` of the signed
/// primitive type whose least value is `lo`: `0x` and the digits of the
/// number in base sixteen, a negative number as the type's two's complement.
pub uninterp spec fn upper_hex(val: int, lo: int) -> Seq<char>;

/// `format!` of std with `{:#X}`, which calls `UpperHex::fmt` of the type, on
/// a value of one of the signed primitive types. The text depends on the
/// number and on the width of the type alone.
#[verifier::external_body]
fn hex<T: OffsetInt + UpperHex>(v: T) -> (s: String)
    ensures
        s@ == upper_hex(v.val(), T::lo()),
{
    format!("{:#X}", v)
}

/// The message for a distance written as `offset` that lies outside the
/// range from `lo` to `hi`.
pub open spec fn message_text(offset: Seq<char>, lo: Seq<char>, hi: Seq<char>) -> Seq<char> {
    "Offset of "@ + offset + " outside of range ("@ + lo + ", "@ + hi + ")"@
}

/// Puts the message together from the three numbers as they are to be
/// shown.
pub fn compose_message(offset: &str, lo: &str, hi: &str) -> (m: String)
    ensures
        m@ == message_text(offset@, lo@, hi@),
{
    let mut m = String::from_str("Offset of ");
    m.append(offset);
    m.append(" outside of range (");
    m.append(lo);
    m.append(", ");
    m.append(hi);
    m.append(")");
    m
}

impl<I: PrimInt + OffsetInt + UpperHex> OutOfRange<I> {
    /// The message of the error: the distance and the range of the offset
    /// type, each in base sixteen.
    pub fn message(&self) -> (m: String)
        ensures
            m@ == message_text(
                upper_hex(self.attempted(), isize::MIN as int),
                upper_hex(I::lo(), I::lo()),
                upper_hex(I::hi(), I::lo()),
            ),
    {
        let b = self.bounds();
        let offset = hex::<isize>(self.offset);
        let lo = hex::<I>(b.0);
        let hi = hex::<I>(b.1);
        compose_message(offset.as_str(), lo.as_str(), hi.as_str())
    }
}

} // verus!
