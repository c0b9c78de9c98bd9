use relptr::kinds::{Borrowed, BorrowedMut, Owned, RawConst, RawMut, Shared, SharedSync};
use relptr::offset::{displace, distance};
use relptr::traits::{NonNullAddr, Ownership, Pointer, PointerMut, PointerNonNull, PointerNullable};
use relptr::err::compose_message;
use relptr::{OutOfRange, Rel};

#[test]
fn distance_forward_and_backward() {
    assert_eq!(distance(1000, 1200), 200);
    assert_eq!(distance(1200, 1000), -200);
    assert_eq!(distance(77, 77), 0);
}

#[test]
fn distance_wraps_round_the_address_space() {
    assert_eq!(distance(usize::MAX - 5, 10), 16);
    assert_eq!(distance(10, usize::MAX - 5), -16);
    assert_eq!(distance(0, usize::MAX), -1);
    assert_eq!(distance(0, isize::MAX as usize), isize::MAX);
    assert_eq!(distance(0, isize::MAX as usize + 1), isize::MIN);
}

#[test]
fn displace_adds_with_wrap() {
    assert_eq!(displace(1000, 200), 1200);
    assert_eq!(displace(1000, -200), 800);
    assert_eq!(displace(usize::MAX - 5, 16), 10);
    assert_eq!(displace(10, -16), usize::MAX - 5);
}

#[test]
fn round_trip_in_every_width() {
    let at = 0x4000usize;
    let to = 0x4064usize;
    let a = Rel::<RawConst, i8>::set_raw(at, RawConst::from_raw(to)).unwrap();
    assert_eq!(a.get_raw(at), to);
    assert_eq!(a.offset_value(), 100);
    let b = Rel::<RawConst, i16>::set_raw(at, RawConst::from_raw(to)).unwrap();
    assert_eq!(b.get_raw(at), to);
    let c = Rel::<RawConst, i32>::set_raw(at, RawConst::from_raw(to)).unwrap();
    assert_eq!(c.get_raw(at), to);
    let d = Rel::<RawConst, i64>::set_raw(at, RawConst::from_raw(to)).unwrap();
    assert_eq!(d.get_raw(at), to);
    let e = Rel::<RawConst, i128>::set_raw(at, RawConst::from_raw(to)).unwrap();
    assert_eq!(e.get_raw(at), to);
    let f = Rel::<RawConst, isize>::set_raw(at, RawConst::from_raw(to)).unwrap();
    assert_eq!(f.get_raw(at), to);
}

#[test]
fn round_trip_backward_target() {
    let rec = Rel::<Borrowed, i16>::set_raw(50_000, Borrowed::from_raw(20_000)).unwrap();
    assert_eq!(rec.offset_value(), -30_000);
    assert_eq!(rec.get_raw(50_000), 20_000);
}

#[test]
fn round_trip_across_the_wrap() {
    let at = usize::MAX - 5;
    let rec = Rel::<RawConst, i8>::set_raw(at, RawConst::from_raw(10)).unwrap();
    assert_eq!(rec.offset_value(), 16);
    assert_eq!(rec.get_raw(at), 10);
}

#[test]
fn eight_bit_upper_boundary() {
    let at = 1000usize;
    let ok = Rel::<RawConst, i8>::set_raw(at, RawConst::from_raw(at + 127));
    assert_eq!(ok.unwrap().offset_value(), 127);
    let err = Rel::<RawConst, i8>::set_raw(at, RawConst::from_raw(at + 128));
    assert_eq!(err.unwrap_err().offset(), 128);
}

#[test]
fn eight_bit_lower_boundary() {
    let at = 1000usize;
    let ok = Rel::<RawConst, i8>::set_raw(at, RawConst::from_raw(at - 128));
    assert_eq!(ok.unwrap().offset_value(), -128);
    let err = Rel::<RawConst, i8>::set_raw(at, RawConst::from_raw(at - 129));
    assert_eq!(err.unwrap_err().offset(), -129);
}

#[test]
fn sixteen_bit_boundaries() {
    let at = 100_000usize;
    assert!(Rel::<RawMut, i16>::set_raw(at, RawMut::from_raw(at + 32_767)).is_ok());
    let over = Rel::<RawMut, i16>::set_raw(at, RawMut::from_raw(at + 32_768));
    assert_eq!(over.unwrap_err().offset(), 32_768);
    assert!(Rel::<RawMut, i16>::set_raw(at, RawMut::from_raw(at - 32_768)).is_ok());
    let under = Rel::<RawMut, i16>::set_raw(at, RawMut::from_raw(at - 32_769));
    assert_eq!(under.unwrap_err().offset(), -32_769);
}

#[test]
fn thirty_two_bit_boundaries() {
    let at = 0x1_0000_0000usize;
    assert!(Rel::<RawConst, i32>::set_raw(at, RawConst::from_raw(at + 0x7FFF_FFFF)).is_ok());
    let over = Rel::<RawConst, i32>::set_raw(at, RawConst::from_raw(at + 0x8000_0000));
    assert_eq!(over.unwrap_err().offset(), 0x8000_0000);
    assert!(Rel::<RawConst, i32>::set_raw(at, RawConst::from_raw(at - 0x8000_0000)).is_ok());
    let under = Rel::<RawConst, i32>::set_raw(at, RawConst::from_raw(at - 0x8000_0001));
    assert_eq!(under.unwrap_err().offset(), -0x8000_0001);
}

#[test]
fn pointer_width_offset_holds_every_distance() {
    let far = Rel::<RawConst, isize>::set_raw(0, RawConst::from_raw(isize::MAX as usize)).unwrap();
    assert_eq!(far.offset_value(), isize::MAX);
    let back = Rel::<RawConst, isize>::set_raw(0, RawConst::from_raw(isize::MAX as usize + 1)).unwrap();
    assert_eq!(back.offset_value(), isize::MIN);
    assert_eq!(back.get_raw(0), isize::MAX as usize + 1);
}

#[test]
fn two_hundred_bytes_do_not_fit_eight_bits() {
    let a = 0x7000usize;
    let err: OutOfRange<i8> = Rel::<RawConst, i8>::set_raw(a, RawConst::from_raw(a + 200)).unwrap_err();
    assert_eq!(err.offset(), 200);
    assert_eq!(err.bounds(), (-128i8, 127i8));
}

#[test]
fn error_bounds_follow_the_offset_type() {
    assert_eq!(OutOfRange::<i16>::new(40_000).bounds(), (i16::MIN, i16::MAX));
    assert_eq!(OutOfRange::<i32>::new(1).bounds(), (i32::MIN, i32::MAX));
    assert_eq!(OutOfRange::<i64>::new(1).bounds(), (i64::MIN, i64::MAX));
    assert_eq!(OutOfRange::<isize>::new(1).bounds(), (isize::MIN, isize::MAX));
    let e = OutOfRange::<i8>::new(-300);
    let copy = e;
    assert_eq!(e.offset(), -300);
    assert_eq!(copy.clone().offset(), -300);
}

#[test]
fn fresh_record_is_null() {
    let mut rec = Rel::<RawConst, i32>::new();
    assert_eq!(rec.offset_value(), 0);
    let first = rec.take(0x9000);
    assert_eq!(first.into_raw(), 0);
    assert_eq!(rec.offset_value(), 0);
    let second = rec.take(0x9000);
    assert_eq!(second.into_raw(), 0);
    assert_eq!(rec.offset_value(), 0);
}

#[test]
fn fresh_optional_record_is_none() {
    let mut rec = Rel::<Option<Owned>, i16>::new();
    assert!(rec.take(0x9000).is_none());
    assert_eq!(rec.offset_value(), 0);
    assert!(rec.take(0x9000).is_none());
}

#[test]
fn take_hands_out_and_empties() {
    let at = 0x2000usize;
    let mut rec = Rel::<Option<Owned>, i16>::set_raw(at, Some(Owned::from_raw(0x2100))).unwrap();
    assert_eq!(rec.offset_value(), 0x100);
    let got = rec.take(at);
    assert_eq!(got.into_raw(), 0x2100);
    assert_eq!(rec.offset_value(), 0);
    assert!(rec.take(at).is_none());
}

#[test]
fn relocation_keeps_the_distance() {
    let old_base = 0x10_000usize;
    let new_base = 0x90_000usize;
    let rec = Rel::<Borrowed, i16>::set_raw(old_base + 8, Borrowed::from_raw(old_base + 72)).unwrap();
    assert_eq!(rec.get_raw(old_base + 8), old_base + 72);
    assert_eq!(rec.get_raw(new_base + 8), new_base + 72);
    let shift = distance(old_base + 8, new_base + 8);
    assert_eq!(rec.get_raw(new_base + 8), displace(rec.get_raw(old_base + 8), shift));
}

#[test]
fn replace_hands_out_the_old_pointer() {
    let at = 0x3000usize;
    let mut rec = Rel::<Owned, i8>::set_raw(at, Owned::from_raw(0x3010)).unwrap();
    let (old, res) = rec.replace(at, Owned::from_raw(0x3020));
    assert_eq!(old.into_raw(), 0x3010);
    assert!(res.is_ok());
    assert_eq!(rec.get_raw(at), 0x3020);
    assert_eq!(rec.release(at).into_raw(), 0x3020);
}

#[test]
fn replace_too_far_still_hands_out_the_old_pointer() {
    let at = 0x3000usize;
    let mut rec = Rel::<Owned, i8>::set_raw(at, Owned::from_raw(0x3010)).unwrap();
    let (old, res) = rec.replace(at, Owned::from_raw(0x4000));
    assert_eq!(old.into_raw(), 0x3010);
    assert_eq!(res.unwrap_err().offset(), 0x1000);
    assert_eq!(rec.offset_value(), 0x10);
}

#[test]
fn clone_of_shared_points_to_the_same_target() {
    let src_at = 0x5000usize;
    let dst_at = 0x5040usize;
    let src = Rel::<Shared, i16>::set_raw(src_at, Shared::from_raw(0x5100)).unwrap();
    let dst = src.clone_into_raw(src_at, dst_at).unwrap();
    assert_eq!(dst.get_raw(dst_at), 0x5100);
    assert_eq!(src.get_raw(src_at), 0x5100);
    assert_eq!(dst.offset_value(), 0xC0);
    let again = Rel::<Shared, i16>::clone_from_raw(0x5080, &src, src_at).unwrap();
    assert_eq!(again.get_raw(0x5080), 0x5100);
}

#[test]
fn clone_into_replaces_the_target_record() {
    let src_at = 0x5000usize;
    let dst_at = 0x5040usize;
    let src = Rel::<Option<SharedSync>, i16>::set_raw(src_at, Some(SharedSync::from_raw(0x5100))).unwrap();
    let mut dst = Rel::<Option<SharedSync>, i16>::set_raw(dst_at, Some(SharedSync::from_raw(0x5200))).unwrap();
    assert!(src.clone_into(src_at, &mut dst, dst_at).is_ok());
    assert_eq!(dst.get_raw(dst_at), 0x5100);
    assert_eq!(src.get_raw(src_at), 0x5100);
    let mut third = Rel::<Option<SharedSync>, i16>::new();
    assert!(third.clone_from(0x5080, &src, src_at).is_ok());
    assert_eq!(third.get_raw(0x5080), 0x5100);
}

#[test]
fn clone_into_too_far_leaves_the_target_empty() {
    let src_at = 0x5000usize;
    let dst_at = 0x9000usize;
    let src = Rel::<Option<Shared>, i8>::set_raw(src_at, Some(Shared::from_raw(0x5010))).unwrap();
    let mut dst = Rel::<Option<Shared>, i8>::set_raw(dst_at, Some(Shared::from_raw(0x9010))).unwrap();
    let err = src.clone_into(src_at, &mut dst, dst_at).unwrap_err();
    assert_eq!(err.offset(), 0x5010 - 0x9000);
    assert_eq!(dst.offset_value(), 0);
    assert_eq!(src.get_raw(src_at), 0x5010);
}

#[test]
fn raw_mut_address_matches_raw_address() {
    let at = 0x6000usize;
    let mut rec = Rel::<BorrowedMut, i32>::set_raw(at, BorrowedMut::from_raw(0x6800)).unwrap();
    assert_eq!(rec.get_raw_mut(at), 0x6800);
    assert_eq!(rec.get_raw(at), 0x6800);
    assert_eq!(rec.deref(at).get(), 0x6800);
    assert_eq!(rec.deref_mut(at).get(), 0x6800);
}

#[test]
fn kinds_turn_into_addresses_and_back() {
    assert_eq!(RawConst::from_raw(0).into_raw(), 0);
    assert_eq!(RawMut::from_raw_mut(12).into_raw_mut(), 12);
    assert_eq!(Borrowed::from_raw(16).into_raw(), 16);
    assert_eq!(BorrowedMut::from_raw_mut(24).into_raw_mut(), 24);
    assert_eq!(Owned::from_raw(32).into_raw_nonnull().get(), 32);
    assert_eq!(Shared::from_raw(40).clone().into_raw(), 40);
    assert_eq!(SharedSync::from_raw(48).clone().into_raw(), 48);
    assert_eq!(NonNullAddr::from_raw(56).into_raw_nonnull().into_raw(), 56);
    assert_eq!(<Option<Owned>>::from_raw(64).unwrap().into_raw(), 64);
    assert!(<Option<Owned>>::from_raw(0).is_none());
    assert_eq!(Some(Borrowed::from_raw(72)).into_raw(), 72);
    assert_eq!(None::<Borrowed>.into_raw(), 0);
}

#[test]
fn null_values() {
    assert_eq!(RawConst::get_null().into_raw(), 0);
    assert_eq!(RawMut::get_null().into_raw(), 0);
    assert!(<Option<Shared>>::get_null().is_none());
    assert!(NonNullAddr::new(0).is_none());
    assert_eq!(NonNullAddr::new(5).unwrap().get(), 5);
}

#[test]
fn who_owns_the_target() {
    assert_eq!(RawConst::owns(), Ownership::Borrows);
    assert_eq!(RawMut::owns(), Ownership::Borrows);
    assert_eq!(Borrowed::owns(), Ownership::Borrows);
    assert_eq!(BorrowedMut::owns(), Ownership::Borrows);
    assert_eq!(NonNullAddr::owns(), Ownership::Borrows);
    assert_eq!(Owned::owns(), Ownership::Owns);
    assert_eq!(Shared::owns(), Ownership::Shares);
    assert_eq!(SharedSync::owns(), Ownership::Shares);
    assert_eq!(<Option<Owned>>::owns(), Ownership::Owns);
    assert_eq!(<Option<Borrowed>>::owns(), Ownership::Borrows);
}

#[test]
fn release_hands_out_the_pointer() {
    let at = 0x7000usize;
    let rec = Rel::<Owned, i64>::set_raw(at, Owned::from_raw(0x7F00)).unwrap();
    assert_eq!(rec.release(at).into_raw(), 0x7F00);
}

#[test]
fn empty_record_stands_for_null_in_every_operation() {
    let at = 0xA000usize;
    let mut rec = Rel::<Option<Owned>, i8>::new();
    let (old, res) = rec.replace(at, Some(Owned::from_raw(0xA020)));
    assert!(old.is_none());
    assert!(res.is_ok());
    assert_eq!(rec.offset_value(), 0x20);
    let empty = Rel::<Option<Owned>, i8>::new();
    assert!(empty.release(at).is_none());
    assert_eq!(Rel::<RawConst, i8>::new().get_raw(at), at);
}

#[test]
fn kinds_say_what_they_accept() {
    assert!(RawConst::accepts(0));
    assert!(RawMut::accepts(0));
    assert!(!Borrowed::accepts(0));
    assert!(Borrowed::accepts(1));
    assert!(!Owned::accepts(0));
    assert!(<Option<Owned>>::accepts(0));
    assert!(<Option<Owned>>::accepts(8));
    assert!(RawConst::is_nullable());
    assert!(<Option<Shared>>::is_nullable());
    assert!(!Shared::is_nullable());
    assert!(!NonNullAddr::is_nullable());
}

#[test]
fn message_is_put_together_from_its_parts() {
    assert_eq!(compose_message("0xC8", "0x80", "0x7F"), "Offset of 0xC8 outside of range (0x80, 0x7F)");
    assert_eq!(compose_message("", "", ""), "Offset of  outside of range (, )");
}

#[test]
fn message_shows_the_distance_and_the_range() {
    let a = 0x7000usize;
    let err = Rel::<RawConst, i8>::set_raw(a, RawConst::from_raw(a + 200)).unwrap_err();
    assert_eq!(err.message(), "Offset of 0xC8 outside of range (0x80, 0x7F)");
    let wide = OutOfRange::<i16>::new(0x12345);
    assert_eq!(wide.message(), "Offset of 0x12345 outside of range (0x8000, 0x7FFF)");
}

#[test]
fn message_shows_a_negative_distance_in_full_width() {
    let err = Rel::<RawConst, i8>::set_raw(1000, RawConst::from_raw(871)).unwrap_err();
    assert_eq!(
        err.message(),
        format!("Offset of {:#X} outside of range (0x80, 0x7F)", -129isize)
    );
    assert!(err.message().starts_with("Offset of 0xFF"));
}
