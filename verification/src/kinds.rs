//! The kinds of pointer that a relative pointer can stand for. Each is a
//! handle that holds the address of its target and nothing else; what the
//! kinds differ in is which addresses they admit, whether the target may be
//! written through them, and what dropping the pointer does to the target.

use crate::rel::clone_keeps_addr;
use crate::traits::{NonNullAddr, Ownership, Pointer, PointerMut, PointerNonNull, PointerNullable};
use vstd::prelude::*;

verus! {

/// A raw pointer for reading: any address, zero for null.
#[derive(Clone, Copy, Debug)]
pub struct RawConst {
    addr: usize,
}

impl Pointer for RawConst {
    closed spec fn addr(&self) -> usize {
        self.addr
    }

    open spec fn admits(a: usize) -> bool {
        true
    }

    open spec fn ownership() -> Ownership {
        Ownership::Borrows
    }

    fn owns() -> Ownership {
        Ownership::Borrows
    }

    open spec fn nullable() -> bool {
        true
    }

    fn is_nullable() -> bool {
        true
    }

    proof fn lemma_null_admitted() {
    }

    fn accepts(a: usize) -> bool {
        true
    }

    fn into_raw(self) -> (a: usize) {
        self.addr
    }

    fn from_raw(a: usize) -> (p: Self) {
        RawConst { addr: a }
    }
}

impl PointerNullable for RawConst {
    proof fn lemma_nullable() {
    }
}

/// A raw pointer for writing: any address, zero for null.
#[derive(Clone, Copy, Debug)]
pub struct RawMut {
    addr: usize,
}

impl Pointer for RawMut {
    closed spec fn addr(&self) -> usize {
        self.addr
    }

    open spec fn admits(a: usize) -> bool {
        true
    }

    open spec fn ownership() -> Ownership {
        Ownership::Borrows
    }

    fn owns() -> Ownership {
        Ownership::Borrows
    }

    open spec fn nullable() -> bool {
        true
    }

    fn is_nullable() -> bool {
        true
    }

    proof fn lemma_null_admitted() {
    }

    fn accepts(a: usize) -> bool {
        true
    }

    fn into_raw(self) -> (a: usize) {
        self.addr
    }

    fn from_raw(a: usize) -> (p: Self) {
        RawMut { addr: a }
    }
}

impl PointerNullable for RawMut {
    proof fn lemma_nullable() {
    }
}

impl PointerMut for RawMut {

}

/// A shared borrow of the target.
#[derive(Clone, Copy, Debug)]
pub struct Borrowed {
    addr: usize,
}

impl Borrowed {
    #[verifier::type_invariant]
    spec fn nonzero(self) -> bool {
        self.addr != 0
    }
}

impl Pointer for Borrowed {
    closed spec fn addr(&self) -> usize {
        self.addr
    }

    open spec fn admits(a: usize) -> bool {
        a != 0
    }

    open spec fn ownership() -> Ownership {
        Ownership::Borrows
    }

    fn owns() -> Ownership {
        Ownership::Borrows
    }

    open spec fn nullable() -> bool {
        false
    }

    fn is_nullable() -> bool {
        false
    }

    proof fn lemma_null_admitted() {
    }

    fn accepts(a: usize) -> bool {
        a != 0
    }

    fn into_raw(self) -> (a: usize) {
        proof {
            use_type_invariant(&self);
        }
        self.addr
    }

    fn from_raw(a: usize) -> (p: Self) {
        Borrowed { addr: a }
    }
}

impl PointerNonNull for Borrowed {
    proof fn lemma_rejects_null() {
    }
}

/// An exclusive borrow of the target.
#[derive(Debug)]
pub struct BorrowedMut {
    addr: usize,
}

impl BorrowedMut {
    #[verifier::type_invariant]
    spec fn nonzero(self) -> bool {
        self.addr != 0
    }
}

impl Pointer for BorrowedMut {
    closed spec fn addr(&self) -> usize {
        self.addr
    }

    open spec fn admits(a: usize) -> bool {
        a != 0
    }

    open spec fn ownership() -> Ownership {
        Ownership::Borrows
    }

    fn owns() -> Ownership {
        Ownership::Borrows
    }

    open spec fn nullable() -> bool {
        false
    }

    fn is_nullable() -> bool {
        false
    }

    proof fn lemma_null_admitted() {
    }

    fn accepts(a: usize) -> bool {
        a != 0
    }

    fn into_raw(self) -> (a: usize) {
        proof {
            use_type_invariant(&self);
        }
        self.addr
    }

    fn from_raw(a: usize) -> (p: Self) {
        BorrowedMut { addr: a }
    }
}

impl PointerNonNull for BorrowedMut {
    proof fn lemma_rejects_null() {
    }
}

impl PointerMut for BorrowedMut {

}

/// The one owner of the target: dropping the pointer releases the target.
#[derive(Debug)]
pub struct Owned {
    addr: usize,
}

impl Owned {
    #[verifier::type_invariant]
    spec fn nonzero(self) -> bool {
        self.addr != 0
    }
}

impl Pointer for Owned {
    closed spec fn addr(&self) -> usize {
        self.addr
    }

    open spec fn admits(a: usize) -> bool {
        a != 0
    }

    open spec fn ownership() -> Ownership {
        Ownership::Owns
    }

    fn owns() -> Ownership {
        Ownership::Owns
    }

    open spec fn nullable() -> bool {
        false
    }

    fn is_nullable() -> bool {
        false
    }

    proof fn lemma_null_admitted() {
    }

    fn accepts(a: usize) -> bool {
        a != 0
    }

    fn into_raw(self) -> (a: usize) {
        proof {
            use_type_invariant(&self);
        }
        self.addr
    }

    fn from_raw(a: usize) -> (p: Self) {
        Owned { addr: a }
    }
}

impl PointerNonNull for Owned {
    proof fn lemma_rejects_null() {
    }
}

impl PointerMut for Owned {

}

/// One of the owners of a target that counts them, within one thread.
#[derive(Debug)]
pub struct Shared {
    addr: usize,
}

impl Shared {
    #[verifier::type_invariant]
    spec fn nonzero(self) -> bool {
        self.addr != 0
    }
}

impl Pointer for Shared {
    closed spec fn addr(&self) -> usize {
        self.addr
    }

    open spec fn admits(a: usize) -> bool {
        a != 0
    }

    open spec fn ownership() -> Ownership {
        Ownership::Shares
    }

    fn owns() -> Ownership {
        Ownership::Shares
    }

    open spec fn nullable() -> bool {
        false
    }

    fn is_nullable() -> bool {
        false
    }

    proof fn lemma_null_admitted() {
    }

    fn accepts(a: usize) -> bool {
        a != 0
    }

    fn into_raw(self) -> (a: usize) {
        proof {
            use_type_invariant(&self);
        }
        self.addr
    }

    fn from_raw(a: usize) -> (p: Self) {
        Shared { addr: a }
    }
}

impl PointerNonNull for Shared {
    proof fn lemma_rejects_null() {
    }
}

/// A clone of a pointer of this kind points where the pointer does.
pub proof fn lemma_shared_clone_keeps_addr()
    ensures
        clone_keeps_addr::<Shared>(),
{
}

impl Clone for Shared {
    /// Another handle to the same target.
    fn clone(&self) -> (c: Self)
        ensures
            c.addr() == self.addr(),
    {
        proof {
            use_type_invariant(self);
        }
        Shared { addr: self.addr }
    }
}

/// One of the owners of a target that counts them, across threads.
#[derive(Debug)]
pub struct SharedSync {
    addr: usize,
}

impl SharedSync {
    #[verifier::type_invariant]
    spec fn nonzero(self) -> bool {
        self.addr != 0
    }
}

impl Pointer for SharedSync {
    closed spec fn addr(&self) -> usize {
        self.addr
    }

    open spec fn admits(a: usize) -> bool {
        a != 0
    }

    open spec fn ownership() -> Ownership {
        Ownership::Shares
    }

    fn owns() -> Ownership {
        Ownership::Shares
    }

    open spec fn nullable() -> bool {
        false
    }

    fn is_nullable() -> bool {
        false
    }

    proof fn lemma_null_admitted() {
    }

    fn accepts(a: usize) -> bool {
        a != 0
    }

    fn into_raw(self) -> (a: usize) {
        proof {
            use_type_invariant(&self);
        }
        self.addr
    }

    fn from_raw(a: usize) -> (p: Self) {
        SharedSync { addr: a }
    }
}

impl PointerNonNull for SharedSync {
    proof fn lemma_rejects_null() {
    }
}

/// A clone of a pointer of this kind points where the pointer does.
pub proof fn lemma_shared_sync_clone_keeps_addr()
    ensures
        clone_keeps_addr::<SharedSync>(),
{
}

impl Clone for SharedSync {
    /// Another handle to the same target.
    fn clone(&self) -> (c: Self)
        ensures
            c.addr() == self.addr(),
    {
        proof {
            use_type_invariant(self);
        }
        SharedSync { addr: self.addr }
    }
}

impl Pointer for NonNullAddr {
    open spec fn addr(&self) -> usize {
        self.value()
    }

    open spec fn admits(a: usize) -> bool {
        a != 0
    }

    open spec fn ownership() -> Ownership {
        Ownership::Borrows
    }

    fn owns() -> Ownership {
        Ownership::Borrows
    }

    open spec fn nullable() -> bool {
        false
    }

    fn is_nullable() -> bool {
        false
    }

    proof fn lemma_null_admitted() {
    }

    fn accepts(a: usize) -> bool {
        a != 0
    }

    fn into_raw(self) -> (a: usize) {
        self.get()
    }

    fn from_raw(a: usize) -> (p: Self) {
        NonNullAddr::new(a).unwrap()
    }
}

impl PointerMut for NonNullAddr {

}

impl PointerNonNull for NonNullAddr {
    proof fn lemma_rejects_null() {
    }

    fn into_raw_nonnull(self) -> (n: NonNullAddr) {
        let _a: usize = self.get();
        self
    }
}

/// A kind with a null state made from one that has none: `None` is the null
/// value, with address zero.
impl<P: PointerNonNull> Pointer for Option<P> {
    open spec fn addr(&self) -> usize {
        match self {
            Some(p) => p.addr(),
            None => 0,
        }
    }

    open spec fn admits(a: usize) -> bool {
        a == 0 || P::admits(a)
    }

    open spec fn ownership() -> Ownership {
        P::ownership()
    }

    fn owns() -> Ownership {
        P::owns()
    }

    open spec fn nullable() -> bool {
        true
    }

    fn is_nullable() -> bool {
        true
    }

    proof fn lemma_null_admitted() {
    }

    fn accepts(a: usize) -> bool {
        a == 0 || P::accepts(a)
    }

    fn into_raw(self) -> (a: usize) {
        match self {
            Some(p) => p.into_raw(),
            None => 0,
        }
    }

    fn from_raw(a: usize) -> (p: Self) {
        if a == 0 {
            None
        } else {
            Some(P::from_raw(a))
        }
    }
}

impl<P: PointerNonNull + PointerMut> PointerMut for Option<P> {

}

impl<P: PointerNonNull> PointerNullable for Option<P> {
    proof fn lemma_nullable() {
    }

    fn get_null() -> (p: Self)
        ensures
            p.is_none(),
    {
        None
    }
}

} // verus!
