//! What a relative pointer needs to know of the pointer it stands for: how to
//! turn a value into the address of its target and back, and which of
//! mutation, a null state and a promise of never being null the kind has.

use vstd::prelude::*;

verus! {

/// What dropping a pointer of a kind does to its target.
#[derive(Clone, Copy, Debug, PartialEq, Eq, Structural)]
pub enum Ownership {
    /// Nothing: the pointer borrows the target.
    Borrows,
    /// The target is released: the pointer is its one owner.
    Owns,
    /// The count of owners goes down by one, and the last owner releases the
    /// target.
    Shares,
}

/// A kind of pointer that a relative pointer can stand for. A value of the
/// kind is, to this library, the address of its target.
pub trait Pointer: Sized {
    /// What dropping a pointer of this kind does to its target.
    spec fn ownership() -> Ownership;

    /// What dropping a pointer of this kind does to its target.
    fn owns() -> (o: Ownership)
        ensures
            o == Self::ownership(),
    ;

    /// The address of the target of `self`.
    spec fn addr(&self) -> usize;

    /// Whether the kind has a null value. A record of such a kind whose
    /// offset is zero stands for the null value.
    spec fn nullable() -> bool;

    /// Whether the kind has a null value.
    fn is_nullable() -> (b: bool)
        ensures
            b == Self::nullable(),
    ;

    /// The addresses from which a value of this kind may be rebuilt.
    spec fn admits(a: usize) -> bool;

    /// The null value of a kind that has one is rebuilt from address zero.
    proof fn lemma_null_admitted()
        ensures
            Self::nullable() ==> Self::admits(0),
    ;

    /// Whether a value of this kind may be rebuilt from the address `a`.
    fn accepts(a: usize) -> (b: bool)
        ensures
            b == Self::admits(a),
    ;

    /// Gives the value up for the address of its target, which is one from
    /// which the value may be rebuilt.
    fn into_raw(self) -> (a: usize)
        ensures
            a == self.addr(),
            Self::admits(a),
    ;

    /// Rebuilds a value from the address of its target. The address must be
    /// one that this kind admits: one that `into_raw` of the same kind gave.
    fn from_raw(a: usize) -> (p: Self)
        requires
            Self::admits(a),
        ensures
            p.addr() == a,
    ;
}

/// A kind through which the target may be written.
pub trait PointerMut: Pointer {
    /// `into_raw` for an address that will be written through.
    fn into_raw_mut(self) -> (a: usize)
        ensures
            a == self.addr(),
            Self::admits(a),
    {
        self.into_raw()
    }

    /// `from_raw` for an address that may be written through.
    fn from_raw_mut(a: usize) -> (p: Self)
        requires
            Self::admits(a),
        ensures
            p.addr() == a,
    {
        Self::from_raw(a)
    }
}

/// A kind that has a null value, whose address is zero.
pub trait PointerNullable: Pointer {
    /// The kind has a null value.
    proof fn lemma_nullable()
        ensures
            Self::nullable(),
    ;

    /// The null value of the kind.
    fn get_null() -> (p: Self)
        ensures
            p.addr() == 0,
    {
        proof {
            Self::lemma_nullable();
            Self::lemma_null_admitted();
        }
        Self::from_raw(0)
    }
}

/// An address that is not zero.
#[derive(Clone, Copy, Debug)]
pub struct NonNullAddr {
    addr: usize,
}

impl NonNullAddr {
    #[verifier::type_invariant]
    spec fn nonzero(self) -> bool {
        self.addr != 0
    }

    /// The address as a number.
    pub closed spec fn value(&self) -> usize {
        self.addr
    }

    /// `Some` of the address `a` unless it is zero.
    pub fn new(a: usize) -> (r: Option<Self>)
        ensures
            r.is_some() <==> a != 0,
            r.is_some() ==> r.unwrap().value() == a,
    {
        if a == 0 {
            None
        } else {
            Some(NonNullAddr { addr: a })
        }
    }

    /// The address as a number.
    pub fn get(&self) -> (a: usize)
        ensures
            a == self.value(),
            a != 0,
    {
        proof {
            use_type_invariant(self);
        }
        self.addr
    }
}

/// A kind none of whose values has address zero.
pub trait PointerNonNull: Pointer {
    /// Address zero is not admitted, and the kind has no null value.
    proof fn lemma_rejects_null()
        ensures
            !Self::admits(0),
            !Self::nullable(),
    ;

    /// `into_raw` with the result typed as an address that is not zero.
    fn into_raw_nonnull(self) -> (n: NonNullAddr)
        ensures
            n.value() == self.addr(),
            Self::admits(n.value()),
    {
        proof {
            Self::lemma_rejects_null();
        }
        let a: usize = self.into_raw();
        NonNullAddr { addr: a }
    }
}

} // verus!
