//! The relative pointer record and what can be done with it.

use crate::err::OutOfRange;
use crate::offset::{delta, displace, displaced, distance, fits, lemma_displaced_delta, lemma_displaced_moved, narrow, widen, zero, OffsetInt};
use crate::traits::{NonNullAddr, Pointer, PointerMut, PointerNonNull, PointerNullable};
use core::marker::PhantomData;
use num_traits::PrimInt;
use vstd::prelude::*;

verus! {

/// A pointer of kind `P` kept as the distance, in the integer type `I`, from
/// the slot in which the record lies to its target. The record holds the
/// offset and nothing else; the address of its slot is handed to each
/// operation that needs it.
///
/// A record is neither `Clone` nor `Copy`: it means something only in its
/// slot, and may move only together with its target.
#[derive(Debug)]
pub struct Rel<P: Pointer, I: OffsetInt> {
    offset: I,
    _pd: PhantomData<P>,
}

/// What placing a pointer to the address `a` into the slot at `at` gives:
/// a record with the distance from `at` to `a` where the offset type can hold
/// it, else the error that reports that distance.
pub open spec fn placed<P: Pointer, I: OffsetInt>(
    r: Result<Rel<P, I>, OutOfRange<I>>,
    at: usize,
    a: usize,
) -> bool {
    match r {
        Ok(rec) => fits::<I>(delta(at, a)) && rec.wf() && rec.offset() == delta(at, a),
        Err(e) => !fits::<I>(delta(at, a)) && e.attempted() == delta(at, a),
    }
}

/// What filling the record `rec`, emptied before and lying at `at`, with a
/// pointer to the address `a` leaves: the distance from `at` to `a` in the
/// record where the offset type can hold it, else the record empty and the
/// error that reports the distance.
pub open spec fn filled<P: Pointer, I: OffsetInt>(
    r: Result<(), OutOfRange<I>>,
    rec: Rel<P, I>,
    at: usize,
    a: usize,
) -> bool {
    match r {
        Ok(_) => fits::<I>(delta(at, a)) && rec.offset() == delta(at, a) && rec.target(at) == a,
        Err(e) => !fits::<I>(delta(at, a)) && e.attempted() == delta(at, a) && rec.offset() == 0,
    }
}

/// A record that was placed at `at` for a pointer to `a` has its target at
/// `a`: adding the stored offset to the address of the slot gives back the
/// address that the offset was measured to.
pub proof fn lemma_round_trip<P: Pointer, I: OffsetInt>(rec: Rel<P, I>, at: usize, a: usize)
    requires
        placed(Ok(rec), at, a),
    ensures
        rec.target(at) == a,
{
    lemma_displaced_delta(at, a);
}

/// Placing succeeds at both ends of the range of the offset type and fails
/// one step beyond either end, with an error that reports the distance.
pub proof fn lemma_range_boundaries<P: Pointer, I: OffsetInt>(
    r: Result<Rel<P, I>, OutOfRange<I>>,
    at: usize,
    a: usize,
)
    requires
        placed(r, at, a),
    ensures
        delta(at, a) == I::hi() || delta(at, a) == I::lo() ==> r.is_ok(),
        delta(at, a) == I::hi() + 1 ==> (r matches Err(e) && e.attempted() == I::hi() + 1),
        delta(at, a) == I::lo() - 1 ==> (r matches Err(e) && e.attempted() == I::lo() - 1),
{
    arbitrary::<I>().lemma_range();
}

/// Moving the block that holds a record and its target keeps the record
/// right: where the record lay at `at` and now lies at `new_at`, its target
/// is the old target moved by the same distance.
pub proof fn lemma_relocation<P: Pointer, I: OffsetInt>(rec: Rel<P, I>, at: usize, new_at: usize)
    requires
        rec.wf(),
    ensures
        rec.target(new_at) == displaced(rec.target(at), delta(at, new_at)),
{
    lemma_displaced_moved(at, rec.offset(), new_at);
}

/// An empty record of a kind with a null value stands for the null value
/// wherever it lies, and may be used there.
pub proof fn lemma_empty_is_null<P: Pointer, I: OffsetInt>(rec: Rel<P, I>, at: usize)
    requires
        P::nullable(),
        rec.offset() == 0,
    ensures
        rec.wf(),
        rec.value_addr(at) == 0,
        rec.holds(at),
{
    P::lemma_null_admitted();
}

/// Whether every clone of a pointer of the kind `P` points where the pointer
/// does, as the clone of a shared pointer does.
pub open spec fn clone_keeps_addr<P: Pointer + Clone>() -> bool {
    forall|v: P, c: P| #[trigger] cloned(v, c) ==> c.addr() == v.addr()
}

/// Where the clones of a kind point where the cloned pointer does, a record
/// placed for a clone of the pointer of another record has the same target as
/// that record: both stand for the same payload.
pub proof fn lemma_clone_same_target<P: Pointer + Clone, I: OffsetInt>(
    source: Rel<P, I>,
    at: usize,
    c: P,
    copy: Rel<P, I>,
    copy_at: usize,
)
    requires
        clone_keeps_addr::<P>(),
        source.clone_of_value(at, c),
        placed(Ok(copy), copy_at, c.addr()),
    ensures
        copy.target(copy_at) == source.value_addr(at),
{
    lemma_displaced_delta(copy_at, c.addr());
}

impl<P: Pointer, I: OffsetInt> Rel<P, I> {
    /// The stored offset as a number.
    pub closed spec fn offset(&self) -> int {
        self.offset.val()
    }

    /// The stored offset is a distance between two addresses.
    pub open spec fn wf(&self) -> bool {
        isize::MIN as int <= self.offset() <= isize::MAX as int
    }

    /// The address of the target of the record when it lies at `at`: the
    /// address of the slot and the offset added up, round the ends of the
    /// address space.
    pub open spec fn target(&self, at: usize) -> usize {
        displaced(at, self.offset())
    }

    /// The address of the pointer that the record stands for when it lies at
    /// `at`: zero, for the null value, where the kind has one and the offset
    /// is zero; else the address of the target.
    pub open spec fn value_addr(&self, at: usize) -> usize {
        if P::nullable() && self.offset() == 0 {
            0
        } else {
            self.target(at)
        }
    }

    /// The record is well formed and, lying at `at`, stands for a pointer
    /// that its kind can rebuild.
    pub open spec fn holds(&self, at: usize) -> bool {
        self.wf() && P::admits(self.value_addr(at))
    }
}

impl<P: Pointer + Clone, I: OffsetInt> Rel<P, I> {
    /// Whether `c` can be a clone of the pointer that the record, which lies
    /// at `at`, stands for.
    pub open spec fn clone_of_value(&self, at: usize, c: P) -> bool {
        exists|v: P| v.addr() == self.value_addr(at) && #[trigger] cloned(v, c)
    }
}

impl<P: Pointer, I: PrimInt + OffsetInt> Rel<P, I> {
    /// The offset that a record at `this` needs to reach `target`.
    fn offset_to(this: usize, target: usize) -> (r: Result<I, OutOfRange<I>>)
        ensures
            r.is_ok() <==> fits::<I>(delta(this, target)),
            r matches Ok(v) ==> v.val() == delta(this, target),
            r matches Err(e) ==> e.attempted() == delta(this, target),
    {
        let d: isize = distance(this, target);
        match narrow::<I>(d) {
            Some(v) => Ok(v),
            None => Err(OutOfRange::new(d)),
        }
    }

    /// The pointer that the record, which lies at `at`, stands for. The
    /// record goes on standing for it: the caller must not let both live on.
    fn current(&self, at: usize) -> (p: P)
        requires
            self.holds(at),
        ensures
            p.addr() == self.value_addr(at),
    {
        P::from_raw(self.value_raw(at))
    }

    /// The stored offset.
    pub fn offset_value(&self) -> (d: isize)
        requires
            self.wf(),
        ensures
            d as int == self.offset(),
    {
        widen::<I>(&self.offset).unwrap()
    }

    /// The record for the slot at `this` that stands for the pointer `p`.
    /// The pointer is given up for its address before the distance is
    /// measured, so on an error it is gone: nothing hands it back.
    pub fn set_raw(this: usize, p: P) -> (r: Result<Self, OutOfRange<I>>)
        ensures
            placed(r, this, p.addr()),
            r matches Ok(rec) ==> rec.target(this) == p.addr() && rec.holds(this),
    {
        let a: usize = p.into_raw();
        proof {
            lemma_displaced_delta(this, a);
            if P::nullable() {
                P::lemma_null_admitted();
            }
        }
        match Self::offset_to(this, a) {
            Ok(offset) => Ok(Rel { offset, _pd: PhantomData }),
            Err(e) => Err(e),
        }
    }

    /// The address of the target of the record, which lies at `at`: the slot
    /// and the offset added up, whatever the offset is. An empty record gives
    /// the address of its own slot.
    pub fn get_raw(&self, at: usize) -> (a: usize)
        requires
            self.wf(),
        ensures
            a == self.target(at),
    {
        displace(at, self.offset_value())
    }

    /// The address of the pointer that the record, which lies at `at`,
    /// stands for: zero where the kind has a null value and the offset is
    /// zero, else the address of the target.
    pub fn value_raw(&self, at: usize) -> (a: usize)
        requires
            self.wf(),
        ensures
            a == self.value_addr(at),
    {
        if P::is_nullable() && self.offset_value() == 0 {
            0
        } else {
            self.get_raw(at)
        }
    }

    /// Makes the record, which lies at `at`, stand for `p`, and hands out the
    /// pointer that it stood for, which is not released. Where `p` is too
    /// far away the old pointer is handed out all the same and the record
    /// keeps its old offset: it is stale and has to be set again before it is
    /// used.
    pub fn replace(&mut self, at: usize, p: P) -> (r: (P, Result<(), OutOfRange<I>>))
        requires
            old(self).holds(at),
        ensures
            r.0.addr() == old(self).value_addr(at),
            final(self).wf(),
            r.1.is_ok() <==> fits::<I>(delta(at, p.addr())),
            r.1.is_ok() ==> final(self).offset() == delta(at, p.addr()) && final(self).target(at)
                == p.addr() && final(self).holds(at),
            r.1 matches Err(e) ==> e.attempted() == delta(at, p.addr()) && final(self).offset()
                == old(self).offset(),
    {
        let inner: P = self.current(at);
        match Self::set_raw(at, p) {
            Ok(rec) => {
                *self = rec;
                (inner, Ok(()))
            },
            Err(e) => (inner, Err(e)),
        }
    }

    /// Hands out the pointer that the record, which lies at `at`, stands for,
    /// and ends the record. Dropping what is handed out releases the target
    /// where the kind owns it, and does nothing where the kind borrows.
    pub fn release(self, at: usize) -> (p: P)
        requires
            self.holds(at),
        ensures
            p.addr() == self.value_addr(at),
    {
        self.current(at)
    }
}

impl<P: PointerMut, I: PrimInt + OffsetInt> Rel<P, I> {
    /// The address of the target of the record, which lies at `at`, for
    /// writing through.
    pub fn get_raw_mut(&mut self, at: usize) -> (a: usize)
        requires
            old(self).wf(),
        ensures
            a == old(self).target(at),
            *final(self) == *old(self),
    {
        self.get_raw(at)
    }
}

impl<P: PointerNonNull, I: PrimInt + OffsetInt> Rel<P, I> {
    /// The address at which the target of the record, which lies at `at`,
    /// can be read. It is not zero.
    pub fn deref(&self, at: usize) -> (n: NonNullAddr)
        requires
            self.holds(at),
        ensures
            n.value() == self.target(at),
    {
        proof {
            P::lemma_rejects_null();
        }
        NonNullAddr::new(self.get_raw(at)).unwrap()
    }
}

impl<P: PointerNonNull + PointerMut, I: PrimInt + OffsetInt> Rel<P, I> {
    /// The address at which the target of the record, which lies at `at`,
    /// can be written. It is not zero.
    pub fn deref_mut(&mut self, at: usize) -> (n: NonNullAddr)
        requires
            old(self).holds(at),
        ensures
            n.value() == old(self).target(at),
            *final(self) == *old(self),
    {
        proof {
            P::lemma_rejects_null();
        }
        NonNullAddr::new(self.get_raw_mut(at)).unwrap()
    }
}

impl<P: Pointer + Clone, I: PrimInt + OffsetInt> Rel<P, I> {
    /// A clone of the pointer that the record, which lies at `at`, stands
    /// for. The pointer itself stays with the record: once cloned it is
    /// given up for its address again, not dropped.
    fn clone_inner(&self, at: usize) -> (c: P)
        requires
            self.holds(at),
        ensures
            self.clone_of_value(at, c),
    {
        let inner: P = self.current(at);
        let c: P = inner.clone();
        assert(cloned(inner, c));
        let _kept: usize = inner.into_raw();
        c
    }

    /// The record for the slot at `target` that stands for a clone of the
    /// pointer of `self`, which lies at `at`. Whether the clone points where
    /// the pointer does is for the kind to say. On an error the clone is
    /// gone.
    pub fn clone_into_raw(&self, at: usize, target: usize) -> (r: Result<Self, OutOfRange<I>>)
        requires
            self.holds(at),
        ensures
            exists|c: P| #[trigger] self.clone_of_value(at, c) && placed(r, target, c.addr()),
            r matches Ok(rec) ==> rec.holds(target),
    {
        let c: P = self.clone_inner(at);
        let ghost witness = c;
        let r = Self::set_raw(target, c);
        assert(self.clone_of_value(at, witness) && placed(r, target, witness.addr()));
        r
    }

    /// `clone_into_raw` with the two records the other way round: the record
    /// for the slot at `this` from `source`, which lies at `source_at`.
    pub fn clone_from_raw(this: usize, source: &Self, source_at: usize) -> (r: Result<
        Self,
        OutOfRange<I>,
    >)
        requires
            source.holds(source_at),
        ensures
            exists|c: P| #[trigger]
                source.clone_of_value(source_at, c) && placed(r, this, c.addr()),
            r matches Ok(rec) ==> rec.holds(this),
    {
        source.clone_into_raw(source_at, this)
    }
}

impl<P: PointerNullable, I: PrimInt + OffsetInt> Rel<P, I> {
    /// The empty record: its offset is zero, which stands for the null value
    /// of the kind wherever the record lies.
    pub fn new() -> (r: Self)
        ensures
            r.wf(),
            r.offset() == 0,
            forall|at: usize| #[trigger] r.holds(at) && r.value_addr(at) == 0,
    {
        proof {
            P::lemma_nullable();
            P::lemma_null_admitted();
        }
        Rel { offset: zero::<I>(), _pd: PhantomData }
    }

    /// Hands out the pointer that the record, which lies at `at`, stands for,
    /// and leaves the record empty. From an empty record it hands out the
    /// null value.
    pub fn take(&mut self, at: usize) -> (p: P)
        requires
            old(self).holds(at),
        ensures
            p.addr() == old(self).value_addr(at),
            old(self).offset() == 0 ==> p.addr() == 0,
            final(self).offset() == 0,
            final(self).holds(at),
    {
        proof {
            P::lemma_nullable();
        }
        let inner: P = self.current(at);
        *self = Self::new();
        inner
    }
}

impl<P: PointerNullable + Clone, I: PrimInt + OffsetInt> Rel<P, I> {
    /// Makes `target`, which lies at `target_at`, stand for a clone of the
    /// pointer of `self`, which lies at `at`. What `target` stood for is
    /// taken out and dropped first. Where the clone is too far from
    /// `target`, `target` is left empty and the clone is gone.
    pub fn clone_into(&self, at: usize, target: &mut Self, target_at: usize) -> (r: Result<
        (),
        OutOfRange<I>,
    >)
        requires
            self.holds(at),
            old(target).holds(target_at),
        ensures
            final(target).holds(target_at),
            exists|c: P| #[trigger]
                self.clone_of_value(at, c) && filled(r, *final(target), target_at, c.addr()),
    {
        let _dropped: P = target.take(target_at);
        let c: P = self.clone_inner(at);
        let ghost witness = c;
        let r = match Self::set_raw(target_at, c) {
            Ok(rec) => {
                *target = rec;
                Ok(())
            },
            Err(e) => Err(e),
        };
        assert(self.clone_of_value(at, witness) && filled(r, *target, target_at, witness.addr()));
        r
    }

    /// `clone_into` with the two records the other way round.
    pub fn clone_from(&mut self, at: usize, source: &Self, source_at: usize) -> (r: Result<
        (),
        OutOfRange<I>,
    >)
        requires
            source.holds(source_at),
            old(self).holds(at),
        ensures
            final(self).holds(at),
            exists|c: P| #[trigger]
                source.clone_of_value(source_at, c) && filled(r, *final(self), at, c.addr()),
    {
        source.clone_into(source_at, self, at)
    }
}

} // verus!
