use core::marker::PhantomData;
use vstd::arithmetic::div_mod::{
    lemma_add_mod_noop_right, lemma_mod_add_multiples_vanish, lemma_small_mod,
};
use vstd::prelude::*;

verus! {

/// The slot that follows slot `pos` in a ring of `cap` slots: one further
/// on, and back to the first slot after the last.
pub open spec fn next_slot(cap: nat, pos: nat) -> nat {
    (pos + 1) % cap
}

/// The slot reached from slot `pos` of a ring of `cap` slots by `n` steps of
/// `next_slot`, one after another.
pub open spec fn advanced(cap: nat, pos: nat, n: nat) -> nat
    decreases n,
{
    if n == 0 {
        pos
    } else {
        next_slot(cap, advanced(cap, pos, (n - 1) as nat))
    }
}

/// A position in a ring of slots holding values of type `T`.
///
/// A cursor is a plain slot index. It carries no reference to the ring it
/// belongs to: whether it names a slot of a given ring is `Ring::holds`.
#[derive(Debug)]
pub struct Cursor<T> {
    pos: usize,
    marker: PhantomData<T>,
}

impl<T> View for Cursor<T> {
    type V = nat;

    /// The slot index that the cursor names.
    closed spec fn view(&self) -> nat {
        self.pos as nat
    }
}

impl<T> Clone for Cursor<T> {
    fn clone(&self) -> (r: Self)
        ensures
            r == *self,
    {
        *self
    }
}

impl<T> Copy for Cursor<T> {

}

impl<T> PartialEq for Cursor<T> {
    fn eq(&self, other: &Cursor<T>) -> (r: bool)
        ensures
            r == (self@ == other@),
    {
        self.pos == other.pos
    }
}

impl<T> vstd::std_specs::cmp::PartialEqSpecImpl for Cursor<T> {
    open spec fn obeys_eq_spec() -> bool {
        true
    }

    open spec fn eq_spec(&self, other: &Cursor<T>) -> bool {
        self@ == other@
    }
}

impl<T> Eq for Cursor<T> {

}

impl<T> Cursor<T> {
    /// Builds the cursor that names slot `position`, without asking any ring
    /// whether that slot exists (see `Ring::cursor_at` for the checked form).
    pub fn new_unchecked(position: usize) -> (r: Cursor<T>)
        ensures
            r@ == position,
    {
        Cursor { pos: position, marker: PhantomData }
    }

    /// The slot index that the cursor names.
    pub fn position(&self) -> (r: usize)
        ensures
            r == self@,
    {
        self.pos
    }
}

/// A circular arrangement of a fixed number of slots of type `T`.
///
/// The ring defines how positions move: each step goes to the next slot, and
/// the step after the last slot comes back to the first. Its capacity is set
/// once, is never zero and never changes.
#[derive(Debug)]
pub struct Ring<T> {
    capacity: usize,
    marker: PhantomData<T>,
}

impl<T> View for Ring<T> {
    type V = nat;

    /// The number of slots.
    closed spec fn view(&self) -> nat {
        self.capacity as nat
    }
}

impl<T> Ring<T> {
    /// Whether cursor `c` names one of this ring's slots.
    pub open spec fn holds(&self, c: Cursor<T>) -> bool {
        c@ < self@
    }

    /// A ring of `capacity` slots; none where `capacity` is zero, since such a
    /// ring would have no position at all.
    pub fn new(capacity: usize) -> (r: Option<Ring<T>>)
        ensures
            r is None <==> capacity == 0,
            r matches Some(ring) ==> ring@ == capacity,
    {
        if capacity == 0 {
            None
        } else {
            Some(Ring { capacity, marker: PhantomData })
        }
    }

    /// The number of slots.
    pub fn capacity(&self) -> (r: usize)
        ensures
            r == self@,
    {
        self.capacity
    }

    /// The cursor at the first slot.
    pub fn initial(&self) -> (r: Cursor<T>)
        ensures
            r@ == 0,
    {
        Cursor::new_unchecked(0)
    }

    /// Whether cursor `c` names one of this ring's slots.
    pub fn owns(&self, c: Cursor<T>) -> (r: bool)
        ensures
            r == self.holds(c),
    {
        c.pos < self.capacity
    }

    /// The cursor at slot `position`, if the ring has such a slot.
    pub fn cursor_at(&self, position: usize) -> (r: Option<Cursor<T>>)
        ensures
            r is Some <==> position < self@,
            r matches Some(c) ==> c@ == position,
    {
        if position < self.capacity {
            Some(Cursor::new_unchecked(position))
        } else {
            None
        }
    }

    /// The cursor at the slot after the one that `c` names, wrapping from the
    /// last slot to the first.
    pub fn advance(&self, c: Cursor<T>) -> (r: Cursor<T>)
        requires
            self.holds(c),
        ensures
            r@ == next_slot(self@, c@),
            self.holds(r),
    {
        Cursor::new_unchecked((c.pos + 1) % self.capacity)
    }

    /// `advance` for a cursor that may not belong to this ring: the next
    /// cursor where `c` names a slot of the ring, else `c` back as the error.
    pub fn step(&self, c: Cursor<T>) -> (r: Result<Cursor<T>, Cursor<T>>)
        ensures
            r is Ok <==> self.holds(c),
            r matches Ok(n) ==> n@ == next_slot(self@, c@) && self.holds(n),
            r matches Err(e) ==> e == c,
    {
        if self.owns(c) {
            Ok(self.advance(c))
        } else {
            Err(c)
        }
    }
}

/// Two cursors that name the same slot are the same cursor: rebuilding a
/// cursor from the position of `c` (`Cursor::new_unchecked(c.position())`)
/// gives `c` back.
pub proof fn lemma_position_round_trip<T>(c: Cursor<T>, d: Cursor<T>)
    requires
        d@ == c@,
    ensures
        d == c,
{
}

/// From slot `c` of a ring of N slots, `n` steps of `advance` reach slot
/// `(c + n) mod N`: the cursor after a run of advances depends only on how
/// many there were.
pub proof fn lemma_advanced_offset<T>(ring: &Ring<T>, c: Cursor<T>, n: nat)
    requires
        ring.holds(c),
    ensures
        advanced(ring@, c@, n) == (c@ + n) % ring@,
    decreases n,
{
    let m = ring@ as int;
    if n == 0 {
        lemma_small_mod(c@, ring@);
    } else {
        lemma_advanced_offset(ring, c, (n - 1) as nat);
        lemma_add_mod_noop_right(1, c@ + n - 1, m);
    }
}

/// For a ring of N slots and any cursor `c` of it, N steps of `advance` come
/// back to `c`.
pub proof fn lemma_cycle<T>(ring: &Ring<T>, c: Cursor<T>)
    requires
        ring.holds(c),
    ensures
        advanced(ring@, c@, ring@) == c@,
{
    let m = ring@ as int;
    lemma_advanced_offset(ring, c, ring@);
    lemma_mod_add_multiples_vanish(c@ as int, m);
    lemma_small_mod(c@, ring@);
}

/// In a ring of one slot, `advance` gives back the cursor it is given.
pub proof fn lemma_single_slot<T>(ring: &Ring<T>, c: Cursor<T>)
    requires
        ring@ == 1,
        ring.holds(c),
    ensures
        next_slot(ring@, c@) == c@,
{
}

/// Why `AtomicCursor::advance` needs a single writer. Two threads that both
/// advance a cell holding `c` may both load `c` before either stores; each
/// then stores the slot after `c`, and the cell ends one step from `c`. In
/// a ring of two or more slots that differs from the two steps asked for,
/// so one update is lost.
pub proof fn lemma_lost_update<T>(ring: &Ring<T>, c: Cursor<T>)
    requires
        ring@ >= 2,
        ring.holds(c),
    ensures
        next_slot(ring@, c@) != advanced(ring@, c@, 2),
{
    lemma_advanced_offset(ring, c, 1);
    lemma_advanced_offset(ring, c, 2);
    let m = ring@ as int;
    if c@ + 2 < m {
        lemma_small_mod((c@ + 1) as nat, ring@);
        lemma_small_mod((c@ + 2) as nat, ring@);
    } else if c@ + 2 == m {
        lemma_small_mod((c@ + 1) as nat, ring@);
        lemma_mod_add_multiples_vanish(0, m);
        lemma_small_mod(0, ring@);
    } else {
        lemma_mod_add_multiples_vanish(0, m);
        lemma_mod_add_multiples_vanish(1, m);
        lemma_small_mod(0, ring@);
        lemma_small_mod(1, ring@);
    }
}

} // verus!
