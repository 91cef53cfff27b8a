use crate::ring::{Cursor, Ring};
use core::marker::PhantomData;
use core::sync::atomic::{AtomicUsize, Ordering};
use vstd::prelude::*;

verus! {

/// Whether `order` may be given to an atomic load (std panics on `Release`
/// and `AcqRel` there).
pub open spec fn load_order(order: Ordering) -> bool {
    match order {
        Ordering::Release | Ordering::AcqRel => false,
        _ => true,
    }
}

/// Whether `order` may be given to an atomic store (std panics on `Acquire`
/// and `AcqRel` there).
pub open spec fn store_order(order: Ordering) -> bool {
    match order {
        Ordering::Acquire | Ordering::AcqRel => false,
        _ => true,
    }
}

/// A cell holding one cursor, shared by reference among threads, which load
/// and store it atomically with the memory ordering each call names.
///
/// `advance` is a load followed by a store, not one atomic step: at most one
/// thread at a time may advance or store a given cell, while any number of
/// others load it (see `ring::lemma_lost_update` for what goes wrong
/// otherwise).
#[derive(Debug)]
pub struct AtomicCursor<T> {
    cell: AtomicUsize,
    marker: PhantomData<T>,
}

impl<T> AtomicCursor<T> {
    /// A cell seeded with `cursor`.
    pub fn new(cursor: Cursor<T>) -> (r: AtomicCursor<T>) {
        AtomicCursor { cell: AtomicUsize::new(cursor.position()), marker: PhantomData }
    }

    /// The cursor last stored in the cell, read atomically with `order`.
    ///
    /// Other threads may store at any time, so what comes back is known
    /// only to be some cursor that was stored.
    pub fn load(&self, order: Ordering) -> (r: Cursor<T>)
        requires
            load_order(order),
    {
        Cursor::new_unchecked(self.cell.load(order))
    }

    /// Overwrites the cell with `cursor`, atomically with `order`.
    pub fn store(&self, cursor: Cursor<T>, order: Ordering)
        requires
            store_order(order),
    {
        self.cell.store(cursor.position(), order)
    }

    /// Loads the cell, moves the cursor one slot on in `ring`, and stores the
    /// result, both with `order`; returns the cursor stored.
    ///
    /// Where the cursor loaded names no slot of `ring`, nothing is stored and
    /// that cursor comes back as the error. What the load returns is up to
    /// the other threads; `Ring::step` gives the outcome for each value.
    pub fn advance(&self, ring: &Ring<T>, order: Ordering) -> (r: Result<Cursor<T>, Cursor<T>>)
        requires
            load_order(order),
            store_order(order),
        ensures
            r matches Ok(n) ==> ring.holds(n),
            r matches Err(c) ==> !ring.holds(c),
    {
        let cursor = self.load(order);
        let r = ring.step(cursor);
        if let Ok(next) = r {
            self.store(next, order);
        }
        r
    }
}

impl<T> Cursor<T> {
    /// Hands this cursor over to a new atomic cell seeded with it.
    pub fn into_atomic(self) -> (r: AtomicCursor<T>) {
        AtomicCursor::new(self)
    }
}

} // verus!
