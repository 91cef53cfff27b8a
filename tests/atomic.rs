use core::sync::atomic::Ordering;
use ring_cursor::{AtomicCursor, Cursor, Ring};

#[test]
fn new_then_load_gives_seed() {
    let r = Ring::<u64>::new(4).unwrap();
    let cell = AtomicCursor::new(r.cursor_at(2).unwrap());
    assert_eq!(cell.load(Ordering::Acquire).position(), 2);
}

#[test]
fn store_then_load() {
    let r = Ring::<u64>::new(4).unwrap();
    let cell = AtomicCursor::new(r.initial());
    cell.store(r.cursor_at(3).unwrap(), Ordering::Release);
    assert_eq!(cell.load(Ordering::Acquire), r.cursor_at(3).unwrap());
    cell.store(r.cursor_at(1).unwrap(), Ordering::Relaxed);
    assert_eq!(cell.load(Ordering::Relaxed).position(), 1);
}

#[test]
fn into_atomic_seeds_the_cell() {
    let r = Ring::<u64>::new(5).unwrap();
    let cell = r.cursor_at(4).unwrap().into_atomic();
    assert_eq!(cell.load(Ordering::SeqCst).position(), 4);
}

#[test]
fn four_slot_progression() {
    let r = Ring::<u64>::new(4).unwrap();
    let cell = AtomicCursor::new(r.initial());
    assert_eq!(cell.load(Ordering::SeqCst).position(), 0);
    for expected in [1usize, 2, 3] {
        let stored = cell.advance(&r, Ordering::SeqCst).unwrap();
        assert_eq!(stored.position(), expected);
        assert_eq!(cell.load(Ordering::SeqCst).position(), expected);
    }
    let stored = cell.advance(&r, Ordering::SeqCst).unwrap();
    assert_eq!(stored.position(), 0);
    assert_eq!(cell.load(Ordering::SeqCst).position(), 0);
}

#[test]
fn single_writer_matches_repeated_advance() {
    let r = Ring::<u64>::new(7).unwrap();
    let start = r.cursor_at(5).unwrap();
    let cell = AtomicCursor::new(start);
    let mut expected = start;
    for _ in 0..23 {
        cell.advance(&r, Ordering::Relaxed).unwrap();
        expected = r.advance(expected);
    }
    assert_eq!(cell.load(Ordering::Relaxed), expected);
    assert_eq!(expected.position(), (5 + 23) % 7);
}

#[test]
fn interleaved_advances_lose_an_update() {
    let r = Ring::<u64>::new(4).unwrap();
    let c = r.cursor_at(1).unwrap();
    let cell = AtomicCursor::new(c);
    // Both writers load before either stores.
    let first = cell.load(Ordering::Acquire);
    let second = cell.load(Ordering::Acquire);
    cell.store(r.advance(first), Ordering::Release);
    cell.store(r.advance(second), Ordering::Release);
    let end = cell.load(Ordering::Acquire);
    assert_eq!(end, r.advance(c));
    assert_ne!(end, r.advance(r.advance(c)));
}

#[test]
fn advance_leaves_foreign_cursor_alone() {
    let r = Ring::<u64>::new(4).unwrap();
    let cell = AtomicCursor::new(Cursor::new_unchecked(9));
    assert_eq!(cell.advance(&r, Ordering::SeqCst), Err(Cursor::new_unchecked(9)));
    assert_eq!(cell.load(Ordering::SeqCst).position(), 9);
}

#[test]
fn single_slot_cell_stays_put() {
    let r = Ring::<u64>::new(1).unwrap();
    let cell = AtomicCursor::new(r.initial());
    assert_eq!(cell.advance(&r, Ordering::SeqCst), Ok(r.initial()));
    assert_eq!(cell.load(Ordering::SeqCst), r.initial());
}
