//! A fixed-capacity ring of slots, cursors that name one slot of a ring, and
//! an atomic cell that lets threads share and move such a cursor.

pub mod atomic;
pub mod ring;

pub use atomic::AtomicCursor;
pub use ring::{Cursor, Ring};
