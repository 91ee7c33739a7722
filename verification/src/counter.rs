//! The counter store: a single unsigned counter that the handlers share.
//!
//! The counter starts at 0, can be reset to 0, and can be incremented by
//! one.  Incrementing past `u64::MAX` wraps to 0; the wrap is a stated
//! bound of the store, not an error.  The store is an owned value: the
//! embedding decides how it is shared (each operation takes the store
//! exclusively, so every interleaving of operations is some serialization
//! of them).

use vstd::prelude::*;

verus! {

/// The value that one increment yields from `v`: `v + 1`, wrapping to 0
/// at the top of the `u64` range.
pub open spec fn next_value(v: u64) -> u64 {
    if v < u64::MAX {
        (v + 1) as u64
    } else {
        0
    }
}

/// A process-lifetime counter with reset and increment.
pub struct Counter {
    value: u64,
}

impl Counter {
    /// The stored value, as contracts speak of it.
    pub closed spec fn value(self) -> u64 {
        self.value
    }

    /// A fresh counter holds 0.
    pub fn new() -> (c: Counter)
        ensures
            c.value() == 0,
    {
        Counter { value: 0 }
    }

    /// Reset the counter to 0, whatever it held.
    pub fn reset(&mut self)
        ensures
            final(self).value() == 0,
    {
        self.value = 0;
    }

    /// Add one, wrapping at `u64::MAX`, and return the new value.
    pub fn increment_and_get(&mut self) -> (v: u64)
        ensures
            final(self).value() == next_value(old(self).value()),
            v == final(self).value(),
    {
        if self.value < u64::MAX {
            self.value = self.value + 1;
        } else {
            self.value = 0;
        }
        self.value
    }

    /// Read the current value.
    pub fn get(&self) -> (v: u64)
        ensures
            v == self.value(),
    {
        self.value
    }
}

} // verus!
