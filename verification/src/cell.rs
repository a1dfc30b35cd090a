//! A one-value cell with register-style whole-word reads and writes.

use vstd::prelude::*;

verus! {

/// A container for a single value of a bitwise-copyable type, read and
/// written one whole value at a time.
///
/// The cell is the model of a memory-mapped hardware register: it owns its
/// storage, nothing else aliases it, and every observation and every update
/// is a discrete whole-value access. It provides no synchronisation of any
/// kind: composing a read and a write into a read-modify-write sequence is
/// not one atomic step.
pub struct VolatileCell<T> {
    value: T,
}

impl<T> VolatileCell<T> {
    /// The value the cell holds.
    pub closed spec fn spec_get(self) -> T {
        self.value
    }

    /// The cell as it stands after a write of `value`.
    pub closed spec fn spec_set(self, value: T) -> VolatileCell<T> {
        VolatileCell { value }
    }

    /// Creates a new `VolatileCell` containing the given value.
    ///
    /// Construction cannot fail.
    pub fn new(value: T) -> (cell: VolatileCell<T>)
        ensures
            cell.spec_get() == value,
    {
        VolatileCell { value }
    }

    /// Returns a copy of the contained value.
    pub fn get(&self) -> (value: T) where T: Copy
        ensures
            value == self.spec_get(),
    {
        self.value
    }

    /// Sets the contained value.
    pub fn set(&mut self, value: T) where T: Copy
        ensures
            *final(self) == old(self).spec_set(value),
            final(self).spec_get() == value,
    {
        self.value = value;
    }
}

/// A write followed by a read gives the written value back: for every cell
/// and every value, reading after `set(value)` yields `value`.
pub proof fn lemma_set_then_get<T>(cell: VolatileCell<T>, value: T)
    ensures
        cell.spec_set(value).spec_get() == value,
{
}

} // verus!
