//! Host-owned shared state reachable from imported functions.
//!
//! The counter the guest increments through its imports lives on the host
//! side, in a cell the embedder owns explicitly and threads into each
//! imported-function callback. Access is single-threaded by the
//! boundary's call model: the host blocks for the duration of a guest
//! call, and imported functions are never invoked concurrently.
use vstd::prelude::*;

verus! {

/// A host-owned mutable integer cell, passed by exclusive reference into
/// the imported functions that read and update it.
pub struct CounterCell {
    pub value: i32,
}

impl CounterCell {
    /// A cell holding `initial`.
    pub fn new(initial: i32) -> (c: CounterCell)
        ensures
            c.value == initial,
    {
        CounterCell { value: initial }
    }

    /// The imported function the guest calls to read the counter.
    pub fn get_counter(&self) -> (r: i32)
        ensures
            r == self.value,
    {
        self.value
    }

    /// The imported function the guest calls to add to the counter; it
    /// returns the updated value.
    pub fn add_to_counter(&mut self, value_to_add: i32) -> (r: i32)
        requires
            i32::MIN <= old(self).value + value_to_add <= i32::MAX,
        ensures
            final(self).value == old(self).value + value_to_add,
            r == final(self).value,
    {
        self.value = self.value + value_to_add;
        self.value
    }
}

} // verus!
