//! Storage for the saved original function pointer.
//!
//! The process holds at most one saved original address. The cell starts
//! empty, is written by the install path when the patch succeeds, and is
//! read on every intercepted call. Once non-empty its value never changes
//! in normal operation; a second store silently overwrites. The shell
//! around the library guards the one shared cell with a mutex, so each
//! load and store here is a single consistent access.

use vstd::prelude::*;

verus! {

/// Lazily-initialized storage holding at most one saved original
/// function-pointer address. An address is carried as a plain integer;
/// zero is never stored (the install path rejects a null patch result).
pub struct OriginalPointerCell {
    ptr: Option<u64>,
}

impl View for OriginalPointerCell {
    type V = Option<u64>;

    /// The cell's contents: the saved original address, if one was stored.
    closed spec fn view(&self) -> Option<u64> {
        self.ptr
    }
}

impl OriginalPointerCell {
    /// A fresh cell is empty: before installation every load sees `None`.
    pub fn new() -> (cell: Self)
        ensures
            cell@ is None,
    {
        OriginalPointerCell { ptr: None }
    }

    /// Saves the original address. Called at most once in normal
    /// operation; a second call silently overwrites the first.
    pub fn store(&mut self, addr: u64)
        ensures
            final(self)@ == Some(addr),
    {
        self.ptr = Some(addr);
    }

    /// Reads the saved address: `None` before installation, the stored
    /// address after.
    pub fn load(&self) -> (r: Option<u64>)
        ensures
            r == self@,
    {
        self.ptr
    }
}

} // verus!
