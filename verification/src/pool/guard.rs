//! Exclusive access to the shared consumer end.
//!
//! All workers read from one consumer end, so reads are serialised by a
//! guard. The guard covers the read alone: a worker gives it up before it
//! touches what it received, and never holds it while a job runs.

use vstd::prelude::*;

verus! {

/// The mutual-exclusion guard around the consumer end. Its view is the
/// worker that holds it, if any.
pub struct ReadGuard {
    holder: Option<usize>,
}

impl View for ReadGuard {
    type V = Option<usize>;

    closed spec fn view(&self) -> Option<usize> {
        self.holder
    }
}

impl ReadGuard {
    /// A guard that nobody holds.
    pub fn new() -> (guard: Self)
        ensures
            guard@ is None,
    {
        ReadGuard { holder: None }
    }

    /// Worker `id` asks for the guard and gets it exactly when it is free.
    pub fn acquire(&mut self, id: usize) -> (acquired: bool)
        ensures
            acquired == (old(self)@ is None),
            final(self)@ == if acquired {
                Some(id)
            } else {
                old(self)@
            },
    {
        match self.holder {
            None => {
                self.holder = Some(id);
                true
            },
            Some(_) => false,
        }
    }

    /// Worker `id` gives the guard up. Only its holder can do so.
    pub fn release(&mut self, id: usize) -> (released: bool)
        ensures
            released == (old(self)@ == Some(id)),
            final(self)@ == if released {
                None
            } else {
                old(self)@
            },
    {
        match self.holder {
            Some(holder) => {
                if holder == id {
                    self.holder = None;
                    true
                } else {
                    false
                }
            },
            None => false,
        }
    }

    /// The worker that holds the guard, if any.
    pub fn holder(&self) -> (holder: Option<usize>)
        ensures
            holder == self@,
    {
        self.holder
    }
}

} // verus!
