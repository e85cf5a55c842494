//! The numbers by which polling tasks are told apart.

use vstd::prelude::*;

verus! {

/// Issues each number once.
#[derive(Debug, PartialEq, Eq)]
pub struct TaskNumbers {
    next: u64,
}

impl View for TaskNumbers {
    type V = u64;

    /// The bound below which every number lies that was issued so far.
    closed spec fn view(&self) -> u64 {
        self.next
    }
}

impl TaskNumbers {
    /// No number is issued yet.
    pub fn new() -> (numbers: TaskNumbers)
        ensures
            numbers@ == 0,
    {
        TaskNumbers { next: 0 }
    }

    /// Issues a number that is not below the bound, and raises the bound just
    /// above it; nothing once the numbers of the machine are used up.
    pub fn issue(&mut self) -> (issued: Option<u64>)
        ensures
            issued == (if old(self)@ < u64::MAX {
                Some(old(self)@)
            } else {
                None
            }),
            final(self)@ == (if old(self)@ < u64::MAX {
                (old(self)@ + 1) as u64
            } else {
                old(self)@
            }),
    {
        if self.next < u64::MAX {
            let issued: u64 = self.next;
            self.next = issued + 1;
            Some(issued)
        } else {
            None
        }
    }
}

} // verus!
