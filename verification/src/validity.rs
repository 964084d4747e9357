use vstd::prelude::*;

verus! {

/// The bookkeeping of a reader lock that guards no payload.
///
/// A hold on the lock says that someone is dereferencing the value that the
/// lock stands beside. Holds do not exclude one another; the lock only counts
/// them, and is consulted when the value is about to be destroyed.
#[derive(Debug)]
pub struct ValidityLock {
    readers: usize,
}

impl ValidityLock {
    /// The number of holds that have been taken and not yet given back.
    pub closed spec fn holders(&self) -> nat {
        self.readers as nat
    }

    /// The holds can always be counted in a machine word.
    pub proof fn holders_bounded(&self)
        ensures
            self.holders() <= usize::MAX,
    {
    }

    /// A fresh lock, which nobody holds.
    pub fn new() -> (lock: Self)
        ensures
            lock.holders() == 0,
    {
        ValidityLock { readers: 0 }
    }

    /// The number of current holds.
    pub fn count(&self) -> (n: usize)
        ensures
            n == self.holders(),
    {
        self.readers
    }

    /// Whether anybody holds the lock.
    pub fn is_locked(&self) -> (locked: bool)
        ensures
            locked == (self.holders() > 0),
    {
        self.readers > 0
    }

    /// Takes one more hold, unless the counter is at its limit.
    pub fn try_read(&mut self) -> (taken: bool)
        ensures
            taken == (old(self).holders() < usize::MAX),
            final(self).holders() == after_acquire(old(self).holders()),
    {
        if self.readers < usize::MAX {
            self.readers = self.readers + 1;
            true
        } else {
            false
        }
    }

    /// Gives one hold back, if there is one.
    pub fn release_read(&mut self) -> (released: bool)
        ensures
            released == (old(self).holders() > 0),
            final(self).holders() == after_release(old(self).holders()),
    {
        if self.readers > 0 {
            self.readers = self.readers - 1;
            true
        } else {
            false
        }
    }
}

/// The holder count after one attempt to take a hold.
pub open spec fn after_acquire(holders: nat) -> nat {
    if holders < usize::MAX {
        holders + 1
    } else {
        holders
    }
}

/// The holder count after one attempt to give a hold back.
pub open spec fn after_release(holders: nat) -> nat {
    if holders > 0 {
        (holders - 1) as nat
    } else {
        holders
    }
}

} // verus!
