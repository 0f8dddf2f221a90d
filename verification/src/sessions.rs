//! Admission of LLM sessions. The server runs at most a fixed number of
//! sessions at once; a note is queued up only where a slot is free, or where
//! a finished session can be reaped to free one.

use vstd::prelude::*;

verus! {

/// The outcome of an admission request: whether the note is queued up, and
/// how many sessions the pool holds afterwards.
pub open spec fn admission(running: nat, capacity: nat, reaped: bool) -> (bool, nat) {
    if running < capacity {
        (true, running + 1)
    } else if reaped {
        // a finished session left the pool and the new one took its slot
        (true, running)
    } else {
        (false, running)
    }
}

/// The sessions held by the pool: those that run and those that have finished
/// but were not reaped yet.
pub struct SessionSlots {
    running: usize,
    capacity: usize,
}

impl SessionSlots {
    /// The number of sessions in the pool.
    pub closed spec fn running(&self) -> nat {
        self.running as nat
    }

    /// The most sessions the pool may hold.
    pub closed spec fn capacity(&self) -> nat {
        self.capacity as nat
    }

    #[verifier::type_invariant]
    closed spec fn within_capacity(&self) -> bool {
        self.running <= self.capacity
    }

    /// An empty pool that holds at most `capacity` sessions.
    pub fn new(capacity: usize) -> (res: Self)
        ensures
            res.running() == 0,
            res.capacity() == capacity,
    {
        SessionSlots { running: 0, capacity }
    }

    /// The number of sessions in the pool.
    pub fn len(&self) -> (res: usize)
        ensures
            res == self.running(),
            res <= self.capacity(),
    {
        proof { use_type_invariant(self); }
        self.running
    }

    /// Whether a new session fits without reaping a finished one.
    pub fn has_free_slot(&self) -> (res: bool)
        ensures
            res == (self.running() < self.capacity()),
    {
        self.running < self.capacity
    }

    /// Decides whether a note is queued up. `reaped` tells whether a finished
    /// session was taken out of a full pool; it is only asked where no slot is
    /// free, and it can only be true where the pool holds a session.
    pub fn try_acquire(&mut self, reaped: bool) -> (queued: bool)
        requires
            reaped ==> old(self).running() >= old(self).capacity(),
            reaped ==> old(self).running() > 0,
        ensures
            (queued, final(self).running()) == admission(old(self).running(), old(self).capacity(), reaped),
            final(self).capacity() == old(self).capacity(),
            final(self).running() <= final(self).capacity(),
    {
        proof { use_type_invariant(&*self); }
        if self.running < self.capacity {
            self.running = self.running + 1;
            true
        } else if reaped {
            true
        } else {
            false
        }
    }
}

/// Admission never lets the pool hold more sessions than its capacity.
pub proof fn lemma_admission_within_capacity(running: nat, capacity: nat, reaped: bool)
    requires
        running <= capacity,
    ensures
        admission(running, capacity, reaped).1 <= capacity,
{
}

/// A refused note leaves the pool as it was, and a note is refused only where
/// the pool is full and no finished session could be reaped.
pub proof fn lemma_refusal_leaves_pool(running: nat, capacity: nat, reaped: bool)
    ensures
        !admission(running, capacity, reaped).0 <==> (running >= capacity && !reaped),
        !admission(running, capacity, reaped).0 ==> admission(running, capacity, reaped).1 == running,
{
}

/// A pool of capacity zero queues up nothing: it holds no session, so none
/// can be reaped from it.
pub proof fn lemma_zero_capacity_refuses(running: nat, reaped: bool)
    requires
        running <= 0,
        reaped ==> running > 0,
    ensures
        !admission(running, 0, reaped).0,
{
}

} // verus!
