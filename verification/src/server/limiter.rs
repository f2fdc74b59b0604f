use crate::error::Error;
use vstd::prelude::*;

verus! {

/// Bounds how many commands are in flight at one time.
#[derive(Clone, Copy, Debug, PartialEq, Eq, Structural)]
pub struct Limiter {
    pub capacity: usize,
    pub in_use: usize,
    pub closed: bool,
}

impl Limiter {
    /// No more units are in use than there are.
    pub open spec fn wf(self) -> bool {
        self.in_use <= self.capacity
    }

    /// Whether a unit is to be had now.
    pub open spec fn can_acquire(self) -> bool {
        !self.closed && self.in_use < self.capacity
    }

    /// The limiter after a unit was taken.
    pub open spec fn acquired(self) -> Limiter {
        Limiter { in_use: (self.in_use + 1) as usize, ..self }
    }

    /// The limiter after a unit was given back.
    pub open spec fn released(self) -> Limiter {
        if self.in_use > 0 {
            Limiter { in_use: (self.in_use - 1) as usize, ..self }
        } else {
            self
        }
    }

    /// The limiter after `count` commands asked for a unit one after the
    /// other and none gave its unit back: each takes one as long as one is
    /// to be had.
    pub open spec fn after_requests(self, count: nat) -> Limiter
        decreases count,
    {
        if count == 0 {
            self
        } else {
            let before = self.after_requests((count - 1) as nat);
            if before.can_acquire() {
                before.acquired()
            } else {
                before
            }
        }
    }

    /// Whether no more units are in use than there are.
    pub fn is_well_formed(&self) -> (r: bool)
        ensures
            r == self.wf(),
    {
        self.in_use <= self.capacity
    }

    /// An open limiter of a given capacity, with no unit in use.
    pub fn new(capacity: usize) -> (r: Limiter)
        ensures
            r == (Limiter { capacity, in_use: 0, closed: false }),
            r.wf(),
    {
        Limiter { capacity, in_use: 0, closed: false }
    }

    /// Asks for a unit. On a closed limiter that fails. On an open one the
    /// answer says whether a unit was taken; where none is to be had the
    /// caller has to wait.
    pub fn try_acquire(&mut self) -> (r: Result<bool, Error>)
        requires
            old(self).wf(),
        ensures
            final(self).wf(),
            old(self).closed ==> r == Err::<bool, Error>(Error::AcquireError) && *final(self)
                == *old(self),
            !old(self).closed ==> r == Ok::<bool, Error>(old(self).can_acquire()),
            old(self).can_acquire() ==> *final(self) == old(self).acquired(),
            !old(self).can_acquire() ==> *final(self) == *old(self),
    {
        if self.closed {
            Err(Error::AcquireError)
        } else if self.in_use < self.capacity {
            self.in_use = self.in_use + 1;
            Ok(true)
        } else {
            Ok(false)
        }
    }

    /// Gives a unit back. With no unit in use nothing changes.
    pub fn release(&mut self)
        requires
            old(self).wf(),
        ensures
            final(self).wf(),
            *final(self) == old(self).released(),
    {
        if self.in_use > 0 {
            self.in_use = self.in_use - 1;
        }
    }

    /// Closes the limiter: from now on asking for a unit fails.
    pub fn close(&mut self)
        ensures
            *final(self) == (Limiter { closed: true, ..*old(self) }),
    {
        self.closed = true;
    }
}

/// Of commands that ask an open limiter with no unit in use one after the
/// other, none giving its unit back, the first `capacity` each take a unit.
pub proof fn lemma_requests_within_capacity(limiter: Limiter, count: nat)
    requires
        limiter.wf(),
        !limiter.closed,
        limiter.in_use == 0,
        count <= limiter.capacity,
    ensures
        limiter.after_requests(count) == (Limiter { in_use: count as usize, ..limiter }),
    decreases count,
{
    if count > 0 {
        lemma_requests_within_capacity(limiter, (count - 1) as nat);
    }
}

/// With capacity C, the command that asks after C others took their units
/// gets none, and nothing changes, until one of them gives its unit back:
/// then there is one to be had.
pub proof fn lemma_one_more_waits(limiter: Limiter)
    requires
        limiter.wf(),
        !limiter.closed,
        limiter.in_use == 0,
    ensures
        !limiter.after_requests(limiter.capacity as nat).can_acquire(),
        limiter.after_requests((limiter.capacity + 1) as nat) == limiter.after_requests(
            limiter.capacity as nat,
        ),
        limiter.capacity > 0 ==> limiter.after_requests(
            limiter.capacity as nat,
        ).released().can_acquire(),
{
    lemma_requests_within_capacity(limiter, limiter.capacity as nat);
}

} // verus!
