use crate::error::Error;
use crate::packet::event::EventPacket;
use vstd::prelude::*;

verus! {

/// The single slot through which the event loop hands events to the
/// listeners: the latest event and a version that changes with every event
/// written. Nothing is queued; a reader that comes late finds the latest
/// event only.
#[derive(Clone, Debug, PartialEq)]
pub struct EventBus {
    pub slot: EventPacket,
    pub version: u64,
    pub closed: bool,
}

/// The version that follows a version. After the last one it starts again
/// at zero, so it always differs from the one before.
pub open spec fn next_version(version: u64) -> u64 {
    if version == u64::MAX {
        0
    } else {
        (version + 1) as u64
    }
}

impl EventBus {
    /// The bus after an event was written to it.
    pub open spec fn published(self, event: EventPacket) -> EventBus {
        EventBus { slot: event, version: next_version(self.version), closed: self.closed }
    }

    /// An open bus that no event was written to yet.
    pub fn new() -> (r: EventBus)
        ensures
            r.version == 0,
            !r.closed,
            r.slot@ == EventPacket::default_view(),
    {
        EventBus { slot: EventPacket::default(), version: 0, closed: false }
    }

    /// Writes an event into the slot and moves the version on. On a closed
    /// bus nothing is written.
    pub fn publish(&mut self, event: EventPacket) -> (r: Result<(), Error>)
        ensures
            old(self).closed ==> r == Err::<(), Error>(Error::EventBroadcastFailed) && *final(self)
                == *old(self),
            !old(self).closed ==> r == Ok::<(), Error>(()) && *final(self) == old(self).published(
                event,
            ),
    {
        if self.closed {
            return Err(Error::EventBroadcastFailed);
        }
        self.slot = event;
        self.version = if self.version == u64::MAX {
            0
        } else {
            self.version + 1
        };
        Ok(())
    }

    /// Closes the bus: nothing more will be written to it.
    pub fn close(&mut self)
        ensures
            *final(self) == (EventBus { closed: true, ..*old(self) }),
    {
        self.closed = true;
    }

    /// The latest event.
    pub fn latest(&self) -> (r: &EventPacket)
        ensures
            *r == self.slot,
    {
        &self.slot
    }
}

} // verus!
