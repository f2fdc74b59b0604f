pub mod bus;
pub mod player_message;
pub mod types;

pub use bus::EventBus;
pub use player_message::{MessageType, PlayerMessage};
pub use types::EventType;

use crate::error::Error;
use crate::json::{JsonObject, ObjectView};
use vstd::prelude::*;

verus! {

/// A typed event: the kind it is reported as, and how it is read from the
/// property map of an event packet.
pub trait Event: Sized {
    /// The kind of event.
    spec fn type_spec() -> EventType;

    /// Whether a result is what reading the event from a property map gives.
    spec fn parse_ok(properties: ObjectView, result: Result<Self, Error>) -> bool;

    /// The kind of event.
    fn get_type() -> (r: EventType)
        ensures
            r == Self::type_spec(),
    ;

    /// Reads the event from a property map.
    fn read(properties: &JsonObject) -> (r: Result<Self, Error>)
        ensures
            Self::parse_ok(properties@, r),
    ;
}

/// A handle on the events of one kind: it remembers the version of the bus
/// that it has seen, and whether it was released.
pub struct EventListener<T: Event> {
    pub seen: u64,
    pub released: bool,
    pub marker: core::marker::PhantomData<T>,
}

impl<T: Event> EventListener<T> {
    /// The event that the next receive reads from a bus: the latest one,
    /// where the bus has changed since the listener last looked and the
    /// event is of the listener's kind.
    pub open spec fn observed(self, bus: EventBus) -> Option<crate::packet::EventPacket> {
        if bus.version != self.seen && bus.slot.event_name == T::type_spec() {
            Some(bus.slot)
        } else {
            None
        }
    }

    /// The listener after it has looked at a bus.
    pub open spec fn caught_up(self, bus: EventBus) -> EventListener<T> {
        EventListener { seen: bus.version, released: self.released, marker: self.marker }
    }

    /// The kind of event that the listener is for.
    pub fn get_type(&self) -> (r: EventType)
        ensures
            r == T::type_spec(),
    {
        T::get_type()
    }

    /// A listener that has seen what the bus holds now. Nothing counts it:
    /// that is for the session to do.
    pub fn new_unchecked(bus: &EventBus) -> (r: EventListener<T>)
        ensures
            r.seen == bus.version,
            !r.released,
    {
        EventListener { seen: bus.version, released: false, marker: core::marker::PhantomData }
    }

    /// Looks at the bus once. Where it has changed since the listener last
    /// looked and holds an event of the listener's kind, the event is read
    /// and handed out. Else, on a closed bus, the answer is that the events
    /// have ended; on an open one there is nothing yet. An event of another
    /// kind, and any that was overwritten before the listener looked, is
    /// passed over.
    pub fn recv(&mut self, bus: &EventBus) -> (r: Option<Result<T, Error>>)
        ensures
            *final(self) == old(self).caught_up(*bus),
            match old(self).observed(*bus) {
                Some(event) => r matches Some(result) && T::parse_ok(event.properties@, result),
                None => r == (if bus.closed {
                    Some(Err::<T, Error>(Error::StreamExhausted("event")))
                } else {
                    None
                }),
            },
    {
        let changed = bus.version != self.seen;
        self.seen = bus.version;
        if changed && bus.slot.event_name == T::get_type() {
            Some(T::read(&bus.slot.properties))
        } else if bus.closed {
            Some(Err(Error::StreamExhausted("event")))
        } else {
            None
        }
    }
}

/// A listener that does not look while two events of its kind are written
/// one after the other finds only the second when it looks next, and
/// nothing when it looks again.
pub proof fn lemma_latest_value_only<T: Event>(
    listener: EventListener<T>,
    bus: EventBus,
    first: crate::packet::EventPacket,
    second: crate::packet::EventPacket,
)
    requires
        listener.seen == bus.version,
        second.event_name == T::type_spec(),
    ensures
        listener.observed(bus.published(first).published(second)) == Some(second),
        listener.caught_up(bus.published(first).published(second)).observed(
            bus.published(first).published(second),
        ) is None,
{
}

} // verus!
