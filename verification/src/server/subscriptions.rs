use crate::event::types::{EventType, EVENT_TYPE_COUNT};
use vstd::prelude::*;

verus! {

/// How many listeners there are for each kind of event. A kind with none
/// has no subscription on the wire.
#[derive(Clone, Debug, PartialEq)]
pub struct Subscriptions {
    pub counts: Vec<u32>,
}

/// The count after one more listener. At the largest count it stays.
pub open spec fn one_more(count: u32) -> u32 {
    if count == u32::MAX {
        count
    } else {
        (count + 1) as u32
    }
}

/// The count after one listener less. At zero it stays.
pub open spec fn one_less(count: u32) -> u32 {
    if count == 0 {
        count
    } else {
        (count - 1) as u32
    }
}

impl Subscriptions {
    /// There is a count for every kind of event.
    pub open spec fn wf(self) -> bool {
        self.counts@.len() == EVENT_TYPE_COUNT
    }

    /// The number of listeners for a kind of event.
    pub open spec fn count_spec(self, kind: EventType) -> u32 {
        self.counts@[kind.index_spec()]
    }

    /// Whether a new listener for a kind is the first, so that the kind has
    /// to be subscribed on the wire.
    pub open spec fn is_first(self, kind: EventType) -> bool {
        self.count_spec(kind) == 0
    }

    /// Whether a listener for a kind that goes is the last, so that the
    /// kind has to be unsubscribed on the wire.
    pub open spec fn is_last(self, kind: EventType) -> bool {
        self.count_spec(kind) == 1
    }

    /// Whether a table is this one with one more listener for a kind.
    pub open spec fn added(self, kind: EventType, after: Subscriptions) -> bool {
        after.counts@ == self.counts@.update(kind.index_spec(), one_more(self.count_spec(kind)))
    }

    /// Whether a table is this one with one listener less for a kind.
    pub open spec fn removed(self, kind: EventType, after: Subscriptions) -> bool {
        after.counts@ == self.counts@.update(kind.index_spec(), one_less(self.count_spec(kind)))
    }

    /// Whether there is a count for every kind of event.
    pub fn is_well_formed(&self) -> (r: bool)
        ensures
            r == self.wf(),
    {
        self.counts.len() == EVENT_TYPE_COUNT
    }

    /// A table without listeners.
    pub fn new() -> (r: Subscriptions)
        ensures
            r.wf(),
            forall|kind: EventType| r.count_spec(kind) == 0,
    {
        let mut counts: Vec<u32> = Vec::new();
        let mut i: usize = 0;
        while i < EVENT_TYPE_COUNT
            invariant
                i <= EVENT_TYPE_COUNT,
                counts@.len() == i,
                forall|j: int| 0 <= j < i ==> counts@[j] == 0,
            decreases EVENT_TYPE_COUNT - i,
        {
            counts.push(0);
            i = i + 1;
        }
        Subscriptions { counts }
    }

    /// The number of listeners for a kind of event.
    pub fn count(&self, kind: EventType) -> (r: u32)
        requires
            self.wf(),
        ensures
            r == self.count_spec(kind),
    {
        self.counts[kind.index()]
    }

    /// Counts one more listener for a kind of event, and says whether it is
    /// the first: then the kind has to be subscribed on the wire.
    pub fn add(&mut self, kind: EventType) -> (first: bool)
        requires
            old(self).wf(),
        ensures
            final(self).wf(),
            old(self).added(kind, *final(self)),
            first == old(self).is_first(kind),
    {
        let index = kind.index();
        let count = self.counts[index];
        let next = if count == u32::MAX {
            count
        } else {
            count + 1
        };
        self.counts.set(index, next);
        count == 0
    }

    /// Counts one listener less for a kind of event, and says whether it was
    /// the last: then the kind has to be unsubscribed on the wire.
    pub fn remove(&mut self, kind: EventType) -> (last: bool)
        requires
            old(self).wf(),
        ensures
            final(self).wf(),
            old(self).removed(kind, *final(self)),
            last == old(self).is_last(kind),
    {
        let index = kind.index();
        let count = self.counts[index];
        let next = if count == 0 {
            count
        } else {
            count - 1
        };
        self.counts.set(index, next);
        count == 1
    }

    /// Forgets every listener.
    pub fn clear(&mut self)
        ensures
            final(self).wf(),
            forall|kind: EventType| final(self).count_spec(kind) == 0,
    {
        let fresh = Subscriptions::new();
        self.counts = fresh.counts;
    }
}

/// A listener that is made and taken back leaves the count of its kind, and
/// every other count, as they were, so that the next listener of a kind
/// that had none is again the first. This holds of every count but the
/// largest, at which the count stays.
pub proof fn lemma_taking_back_restores_the_count(
    start: Subscriptions,
    kind: EventType,
    made: Subscriptions,
    taken_back: Subscriptions,
)
    requires
        start.wf(),
        start.count_spec(kind) < u32::MAX,
        start.added(kind, made),
        made.removed(kind, taken_back),
    ensures
        taken_back.counts@ == start.counts@,
        taken_back.is_first(kind) == start.is_first(kind),
{
    assert(taken_back.counts@ =~= start.counts@);
}

/// Below the largest count, every new listener raises the count of its kind
/// by one and every listener that goes lowers it by one; no other count
/// moves. The kind is subscribed on the wire with the listener that finds
/// the count at zero and with no other, and unsubscribed with the listener
/// that leaves it at zero and with no other.
pub proof fn lemma_count_moves_by_one(
    before: Subscriptions,
    kind: EventType,
    more: Subscriptions,
    less: Subscriptions,
)
    requires
        before.wf(),
        before.added(kind, more),
        before.removed(kind, less),
    ensures
        before.count_spec(kind) < u32::MAX ==> more.count_spec(kind) == before.count_spec(kind)
            + 1,
        before.count_spec(kind) > 0 ==> less.count_spec(kind) == before.count_spec(kind) - 1,
        before.is_first(kind) <==> before.count_spec(kind) == 0,
        before.is_last(kind) <==> less.count_spec(kind) == 0 && before.count_spec(kind) > 0,
        forall|other: EventType|
            other != kind ==> more.count_spec(other) == before.count_spec(other)
                && less.count_spec(other) == before.count_spec(other),
{
    assert forall|other: EventType| other != kind implies more.count_spec(other)
        == before.count_spec(other) && less.count_spec(other) == before.count_spec(other) by {
        assert(other.index_spec() != kind.index_spec());
    }
}

/// Two listeners for a kind that had none: the count goes to 1 with the
/// first, which alone calls for a subscription on the wire, and to 2 with
/// the second. Releasing one leaves 1 and calls for nothing; releasing the
/// other leaves 0 and alone calls for the unsubscription.
pub proof fn lemma_subscribe_twice_release_twice(
    start: Subscriptions,
    kind: EventType,
    one: Subscriptions,
    two: Subscriptions,
    three: Subscriptions,
    four: Subscriptions,
)
    requires
        start.wf(),
        start.count_spec(kind) == 0,
        start.added(kind, one),
        one.added(kind, two),
        two.removed(kind, three),
        three.removed(kind, four),
    ensures
        one.count_spec(kind) == 1,
        two.count_spec(kind) == 2,
        three.count_spec(kind) == 1,
        four.count_spec(kind) == 0,
        start.is_first(kind),
        !one.is_first(kind),
        !two.is_last(kind),
        three.is_last(kind),
        forall|other: EventType|
            other != kind ==> four.count_spec(other) == start.count_spec(other),
{
    assert forall|other: EventType| other != kind implies four.count_spec(other)
        == start.count_spec(other) by {
        assert(other.index_spec() != kind.index_spec());
    }
}

} // verus!
