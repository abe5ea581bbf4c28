//! The mathematical model of an event buffer.
//!
//! A buffer retains a contiguous run of ordinals, split into an older and a
//! newer generation. Everything the executable buffer does is stated as one
//! of the pure operations defined here.

use crate::id::{EventId, EventInstance, Location};
use core::marker::PhantomData;
use vstd::prelude::*;

verus! {

/// The record that a write stores for the event with the given ordinal.
pub open spec fn record<E>(ordinal: nat, caller: Option<Location>, event: E) -> EventInstance<E> {
    EventInstance { event_id: EventId { id: ordinal as usize, caller, _marker: PhantomData }, event }
}

/// The payloads of a sequence of records, in the same order.
pub open spec fn payloads<E>(records: Seq<EventInstance<E>>) -> Seq<E> {
    Seq::new(records.len(), |i: int| records[i].event)
}

/// The ordinals `first, first + 1, ..., first + count - 1`.
pub open spec fn ordinals(first: nat, count: nat) -> Seq<nat> {
    Seq::new(count, |i: int| (first + i) as nat)
}

/// The records stored for `events` when the first of them gets ordinal `first`.
pub open spec fn batch<E>(first: nat, caller: Option<Location>, events: Seq<E>) -> Seq<
    EventInstance<E>,
> {
    Seq::new(events.len(), |i: int| record((first + i) as nat, caller, events[i]))
}

/// References to the payloads of a sequence of records, in the same order.
pub open spec fn references<'a, E>(records: Seq<EventInstance<E>>) -> Seq<&'a E> {
    Seq::new(records.len(), |i: int| &records[i].event)
}

/// For each of a sequence of records, in the same order, a reference to its
/// payload together with its identifier.
pub open spec fn identified<'a, E>(records: Seq<EventInstance<E>>) -> Seq<(&'a E, EventId<E>)> {
    Seq::new(records.len(), |i: int| (&records[i].event, records[i].event_id))
}

/// The abstract state of an event buffer.
///
/// The retained events are `older` followed by `newer`; the first of them has
/// ordinal `start`, and ordinals grow by one from each record to the next.
pub struct EventsView<E> {
    /// The ordinal of the oldest retained event.
    pub start: nat,
    /// The generation written before the last rotation.
    pub older: Seq<EventInstance<E>>,
    /// The generation written since the last rotation.
    pub newer: Seq<EventInstance<E>>,
}

impl<E> EventsView<E> {
    /// The buffer to which nothing has been written.
    pub open spec fn empty() -> Self {
        EventsView { start: 0, older: Seq::empty(), newer: Seq::empty() }
    }

    /// The ordinal at which the newer generation starts.
    pub open spec fn boundary(self) -> nat {
        self.start + self.older.len()
    }

    /// The ordinal that the next write will assign: the number of events
    /// ever written.
    pub open spec fn next(self) -> nat {
        self.start + self.older.len() + self.newer.len()
    }

    /// All retained records, oldest first.
    pub open spec fn retained(self) -> Seq<EventInstance<E>> {
        self.older + self.newer
    }

    /// The number of retained records.
    pub open spec fn len(self) -> nat {
        self.older.len() + self.newer.len()
    }

    /// Every retained record carries the ordinal of its position, and all
    /// ordinals issued so far fit the machine's word.
    pub open spec fn wf(self) -> bool {
        &&& self.next() <= usize::MAX
        &&& forall|i: int|
            0 <= i < self.older.len() ==> (#[trigger] self.older[i]).event_id.id == self.start + i
        &&& forall|i: int|
            0 <= i < self.newer.len() ==> (#[trigger] self.newer[i]).event_id.id == self.boundary()
                + i
    }

    /// The state after writing one event.
    pub open spec fn write(self, event: E, caller: Option<Location>) -> Self {
        EventsView { newer: self.newer.push(record(self.next(), caller, event)), ..self }
    }

    /// The state after writing `events` in one batch.
    pub open spec fn write_batch(self, events: Seq<E>, caller: Option<Location>) -> Self {
        EventsView { newer: self.newer + batch(self.next(), caller, events), ..self }
    }

    /// The state after one rotation: the older generation is gone, the newer
    /// one has become the older one, and a fresh newer generation begins.
    pub open spec fn rotate(self) -> Self {
        EventsView { start: self.boundary(), older: self.newer, newer: Seq::empty() }
    }

    /// The state after removing every event. Ordinals are not reset.
    pub open spec fn clear(self) -> Self {
        EventsView { start: self.next(), older: Seq::empty(), newer: Seq::empty() }
    }

    /// Whether the event with ordinal `id` is still retained.
    pub open spec fn retains(self, id: nat) -> bool {
        self.start <= id < self.next()
    }

    /// The retained record with ordinal `id`, if there is one.
    pub open spec fn get(self, id: nat) -> Option<EventInstance<E>> {
        if self.retains(id) {
            Some(self.retained()[id - self.start])
        } else {
            None
        }
    }

    /// The ordinal from which a reader at `position` resumes: its own
    /// position, moved up to the oldest retained ordinal if it fell behind,
    /// and never past the end.
    pub open spec fn resume(self, position: nat) -> nat {
        if position < self.start {
            self.start
        } else if position > self.next() {
            self.next()
        } else {
            position
        }
    }

    /// The retained records that a reader at `position` has not seen: those
    /// with ordinal at least `position`, oldest first.
    pub open spec fn unread(self, position: nat) -> Seq<EventInstance<E>> {
        self.retained().skip(self.resume(position) - self.start)
    }
}

} // verus!
