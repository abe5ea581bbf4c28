//! The event buffer: two generations of events and a running ordinal.

use crate::cursor::EventCursor;
use crate::id::{EventId, EventInstance, Location};
use crate::model::{batch, ordinals, payloads, record, references, EventsView};
use core::marker::PhantomData;
use vstd::prelude::*;

verus! {

/// One generation of events: the records in write order, and the ordinal of
/// the first of them.
#[derive(Debug)]
pub(crate) struct EventSequence<E> {
    pub(crate) events: Vec<EventInstance<E>>,
    pub(crate) start_event_count: usize,
}

/// An event collection that holds the events written within the last two
/// calls of [`Events::update`].
///
/// Every written event gets the next ordinal, counted from zero over the
/// buffer's whole life. Events are appended to the newer generation; an
/// update discards the older generation and makes the newer one the older
/// one. Readers that read at least once per update therefore never miss an
/// event, and an event that is two updates old is gone.
///
/// The buffer grows without bound if `update` is never called.
#[derive(Debug)]
pub struct Events<E> {
    /// Holds the oldest still active events.
    pub(crate) events_a: EventSequence<E>,
    /// Holds the newer events.
    pub(crate) events_b: EventSequence<E>,
    /// The number of events ever written.
    pub(crate) event_count: usize,
}

impl<E> View for Events<E> {
    type V = EventsView<E>;

    closed spec fn view(&self) -> EventsView<E> {
        EventsView {
            start: self.events_a.start_event_count as nat,
            older: self.events_a.events@,
            newer: self.events_b.events@,
        }
    }
}

impl<E> Default for Events<E> {
    /// The empty buffer: nothing retained, and the first write gets ordinal 0.
    fn default() -> (out: Self)
        ensures
            out.wf(),
            out@ == EventsView::<E>::empty(),
    {
        Events {
            events_a: EventSequence { events: Vec::new(), start_event_count: 0 },
            events_b: EventSequence { events: Vec::new(), start_event_count: 0 },
            event_count: 0,
        }
    }
}

impl<E> Events<E> {
    /// The buffer's invariant: the two generations hold consecutive runs of
    /// ordinals that end at the running count, and every record carries the
    /// ordinal of its place.
    pub closed spec fn wf(&self) -> bool {
        &&& self@.wf()
        &&& self.events_b.start_event_count == self@.boundary()
        &&& self.event_count == self@.next()
    }

    /// A well-formed buffer has a well-formed model.
    pub proof fn lemma_wf_view(&self)
        requires
            self.wf(),
        ensures
            self@.wf(),
    {
    }

    /// How the model is read off the fields.
    pub(crate) proof fn lemma_fields(&self)
        ensures
            self@.start == self.events_a.start_event_count,
            self@.older == self.events_a.events@,
            self@.newer == self.events_b.events@,
            self.wf() ==> self.events_b.start_event_count == self@.boundary() && self.event_count
                == self@.next(),
    {
    }

    /// Gets a new cursor that has seen nothing: its first read yields every
    /// event that the buffer still holds.
    pub fn get_cursor(&self) -> (cursor: EventCursor<E>)
        ensures
            cursor@ == 0,
    {
        EventCursor::default()
    }

    /// Gets a new cursor that has seen everything written so far: it yields
    /// only events written from now on.
    pub fn get_cursor_current(&self) -> (cursor: EventCursor<E>)
        requires
            self.wf(),
        ensures
            cursor@ == self@.next(),
    {
        EventCursor::at(self.event_count)
    }

    /// Writes `event` to the newer generation, recording `caller` as its
    /// provenance, and returns the identifier it was given.
    pub fn write_with_caller(&mut self, event: E, caller: Option<Location>) -> (event_id: EventId<E>)
        requires
            old(self).wf(),
            old(self)@.next() < usize::MAX,
        ensures
            final(self).wf(),
            final(self)@ == old(self)@.write(event, caller),
            event_id == record(old(self)@.next(), caller, event).event_id,
            event_id.id == old(self)@.next(),
    {
        let event_id = EventId { id: self.event_count, caller, _marker: PhantomData };
        let event_instance = EventInstance { event_id, event };
        self.events_b.events.push(event_instance);
        self.event_count += 1;
        event_id
    }

    /// Writes `event` to the newer generation and returns the identifier it
    /// was given. Readers can then read the event.
    pub fn write(&mut self, event: E) -> (event_id: EventId<E>)
        requires
            old(self).wf(),
            old(self)@.next() < usize::MAX,
        ensures
            final(self).wf(),
            final(self)@ == old(self)@.write(event, None),
            event_id == record(old(self)@.next(), None, event).event_id,
            event_id.id == old(self)@.next(),
    {
        self.write_with_caller(event, None)
    }

    /// Writes every event of `events`, in order, to the newer generation.
    pub fn extend(&mut self, events: Vec<E>)
        requires
            old(self).wf(),
            old(self)@.next() + events@.len() <= usize::MAX,
        ensures
            final(self).wf(),
            final(self)@ == old(self)@.write_batch(events@, None),
    {
        let ghost before = self@;
        let ghost items = events@;
        let mut event_count = self.event_count;
        for event in it: events.into_iter()
            invariant
                it.seq() == items,
                before.wf(),
                before.next() + items.len() <= usize::MAX,
                event_count == before.next() + it.index(),
                self.events_a == old(self).events_a,
                self.events_b.start_event_count == old(self).events_b.start_event_count,
                self.events_b.events@ == before.newer + batch(
                    before.next(),
                    None,
                    items.take(it.index() as int),
                ),
        {
            let event_id = EventId { id: event_count, caller: None, _marker: PhantomData };
            event_count += 1;
            self.events_b.events.push(EventInstance { event_id, event });
        }
        self.event_count = event_count;
        assert(items.take(items.len() as int) == items);
    }

    /// Writes a list of `events` all at once, which is more efficient than
    /// writing each event individually, and returns the identifiers they
    /// were given: consecutive ordinals, starting at the count of events
    /// written before.
    pub fn write_batch(&mut self, events: Vec<E>) -> (ids: WriteBatchIds<E>)
        requires
            old(self).wf(),
            old(self)@.next() + events@.len() <= usize::MAX,
        ensures
            final(self).wf(),
            final(self)@ == old(self)@.write_batch(events@, None),
            ids@ == ordinals(old(self)@.next(), events@.len()),
    {
        let last_count = self.event_count;
        self.extend(events);
        WriteBatchIds { last_count, event_count: self.event_count, _marker: PhantomData }
    }

    /// Writes the default value of the event. Useful when the event is an
    /// empty struct. Returns the identifier the event was given.
    pub fn write_default(&mut self) -> (event_id: EventId<E>) where E: Default
        requires
            old(self).wf(),
            old(self)@.next() < usize::MAX,
        ensures
            final(self).wf(),
            final(self)@.newer.len() == old(self)@.newer.len() + 1,
            call_ensures(E::default, (), final(self)@.newer.last().event),
            final(self)@ == old(self)@.write(final(self)@.newer.last().event, None),
            event_id == final(self)@.newer.last().event_id,
            event_id.id == old(self)@.next(),
    {
        self.write(E::default())
    }

    /// Returns the number of events ever written to the buffer: the ordinal
    /// that the next write will give.
    pub fn event_count(&self) -> (count: usize)
        requires
            self.wf(),
        ensures
            count == self@.next(),
    {
        self.event_count
    }

    /// Returns the ordinal of the oldest event stored in the buffer. Every
    /// event with a smaller ordinal is gone.
    pub fn oldest_event_count(&self) -> (oldest: usize)
        ensures
            oldest == self@.start,
    {
        self.events_a.start_event_count
    }

    /// Swaps the generations and clears the oldest one. In general, this
    /// should be called once per frame.
    ///
    /// If you need the events that were removed, use
    /// [`Events::update_drain`].
    pub fn update(&mut self)
        requires
            old(self).wf(),
        ensures
            final(self).wf(),
            final(self)@ == old(self)@.rotate(),
    {
        core::mem::swap(&mut self.events_a, &mut self.events_b);
        self.events_b.events.clear();
        self.events_b.start_event_count = self.event_count;
    }

    /// Swaps the generations and drains the oldest one, returning the events
    /// that were removed, oldest first. In general, this should be called
    /// once per frame.
    ///
    /// If you do not need the removed events, use [`Events::update`].
    #[must_use]
    pub fn update_drain(&mut self) -> (removed: Vec<E>)
        requires
            old(self).wf(),
        ensures
            final(self).wf(),
            final(self)@ == old(self)@.rotate(),
            removed@ == payloads(old(self)@.older),
    {
        core::mem::swap(&mut self.events_a, &mut self.events_b);
        let mut drained: Vec<EventInstance<E>> = Vec::new();
        core::mem::swap(&mut drained, &mut self.events_b.events);
        self.events_b.start_event_count = self.event_count;
        let mut removed: Vec<E> = Vec::new();
        take_events(drained, &mut removed);
        removed
    }

    /// Makes both generations start at the current count.
    fn reset_start_event_count(&mut self)
        ensures
            final(self).events_a.start_event_count == old(self).event_count,
            final(self).events_b.start_event_count == old(self).event_count,
            final(self).events_a.events == old(self).events_a.events,
            final(self).events_b.events == old(self).events_b.events,
            final(self).event_count == old(self).event_count,
    {
        self.events_a.start_event_count = self.event_count;
        self.events_b.start_event_count = self.event_count;
    }

    /// Removes all events. Ordinals already given are not given again.
    pub fn clear(&mut self)
        requires
            old(self).wf(),
        ensures
            final(self).wf(),
            final(self)@ == old(self)@.clear(),
    {
        self.reset_start_event_count();
        self.events_a.events.clear();
        self.events_b.events.clear();
    }

    /// Returns the number of events currently stored in the buffer.
    pub fn len(&self) -> (len: usize)
        requires
            self.wf(),
        ensures
            len == self@.len(),
    {
        self.events_a.events.len() + self.events_b.events.len()
    }

    /// Returns true if there are no events currently stored in the buffer.
    pub fn is_empty(&self) -> (empty: bool)
        requires
            self.wf(),
        ensures
            empty == (self@.len() == 0),
    {
        self.len() == 0
    }

    /// Removes all events and returns them, oldest first.
    pub fn drain(&mut self) -> (removed: Vec<E>)
        requires
            old(self).wf(),
        ensures
            final(self).wf(),
            final(self)@ == old(self)@.clear(),
            removed@ == payloads(old(self)@.retained()),
    {
        self.reset_start_event_count();
        let mut older: Vec<EventInstance<E>> = Vec::new();
        let mut newer: Vec<EventInstance<E>> = Vec::new();
        core::mem::swap(&mut older, &mut self.events_a.events);
        core::mem::swap(&mut newer, &mut self.events_b.events);
        // Drain the oldest events first, then the newest
        let mut removed: Vec<E> = Vec::new();
        take_events(older, &mut removed);
        take_events(newer, &mut removed);
        removed
    }

    /// Returns the events written since the last update, in write order.
    ///
    /// You probably want a cursor instead: events written before the last
    /// update are not included, even if no reader has seen them.
    pub fn iter_current_update_events(&self) -> (current: Vec<&E>)
        ensures
            current@ == references(self@.newer),
    {
        let mut current: Vec<&E> = Vec::new();
        let mut index: usize = 0;
        while index < self.events_b.events.len()
            invariant
                index <= self.events_b.events@.len(),
                current@ == references(self.events_b.events@.take(index as int)),
            decreases self.events_b.events@.len() - index,
        {
            current.push(&self.events_b.events[index].event);
            index += 1;
        }
        assert(self.events_b.events@.take(index as int) == self.events_b.events@);
        current
    }

    /// Gets a specific event by its ordinal, if it still exists in the
    /// buffer.
    pub fn get_event(&self, id: usize) -> (found: Option<(&E, EventId<E>)>)
        requires
            self.wf(),
        ensures
            match found {
                Some((event, event_id)) => self@.get(id as nat) == Some(
                    EventInstance { event_id, event: *event },
                ),
                None => self@.get(id as nat).is_none(),
            },
    {
        if id < self.oldest_event_count() {
            return None;
        }
        let sequence = self.sequence(id);
        let index = id - sequence.start_event_count;
        if index < sequence.events.len() {
            let instance = &sequence.events[index];
            Some((&instance.event, instance.event_id))
        } else {
            None
        }
    }

    /// Which generation the event with ordinal `id` is part of.
    fn sequence(&self, id: usize) -> (sequence: &EventSequence<E>)
        ensures
            id < self.events_b.start_event_count ==> *sequence == self.events_a,
            id >= self.events_b.start_event_count ==> *sequence == self.events_b,
    {
        if id < self.events_b.start_event_count {
            &self.events_a
        } else {
            &self.events_b
        }
    }
}

/// Moves the payloads of `records`, in order, to the end of `into`.
fn take_events<E>(records: Vec<EventInstance<E>>, into: &mut Vec<E>)
    ensures
        final(into)@ == old(into)@ + payloads(records@),
{
    let ghost items = records@;
    for instance in it: records.into_iter()
        invariant
            it.seq() == items,
            into@ == old(into)@ + payloads(items.take(it.index() as int)),
    {
        into.push(instance.event);
    }
    assert(items.take(items.len() as int) == items);
}

/// The identifiers given to the events of one batch, handed out one by one.
///
/// The identifiers are not stored: they are the ordinals from the count
/// before the batch up to the count after it.
#[derive(Debug)]
pub struct WriteBatchIds<E> {
    last_count: usize,
    event_count: usize,
    _marker: PhantomData<E>,
}

impl<E> View for WriteBatchIds<E> {
    type V = Seq<nat>;

    /// The ordinals not handed out yet, in the order in which they will be.
    closed spec fn view(&self) -> Seq<nat> {
        if self.last_count <= self.event_count {
            ordinals(self.last_count as nat, (self.event_count - self.last_count) as nat)
        } else {
            Seq::empty()
        }
    }
}

impl<E> WriteBatchIds<E> {
    /// Hands out the next identifier of the batch, or `None` when all have
    /// been handed out.
    pub fn next(&mut self) -> (event_id: Option<EventId<E>>)
        ensures
            match event_id {
                Some(event_id) => old(self)@.len() > 0 && event_id.id == old(self)@.first()
                    && event_id.caller.is_none() && final(self)@ == old(self)@.drop_first(),
                None => old(self)@.len() == 0 && final(self)@ == old(self)@,
            },
    {
        if self.last_count >= self.event_count {
            return None;
        }
        let result = Some(EventId { id: self.last_count, caller: None, _marker: PhantomData });
        self.last_count += 1;
        result
    }

    /// The number of identifiers not handed out yet.
    pub fn len(&self) -> (len: usize)
        ensures
            len == self@.len(),
    {
        self.event_count.saturating_sub(self.last_count)
    }
}

} // verus!
