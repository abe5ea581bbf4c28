//! Per-reader positions in an event buffer.

use crate::collections::{EventSequence, Events};
use crate::id::EventId;
use crate::model::{identified, references};
use core::marker::PhantomData;
use vstd::prelude::*;

verus! {

/// The position of one reader: the ordinal of the first event it has not
/// seen.
///
/// A cursor holds no reference to a buffer. It is compared with whichever
/// buffer is passed to a read, so any number of cursors can follow the same
/// buffer without affecting it or each other. Any position is valid: a
/// cursor that has fallen behind the buffer's retained events simply sees
/// fewer of them.
#[derive(Debug)]
pub struct EventCursor<E> {
    pub(crate) last_event_count: usize,
    pub(crate) _marker: PhantomData<E>,
}

impl<E> View for EventCursor<E> {
    type V = nat;

    /// The ordinal of the first event this cursor has not seen.
    closed spec fn view(&self) -> nat {
        self.last_event_count as nat
    }
}

impl<E> Default for EventCursor<E> {
    /// The cursor that has seen nothing.
    fn default() -> (cursor: Self)
        ensures
            cursor@ == 0,
    {
        EventCursor { last_event_count: 0, _marker: PhantomData }
    }
}

impl<E> Clone for EventCursor<E> {
    fn clone(&self) -> (cursor: Self)
        ensures
            cursor@ == self@,
    {
        EventCursor { last_event_count: self.last_event_count, _marker: PhantomData }
    }
}

/// Appends to `unread` the payload and identifier of each record of
/// `sequence` from index `from` on; nothing if there is no such index.
fn push_tail<'a, E>(
    sequence: &'a EventSequence<E>,
    from: usize,
    unread: &mut Vec<(&'a E, EventId<E>)>,
)
    ensures
        from <= sequence.events@.len() ==> final(unread)@ == old(unread)@ + identified(
            sequence.events@.skip(from as int),
        ),
        from > sequence.events@.len() ==> final(unread)@ == old(unread)@,
{
    if from > sequence.events.len() {
        return;
    }
    let mut index: usize = from;
    while index < sequence.events.len()
        invariant
            from <= index <= sequence.events@.len(),
            unread@ == old(unread)@ + identified(sequence.events@.subrange(from as int, index as int)),
        decreases sequence.events@.len() - index,
    {
        let instance = &sequence.events[index];
        unread.push((&instance.event, instance.event_id));
        index += 1;
    }
    assert(from <= sequence.events@.len() ==> sequence.events@.subrange(from as int, index as int)
        == sequence.events@.skip(from as int));
}

impl<E> EventCursor<E> {
    /// The cursor whose first unseen event is the one with ordinal
    /// `position`.
    pub(crate) fn at(position: usize) -> (cursor: Self)
        ensures
            cursor@ == position,
    {
        EventCursor { last_event_count: position, _marker: PhantomData }
    }

    /// Reads the events this cursor has not seen, each with its identifier,
    /// oldest first, and moves the cursor past them. Events that left the
    /// buffer before the cursor reached them are skipped without notice.
    pub fn read_with_id<'a>(&mut self, events: &'a Events<E>) -> (unread: Vec<(&'a E, EventId<E>)>)
        requires
            events.wf(),
        ensures
            unread@ == identified(events@.unread(old(self)@)),
            final(self)@ == events@.next(),
    {
        proof {
            events.lemma_fields();
            events.lemma_wf_view();
        }
        let a_index = self.last_event_count.saturating_sub(events.events_a.start_event_count);
        let b_index = self.last_event_count.saturating_sub(events.events_b.start_event_count);
        let mut unread: Vec<(&'a E, EventId<E>)> = Vec::new();
        // The oldest first, then the newer events
        push_tail(&events.events_a, a_index, &mut unread);
        push_tail(&events.events_b, b_index, &mut unread);
        self.last_event_count = events.event_count;
        unread
    }

    /// Reads the events this cursor has not seen, oldest first, and moves
    /// the cursor past them. Reading again without a write in between yields
    /// nothing.
    pub fn read<'a>(&mut self, events: &'a Events<E>) -> (unread: Vec<&'a E>)
        requires
            events.wf(),
        ensures
            unread@ == references(events@.unread(old(self)@)),
            final(self)@ == events@.next(),
    {
        let pairs = self.read_with_id(events);
        let mut unread: Vec<&'a E> = Vec::new();
        let mut index: usize = 0;
        while index < pairs.len()
            invariant
                index <= pairs@.len(),
                unread@.len() == index,
                forall|i: int| 0 <= i < index ==> (#[trigger] unread@[i]) == pairs@[i].0,
            decreases pairs@.len() - index,
        {
            unread.push(pairs[index].0);
            index += 1;
        }
        unread
    }

    /// The number of events that a read would yield now.
    pub fn len(&self, events: &Events<E>) -> (len: usize)
        requires
            events.wf(),
        ensures
            len == events@.unread(self@).len(),
    {
        proof {
            events.lemma_fields();
            events.lemma_wf_view();
        }
        // The difference between the newest event and the last one seen,
        // but no more than the buffer holds: the others are gone.
        let behind = events.event_count.saturating_sub(self.last_event_count);
        let held = events.len();
        if behind < held {
            behind
        } else {
            held
        }
    }

    /// The number of events this cursor will never see: those written after
    /// its last read that have already left the buffer.
    pub fn missed_events(&self, events: &Events<E>) -> (missed: usize)
        ensures
            missed == if self@ < events@.start {
                events@.start - self@
            } else {
                0
            },
    {
        proof {
            events.lemma_fields();
        }
        events.oldest_event_count().saturating_sub(self.last_event_count)
    }

    /// Whether a read would yield nothing now.
    pub fn is_empty(&self, events: &Events<E>) -> (empty: bool)
        requires
            events.wf(),
        ensures
            empty == (events@.unread(self@).len() == 0),
    {
        self.len(events) == 0
    }

    /// Moves the cursor past every event written so far, reading none.
    pub fn clear(&mut self, events: &Events<E>)
        requires
            events.wf(),
        ensures
            final(self)@ == events@.next(),
    {
        proof {
            events.lemma_fields();
        }
        self.last_event_count = events.event_count;
    }
}

} // verus!
