//! Laws of the event buffer, proved of its model.
//!
//! Each law is stated over the operations of [`EventsView`], in whose terms
//! the executable buffer and cursor state their own contracts.

use crate::id::{EventInstance, Location};
use crate::model::{batch, ordinals, payloads, record, EventsView};
use vstd::prelude::*;

verus! {

impl<E> EventsView<E> {
    /// The state after writing the events of `events` one by one.
    pub open spec fn write_each(self, events: Seq<E>, caller: Option<Location>) -> Self
        decreases events.len(),
    {
        if events.len() == 0 {
            self
        } else {
            self.write_each(events.drop_last(), caller).write(events.last(), caller)
        }
    }

    /// The ordinals of the records of the newer generation from index
    /// `from` on.
    pub open spec fn newer_ordinals(self, from: nat) -> Seq<nat> {
        Seq::new(
            (self.newer.len() - from) as nat,
            |i: int| self.newer[from + i].event_id.id as nat,
        )
    }
}

/// The empty buffer is well formed.
pub proof fn lemma_empty_wf<E>()
    ensures
        EventsView::<E>::empty().wf(),
        EventsView::<E>::empty().next() == 0,
        EventsView::<E>::empty().len() == 0,
{
}

/// A write keeps the buffer well formed, as long as the ordinal fits.
pub proof fn lemma_write_wf<E>(v: EventsView<E>, event: E, caller: Option<Location>)
    requires
        v.wf(),
        v.next() < usize::MAX,
    ensures
        v.write(event, caller).wf(),
{
}

/// A batch keeps the buffer well formed, as long as the ordinals fit.
pub proof fn lemma_write_batch_wf<E>(v: EventsView<E>, events: Seq<E>, caller: Option<Location>)
    requires
        v.wf(),
        v.next() + events.len() <= usize::MAX,
    ensures
        v.write_batch(events, caller).wf(),
{
}

/// A rotation keeps the buffer well formed.
pub proof fn lemma_rotate_wf<E>(v: EventsView<E>)
    requires
        v.wf(),
    ensures
        v.rotate().wf(),
{
}

/// Clearing keeps the buffer well formed.
pub proof fn lemma_clear_wf<E>(v: EventsView<E>)
    requires
        v.wf(),
    ensures
        v.clear().wf(),
{
}

/// Writing a batch is writing its events one by one: both leave the same
/// buffer behind.
pub proof fn lemma_batch_is_repeated_write<E>(
    v: EventsView<E>,
    events: Seq<E>,
    caller: Option<Location>,
)
    ensures
        v.write_batch(events, caller) == v.write_each(events, caller),
    decreases events.len(),
{
    if events.len() == 0 {
        assert(v.newer + batch(v.next(), caller, events) == v.newer);
    } else {
        let front = events.drop_last();
        lemma_batch_is_repeated_write(v, front, caller);
        let before = v.write_batch(front, caller);
        assert(before.next() == v.next() + front.len());
        assert(before.newer.push(record(before.next(), caller, events.last())) == v.newer + batch(
            v.next(),
            caller,
            events,
        ));
    }
}

/// The events of a batch get the ordinals `k, k + 1, ..., k + n - 1`, where
/// `k` is the count of events written before and `n` the size of the batch;
/// the count is `k + n` afterwards. The same holds of the same events
/// written one by one.
pub proof fn lemma_written_ordinals<E>(v: EventsView<E>, events: Seq<E>, caller: Option<Location>)
    requires
        v.wf(),
        v.next() + events.len() <= usize::MAX,
    ensures
        v.write_batch(events, caller).newer_ordinals(v.newer.len()) == ordinals(
            v.next(),
            events.len(),
        ),
        v.write_batch(events, caller).next() == v.next() + events.len(),
        v.write_each(events, caller).newer_ordinals(v.newer.len()) == ordinals(
            v.next(),
            events.len(),
        ),
        v.write_each(events, caller).next() == v.next() + events.len(),
{
    lemma_batch_is_repeated_write(v, events, caller);
    let after = v.write_batch(events, caller);
    assert(after.newer_ordinals(v.newer.len()) =~= ordinals(v.next(), events.len()));
}

/// Writes add to the length what they write: after `n` events written to
/// the empty buffer with no rotation, the length is `n`.
pub proof fn lemma_len_after_writes<E>(v: EventsView<E>, events: Seq<E>, caller: Option<Location>)
    ensures
        v.write_batch(events, caller).len() == v.len() + events.len(),
        v.write_each(events, caller).len() == v.len() + events.len(),
        EventsView::<E>::empty().write_each(events, caller).len() == events.len(),
{
    lemma_batch_is_repeated_write(v, events, caller);
    lemma_batch_is_repeated_write(EventsView::<E>::empty(), events, caller);
}

/// A reader that has seen nothing reads every retained event, once and in
/// order; with no rotation since the buffer was empty, these are all the
/// events ever written. A reader that is at the end reads nothing.
pub proof fn lemma_catch_up_reads_all<E>(v: EventsView<E>, events: Seq<E>, caller: Option<Location>)
    requires
        v.wf(),
    ensures
        v.unread(0) == v.retained(),
        payloads(EventsView::<E>::empty().write_each(events, caller).unread(0)) == events,
        v.unread(v.next()) == Seq::<EventInstance<E>>::empty(),
{
    let e = EventsView::<E>::empty();
    lemma_batch_is_repeated_write(e, events, caller);
    let w = e.write_batch(events, caller);
    assert(w.unread(0) =~= w.retained());
    assert(payloads(w.retained()) =~= events);
    assert(v.unread(0) =~= v.retained());
    assert(v.unread(v.next()) =~= Seq::<EventInstance<E>>::empty());
}

/// Two rotations drop everything written before the first of them: the
/// oldest ordinal retained afterwards is the count at the first rotation,
/// and a reader that has not read since then reads exactly what was written
/// after it.
pub proof fn lemma_two_rotations_drop<E>(
    v: EventsView<E>,
    between: Seq<E>,
    after: Seq<E>,
    caller: Option<Location>,
    position: nat,
)
    requires
        v.wf(),
        v.next() + between.len() + after.len() <= usize::MAX,
        position <= v.next(),
    ensures
        ({
            let last = v.rotate().write_batch(between, caller).rotate().write_batch(after, caller);
            &&& last.wf()
            &&& last.start == v.next()
            &&& forall|id: nat| id < v.next() ==> last.get(id).is_none()
            &&& payloads(last.unread(position)) == between + after
        }),
{
    let last = v.rotate().write_batch(between, caller).rotate().write_batch(after, caller);
    assert(last.retained().skip(0) =~= last.retained());
    assert(payloads(last.retained()) =~= between + after);
}

/// A reader that reads once per rotation misses nothing: after a read,
/// whatever is written before and after one rotation is read in full, and
/// in order, by the next read.
pub proof fn lemma_one_rotation_keeps<E>(
    v: EventsView<E>,
    before: Seq<E>,
    after: Seq<E>,
    caller: Option<Location>,
)
    requires
        v.wf(),
        v.next() + before.len() + after.len() <= usize::MAX,
    ensures
        ({
            let last = v.write_batch(before, caller).rotate().write_batch(after, caller);
            &&& last.wf()
            &&& payloads(last.unread(v.next())) == before + after
        }),
{
    let last = v.write_batch(before, caller).rotate().write_batch(after, caller);
    assert(payloads(last.unread(v.next())) =~= before + after);
}

/// What a reader reads are the retained events with an ordinal of at least
/// its position, each once and in ascending order of ordinals. A reader that
/// is not behind the oldest retained event has therefore missed nothing.
pub proof fn lemma_unread_from_position<E>(v: EventsView<E>, position: nat)
    requires
        v.wf(),
    ensures
        position <= v.start ==> v.resume(position) == v.start,
        v.start <= position <= v.next() ==> v.resume(position) == position,
        v.unread(position).len() == v.next() - v.resume(position),
        forall|i: int|
            0 <= i < v.next() - v.resume(position) ==> (#[trigger] v.unread(position)[i])
                == v.retained()[v.resume(position) - v.start + i] && v.unread(
                position,
            )[i].event_id.id == v.resume(position) + i,
{
}

/// A lookup finds an event exactly when its ordinal lies from the oldest
/// retained ordinal up to, and excluding, the count of events written; what
/// it finds is the record that was given that ordinal.
pub proof fn lemma_get_by_ordinal<E>(v: EventsView<E>, id: nat)
    requires
        v.wf(),
    ensures
        v.get(id).is_some() <==> v.start <= id < v.next(),
        v.get(id) matches Some(found) ==> found.event_id.id == id,
        v.start <= id < v.boundary() ==> v.get(id) == Some(v.older[id - v.start]),
        v.boundary() <= id < v.next() ==> v.get(id) == Some(v.newer[id - v.boundary()]),
{
}

/// Clearing gives no ordinal back: the first write after it gets the count
/// of events written before, which is greater than every ordinal given
/// until then.
pub proof fn lemma_clear_keeps_count<E>(v: EventsView<E>, event: E, caller: Option<Location>)
    requires
        v.wf(),
        v.next() < usize::MAX,
    ensures
        v.clear().next() == v.next(),
        v.clear().len() == 0,
        v.clear().write(event, caller).newer.last().event_id.id == v.next(),
        forall|i: int|
            0 <= i < v.retained().len() ==> (#[trigger] v.retained()[i]).event_id.id < v.clear().write(
                event,
                caller,
            ).newer.last().event_id.id,
{
}

} // verus!
