//! Identifiers and stored records of events.

use core::marker::PhantomData;
use vstd::prelude::*;

verus! {

/// A place in source code, kept with an event for diagnostics only.
#[derive(Clone, Copy, Debug, PartialEq, Eq)]
pub struct Location {
    pub file: &'static str,
    pub line: u32,
    pub column: u32,
}

/// The identifier of one written event.
///
/// `id` is the event's ordinal: the number of events written to the same
/// buffer before it. `caller` optionally records where the write came from and
/// takes no part in any behaviour of the queue.
#[derive(Debug)]
pub struct EventId<E> {
    pub id: usize,
    pub caller: Option<Location>,
    pub _marker: PhantomData<E>,
}

impl<E> Clone for EventId<E> {
    fn clone(&self) -> (out: Self)
        ensures
            out == *self,
    {
        *self
    }
}

impl<E> Copy for EventId<E> {

}

impl<E> EventId<E> {
    /// Makes the identifier with ordinal `id` and provenance `caller`.
    pub fn new(id: usize, caller: Option<Location>) -> (out: Self)
        ensures
            out.id == id,
            out.caller == caller,
    {
        EventId { id, caller, _marker: PhantomData }
    }
}

/// An event as stored in a buffer: the payload together with its identifier.
#[derive(Debug)]
pub struct EventInstance<E> {
    pub event_id: EventId<E>,
    pub event: E,
}

} // verus!
