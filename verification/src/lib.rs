//! A double-buffered event queue with per-reader cursors.
//!
//! Writers append events to an [`Events`] buffer; every event receives a
//! globally unique, strictly increasing ordinal. The buffer keeps two
//! generations of events and rotates them on [`Events::update`]. Each reader
//! owns an [`EventCursor`] that remembers how far it has read.

pub mod collections;
pub mod cursor;
pub mod id;
pub mod laws;
pub mod model;

pub use collections::{Events, WriteBatchIds};
pub use cursor::EventCursor;
pub use id::{EventId, EventInstance, Location};
pub use model::EventsView;
