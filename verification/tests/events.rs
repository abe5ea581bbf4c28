use event_queue::{EventCursor, Events, Location};

#[derive(Clone)]
struct TestEvent;

#[derive(Debug, Default, Clone, PartialEq)]
struct Counted {
    value: usize,
}

fn payloads(events: &Events<&'static str>, cursor: &mut EventCursor<&'static str>) -> Vec<&'static str> {
    cursor.read(events).into_iter().copied().collect()
}

#[test]
fn iter_current_update_events_iterates_over_current_events() {
    let mut test_events = Events::<TestEvent>::default();

    // Starting empty
    assert_eq!(test_events.len(), 0);
    assert_eq!(test_events.iter_current_update_events().into_iter().count(), 0);
    test_events.update();

    // Writing one event
    test_events.write(TestEvent);

    assert_eq!(test_events.len(), 1);
    assert_eq!(test_events.iter_current_update_events().into_iter().count(), 1);
    test_events.update();

    // Writing two events on the next frame
    test_events.write(TestEvent);
    test_events.write(TestEvent);

    assert_eq!(test_events.len(), 3); // Events are double-buffered, so we see 1 + 2 = 3
    assert_eq!(test_events.iter_current_update_events().into_iter().count(), 2);
    test_events.update();

    // Writing zero events
    assert_eq!(test_events.len(), 2); // Events are double-buffered, so we see 2 + 0 = 2
    assert_eq!(test_events.iter_current_update_events().into_iter().count(), 0);
}

#[test]
fn default_buffer_is_empty() {
    let events = Events::<u32>::default();
    assert_eq!(events.len(), 0);
    assert!(events.is_empty());
    assert_eq!(events.event_count(), 0);
    assert_eq!(events.oldest_event_count(), 0);
    assert!(events.get_event(0).is_none());
}

#[test]
fn write_assigns_consecutive_ordinals() {
    let mut events = Events::<u32>::default();
    for expected in 0..5usize {
        let id = events.write(expected as u32 * 10);
        assert_eq!(id.id, expected);
        assert!(id.caller.is_none());
    }
    assert_eq!(events.event_count(), 5);
}

#[test]
fn ordinals_continue_across_rotations() {
    let mut events = Events::<u32>::default();
    assert_eq!(events.write(1).id, 0);
    events.update();
    assert_eq!(events.write(2).id, 1);
    events.update();
    events.update();
    assert_eq!(events.write(3).id, 2);
    assert_eq!(events.event_count(), 3);
}

#[test]
fn write_batch_assigns_same_ordinals_as_single_writes() {
    let mut single = Events::<u32>::default();
    let mut batched = Events::<u32>::default();
    single.write(100);
    batched.write(100);

    let mut single_ids = Vec::new();
    for value in [7u32, 8, 9] {
        single_ids.push(single.write(value).id);
    }

    let mut ticket = batched.write_batch(vec![7u32, 8, 9]);
    assert_eq!(ticket.len(), 3);
    let mut batch_ids = Vec::new();
    while let Some(id) = ticket.next() {
        batch_ids.push(id.id);
    }

    assert_eq!(single_ids, vec![1, 2, 3]);
    assert_eq!(batch_ids, vec![1, 2, 3]);
    assert_eq!(single.event_count(), 4);
    assert_eq!(batched.event_count(), 4);

    let from_single: Vec<u32> = single.get_cursor().read(&single).into_iter().copied().collect();
    let from_batch: Vec<u32> = batched.get_cursor().read(&batched).into_iter().copied().collect();
    assert_eq!(from_single, vec![100, 7, 8, 9]);
    assert_eq!(from_batch, vec![100, 7, 8, 9]);
    for id in 0..4usize {
        let a = single.get_event(id).map(|(event, event_id)| (*event, event_id.id));
        let b = batched.get_event(id).map(|(event, event_id)| (*event, event_id.id));
        assert_eq!(a, b);
    }
}

#[test]
fn write_batch_of_nothing_changes_nothing() {
    let mut events = Events::<u32>::default();
    events.write(1);
    let mut ticket = events.write_batch(Vec::new());
    assert_eq!(ticket.len(), 0);
    assert!(ticket.next().is_none());
    assert_eq!(events.len(), 1);
    assert_eq!(events.event_count(), 1);
}

#[test]
fn batch_ticket_counts_down() {
    let mut events = Events::<u32>::default();
    events.write(0);
    events.write(0);
    let mut ticket = events.write_batch(vec![1, 2, 3]);
    assert_eq!(ticket.len(), 3);
    assert_eq!(ticket.next().map(|id| id.id), Some(2));
    assert_eq!(ticket.len(), 2);
    assert_eq!(ticket.next().map(|id| id.id), Some(3));
    assert_eq!(ticket.len(), 1);
    assert_eq!(ticket.next().map(|id| id.id), Some(4));
    assert_eq!(ticket.len(), 0);
    assert!(ticket.next().is_none());
    assert!(ticket.next().is_none());
    assert_eq!(ticket.len(), 0);
}

#[test]
fn extend_appends_in_order() {
    let mut events = Events::<u32>::default();
    events.write(1);
    events.update();
    events.extend(vec![2, 3, 4]);
    assert_eq!(events.len(), 4);
    assert_eq!(events.event_count(), 4);
    let current: Vec<u32> = events.iter_current_update_events().into_iter().copied().collect();
    assert_eq!(current, vec![2, 3, 4]);
    assert_eq!(events.get_event(3).map(|(event, id)| (*event, id.id)), Some((4, 3)));
}

#[test]
fn write_default_writes_the_default_value() {
    let mut events = Events::<Counted>::default();
    events.write(Counted { value: 9 });
    let id = events.write_default();
    assert_eq!(id.id, 1);
    let found = events.get_event(1).map(|(event, id)| (event.clone(), id.id));
    assert_eq!(found, Some((Counted { value: 0 }, 1)));
}

#[test]
fn write_with_caller_records_the_location() {
    let mut events = Events::<u32>::default();
    let here = Location { file: "somewhere.rs", line: 12, column: 5 };
    let plain = events.write(1);
    let located = events.write_with_caller(2, Some(here));
    assert_eq!(plain.id, 0);
    assert_eq!(plain.caller, None);
    assert_eq!(located.id, 1);
    assert_eq!(located.caller, Some(here));
    let (event, id) = events.get_event(1).unwrap();
    assert_eq!(*event, 2);
    assert_eq!(id.id, 1);
    assert_eq!(id.caller, Some(here));
    let (_, first) = events.get_event(0).unwrap();
    assert_eq!(first.caller, None);
}

#[test]
fn len_counts_writes_without_rotation() {
    let mut events = Events::<u32>::default();
    for n in 0..20usize {
        assert_eq!(events.len(), n);
        assert_eq!(events.is_empty(), n == 0);
        events.write(n as u32);
    }
    assert_eq!(events.len(), 20);
    events.write_batch(vec![1, 2, 3, 4, 5]);
    assert_eq!(events.len(), 25);
}

#[test]
fn is_empty_iff_len_is_zero() {
    let mut events = Events::<u32>::default();
    assert_eq!(events.is_empty(), events.len() == 0);
    events.write(1);
    assert_eq!(events.is_empty(), events.len() == 0);
    assert!(!events.is_empty());
    events.update();
    assert_eq!(events.is_empty(), events.len() == 0);
    assert!(!events.is_empty());
    events.update();
    assert_eq!(events.is_empty(), events.len() == 0);
    assert!(events.is_empty());
}

#[test]
fn update_drops_the_older_generation() {
    let mut events = Events::<u32>::default();
    events.write(1);
    events.write(2);
    events.update();
    events.write(3);
    assert_eq!(events.len(), 3);
    assert_eq!(events.oldest_event_count(), 0);
    events.update();
    assert_eq!(events.len(), 1);
    assert_eq!(events.oldest_event_count(), 2);
    assert_eq!(events.iter_current_update_events().len(), 0);
    events.update();
    assert_eq!(events.len(), 0);
    assert_eq!(events.oldest_event_count(), 3);
    assert_eq!(events.event_count(), 3);
}

#[test]
fn update_drain_returns_the_dropped_events() {
    let mut events = Events::<&'static str>::default();
    events.write("a");
    events.write("b");
    assert_eq!(events.update_drain(), Vec::<&str>::new());
    events.write("c");
    assert_eq!(events.update_drain(), vec!["a", "b"]);
    assert_eq!(events.len(), 1);
    assert_eq!(events.oldest_event_count(), 2);
    assert_eq!(events.update_drain(), vec!["c"]);
    assert_eq!(events.update_drain(), Vec::<&str>::new());
    assert!(events.is_empty());
    assert_eq!(events.oldest_event_count(), 3);
    assert_eq!(events.write("d").id, 3);
}

#[test]
fn update_and_update_drain_rotate_alike() {
    let mut plain = Events::<u32>::default();
    let mut drained = Events::<u32>::default();
    for round in 0..4u32 {
        plain.write_batch(vec![round, round + 10]);
        drained.write_batch(vec![round, round + 10]);
        plain.update();
        let _ = drained.update_drain();
        assert_eq!(plain.len(), drained.len());
        assert_eq!(plain.oldest_event_count(), drained.oldest_event_count());
        assert_eq!(plain.event_count(), drained.event_count());
    }
}

#[test]
fn drain_returns_oldest_first_then_newest() {
    let mut events = Events::<&'static str>::default();
    events.write("a");
    events.write("b");
    events.update();
    events.write("c");
    assert_eq!(events.drain(), vec!["a", "b", "c"]);
    assert!(events.is_empty());
    assert_eq!(events.oldest_event_count(), 3);
    assert_eq!(events.event_count(), 3);
    assert_eq!(events.drain(), Vec::<&str>::new());
    assert_eq!(events.write("d").id, 3);
    let mut cursor = events.get_cursor();
    assert_eq!(payloads(&events, &mut cursor), vec!["d"]);
}

#[test]
fn clear_does_not_reuse_ordinals() {
    let mut events = Events::<u32>::default();
    let mut issued = Vec::new();
    issued.push(events.write(1).id);
    events.update();
    issued.push(events.write(2).id);
    issued.push(events.write(3).id);
    events.clear();
    assert!(events.is_empty());
    assert_eq!(events.len(), 0);
    assert_eq!(events.oldest_event_count(), 3);
    let after = events.write(4).id;
    assert_eq!(after, 3);
    for id in issued {
        assert!(after > id);
    }
    assert!(events.get_event(2).is_none());
    assert_eq!(events.get_event(3).map(|(event, id)| (*event, id.id)), Some((4, 3)));
}

#[test]
fn clear_on_empty_buffer_keeps_the_count() {
    let mut events = Events::<u32>::default();
    events.clear();
    assert_eq!(events.event_count(), 0);
    assert_eq!(events.write(1).id, 0);
}

#[test]
fn get_event_finds_exactly_the_retained_range() {
    let mut events = Events::<u32>::default();
    events.write_batch(vec![10, 11]);
    events.update();
    events.write_batch(vec![12, 13, 14]);
    events.update();
    events.write_batch(vec![15]);
    // ordinals 0 and 1 are gone, 2..=4 are older, 5 is newer
    assert_eq!(events.oldest_event_count(), 2);
    assert_eq!(events.event_count(), 6);
    for id in 0..2usize {
        assert!(events.get_event(id).is_none());
    }
    for id in 2..6usize {
        let (event, event_id) = events.get_event(id).unwrap();
        assert_eq!(*event, 10 + id as u32);
        assert_eq!(event_id.id, id);
    }
    assert!(events.get_event(6).is_none());
    assert!(events.get_event(7).is_none());
    assert!(events.get_event(usize::MAX).is_none());
}

#[test]
fn get_event_with_empty_older_generation() {
    let mut events = Events::<u32>::default();
    events.write(5);
    assert_eq!(events.get_event(0).map(|(event, id)| (*event, id.id)), Some((5, 0)));
    assert!(events.get_event(1).is_none());
}

#[test]
fn iter_current_update_events_keeps_write_order() {
    let mut events = Events::<&'static str>::default();
    events.write("old");
    events.update();
    events.write("x");
    events.write("y");
    let current: Vec<&str> = events.iter_current_update_events().into_iter().copied().collect();
    assert_eq!(current, vec!["x", "y"]);
}

#[test]
fn scenario_write_rotate_write_read() {
    let mut events = Events::<&'static str>::default();
    assert_eq!(events.write("a").id, 0);
    events.update();
    assert_eq!(events.write("b").id, 1);
    assert_eq!(events.write("c").id, 2);
    assert_eq!(events.len(), 3);
    let mut cursor = events.get_cursor();
    assert_eq!(payloads(&events, &mut cursor), vec!["a", "b", "c"]);
    assert_eq!(payloads(&events, &mut cursor), Vec::<&str>::new());
}
