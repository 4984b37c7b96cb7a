use liquid_eng::liquid_engine::{Event, EventQueue};

#[test]
fn drain_yields_pushed_events_in_order_once() {
    let mut q = EventQueue::new();
    q.push(Event::Close(1));
    q.push(Event::Close(2));
    assert_eq!(q.drain(), vec![Event::Close(1), Event::Close(2)]);
    assert_eq!(q.drain(), Vec::<Event>::new());
    assert!(q.is_empty());
}

#[test]
fn push_all_appends_after_queued_events() {
    let mut q = EventQueue::new();
    q.push(Event::Exit);
    q.push_all(&vec![Event::Close(7), Event::Close(8)]);
    assert_eq!(q.len(), 3);
    assert_eq!(q.drain(), vec![Event::Exit, Event::Close(7), Event::Close(8)]);
}

#[test]
fn drain_of_empty_queue_is_empty() {
    let mut q = EventQueue::new();
    assert!(q.drain().is_empty());
    assert_eq!(q.len(), 0);
}
