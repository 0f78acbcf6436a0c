use relm_core::EndOfStream;
use relm_core::EventStream;

#[test]
fn new_stream_is_empty_and_open() {
    let s = EventStream::<i32>::new();
    assert_eq!(s.queue_len(), 0);
    assert!(!s.is_locked());
    assert!(!s.is_terminated());
    assert_eq!(s.sender_count(), 1);
}

#[test]
fn emit_then_get_event_fifo() {
    let mut s = EventStream::new();
    s.emit(1);
    s.emit(2);
    s.emit(3);
    assert_eq!(s.queue_len(), 3);
    assert_eq!(s.get_event(), Ok(1));
    assert_eq!(s.get_event(), Ok(2));
    assert_eq!(s.get_event(), Ok(3));
    assert_eq!(s.queue_len(), 0);
}

#[test]
fn locked_stream_drops_messages() {
    let mut s = EventStream::new();
    let guard = s.lock();
    assert!(s.is_locked());
    s.emit(1);
    s.emit(2);
    s.emit(3);
    assert_eq!(s.queue_len(), 0);
    s.unlock(guard);
    assert!(!s.is_locked());
    s.emit(4);
    assert_eq!(s.queue_len(), 1);
    assert_eq!(s.get_event(), Ok(4));
}

#[test]
fn unlock_is_not_reference_counted() {
    let mut s = EventStream::new();
    let outer = s.lock();
    let inner = s.lock();
    s.unlock(inner);
    assert!(!s.is_locked());
    s.emit(5);
    assert_eq!(s.queue_len(), 1);
    s.unlock(outer);
    assert_eq!(s.get_event(), Ok(5));
}

#[test]
fn end_of_stream_after_senders_dropped() {
    let mut s = EventStream::<u8>::new();
    s.drop_sender();
    assert_eq!(s.sender_count(), 0);
    assert_eq!(s.get_event(), Err(EndOfStream));
}

#[test]
fn queued_messages_survive_sender_drop() {
    let mut s = EventStream::new();
    s.emit(7);
    s.drop_sender();
    assert_eq!(s.get_event(), Ok(7));
    assert_eq!(s.get_event(), Err(EndOfStream));
}

#[test]
fn sender_accounting() {
    let mut s = EventStream::<u8>::new();
    s.add_sender();
    assert_eq!(s.sender_count(), 2);
    s.drop_sender();
    s.drop_sender();
    assert_eq!(s.sender_count(), 0);
}

#[test]
fn close_is_cooperative() {
    let mut s = EventStream::new();
    s.close();
    assert!(s.is_terminated());
    s.emit(9);
    assert_eq!(s.queue_len(), 1);
    assert_eq!(s.get_event(), Ok(9));
}

#[test]
fn observers_notified_before_message_is_queued() {
    let mut s = EventStream::new();
    s.observe(EventStream::new());
    s.observe(EventStream::new());
    s.emit(42);
    assert_eq!(s.observer_target(0).queue_len(), 1);
    assert_eq!(s.observer_target(1).queue_len(), 1);
    assert_eq!(s.take_observed(0), Some(42));
    assert_eq!(s.take_observed(1), Some(42));
    assert_eq!(s.take_observed(0), None);
    assert_eq!(s.get_event(), Ok(42));
}

#[test]
fn every_emit_notifies_every_observer_once() {
    let mut s = EventStream::new();
    s.observe(EventStream::new());
    s.emit(1);
    s.emit(2);
    assert_eq!(s.observer_target(0).queue_len(), 2);
    assert_eq!(s.take_observed(0), Some(1));
    assert_eq!(s.take_observed(0), Some(2));
}

#[test]
fn locked_observer_target_receives_nothing() {
    let mut s = EventStream::new();
    let mut t = EventStream::new();
    let _guard = t.lock();
    s.observe(t);
    s.emit(3);
    assert_eq!(s.queue_len(), 1);
    assert_eq!(s.observer_target(0).queue_len(), 0);
    assert_eq!(s.take_observed(0), None);
}

#[test]
fn locked_stream_does_not_notify_observers() {
    let mut s = EventStream::new();
    s.observe(EventStream::new());
    let guard = s.lock();
    s.emit(8);
    assert_eq!(s.queue_len(), 0);
    assert_eq!(s.observer_target(0).queue_len(), 0);
    s.unlock(guard);
}
