use fast_down_c::event::{CEvent, Event, EventType, ProgressRange};

fn msg(e: &CEvent) -> Option<Vec<u8>> {
    e.message.as_ref().map(|m| m.content().to_vec())
}

#[test]
fn prefetch_error_event_carries_message() {
    let e = CEvent::from_event(&Event::PrefetchError(b"timeout".to_vec()));
    assert_eq!(e.event_type, EventType::PrefetchError);
    assert_eq!(e.id, 0);
    assert_eq!(msg(&e), Some(b"timeout".to_vec()));
    assert_eq!((e.range_start, e.range_end), (0, 0));
}

#[test]
fn progress_events_carry_range() {
    let r = ProgressRange { start: 10, end: 20 };
    for (ev, ty) in [
        (Event::PullProgress(3, r), EventType::PullProgress),
        (Event::Pushing(3, r), EventType::Pushing),
        (Event::PushProgress(3, r), EventType::PushProgress),
    ] {
        let e = CEvent::from_event(&ev);
        assert_eq!(e.event_type, ty);
        assert_eq!(e.id, 3);
        assert_eq!(msg(&e), None);
        assert_eq!((e.range_start, e.range_end), (10, 20));
    }
}

#[test]
fn push_error_carries_range_and_message() {
    let r = ProgressRange { start: 5, end: 9 };
    let e = CEvent::from_event(&Event::PushError(2, r, b"disk full".to_vec()));
    assert_eq!(e.event_type, EventType::PushError);
    assert_eq!(e.id, 2);
    assert_eq!(msg(&e), Some(b"disk full".to_vec()));
    assert_eq!((e.range_start, e.range_end), (5, 9));
}

#[test]
fn plain_events_have_no_message() {
    for (ev, ty, id) in [
        (Event::Pulling(4), EventType::Pulling, 4),
        (Event::PullTimeout(5), EventType::PullTimeout, 5),
        (Event::Flushing, EventType::Flushing, 0),
        (Event::Finished(6), EventType::Finished, 6),
    ] {
        let e = CEvent::from_event(&ev);
        assert_eq!(e.event_type, ty);
        assert_eq!(e.id, id);
        assert_eq!(msg(&e), None);
        assert_eq!((e.range_start, e.range_end), (0, 0));
    }
}

#[test]
fn error_messages_with_nul_become_empty() {
    let e = CEvent::from_event(&Event::PullError(1, b"bad\0text".to_vec()));
    assert_eq!(e.event_type, EventType::PullError);
    assert_eq!(msg(&e), Some(Vec::new()));
    let f = CEvent::from_event(&Event::FlushError(b"sync failed".to_vec()));
    assert_eq!(f.event_type, EventType::FlushError);
    assert_eq!(f.id, 0);
    assert_eq!(msg(&f), Some(b"sync failed".to_vec()));
}
