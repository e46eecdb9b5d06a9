use std::time::Duration;

use screen_observer::backends::StartOutcome;
use screen_observer::{EventType, MockObserver, ObservationEvent};

/// Drive one run of the mock to its end, as the waiting loop does.
fn drain(observer: &mut MockObserver) -> Vec<ObservationEvent> {
    let mut received = Vec::new();
    while observer.has_pending() {
        if let Some(event) = observer.next_event() {
            received.push(event);
        }
    }
    received
}

#[test]
fn mock_emits_events() {
    let events = vec![
        MockObserver::sample_event("Safari", "Hello world"),
        MockObserver::sample_event("Chrome", "Goodbye world"),
        MockObserver::sample_event("Slack", "Meeting at 3pm"),
    ];
    let mut observer = MockObserver::with_events(events, Duration::from_millis(10));
    observer.start();

    let received = drain(&mut observer);

    assert_eq!(received.len(), 3);
    assert_eq!(received[0].window.app_name, "Safari");
    assert_eq!(received[1].window.app_name, "Chrome");
    assert_eq!(received[2].window.app_name, "Slack");

    observer.stop();
}

#[test]
fn mock_stop_prevents_further_events() {
    let events = vec![
        MockObserver::sample_event("App1", "text1"),
        MockObserver::sample_event("App2", "text2"),
    ];
    let mut observer = MockObserver::with_events(events, Duration::from_millis(50));
    observer.start();
    assert!(observer.is_running());

    // Receive first event.
    let first = observer.next_event();
    assert!(first.is_some());

    observer.stop();
    assert!(!observer.is_running());

    // After stop, no more events should arrive.
    assert!(!observer.has_pending(), "should have nothing pending after stop");
    assert!(observer.next_event().is_none(), "no events after stop");
}

#[test]
fn silent_mock_emits_nothing() {
    let mut observer = MockObserver::silent();
    observer.start();
    assert!(!observer.has_pending());
    assert!(observer.next_event().is_none(), "silent mock should emit nothing");
    observer.stop();
}

#[test]
fn mock_start_is_idempotent() {
    let mut observer = MockObserver::silent();
    assert_eq!(observer.start(), StartOutcome::Started);
    assert_eq!(observer.start(), StartOutcome::AlreadyRunning);
    assert!(observer.is_running());
    observer.stop();
}

#[test]
fn silent_mock_waits_one_second() {
    assert_eq!(MockObserver::silent().interval(), Duration::from_secs(1));
}

#[test]
fn restart_begins_a_new_run_at_the_first_event() {
    let events = vec![
        MockObserver::sample_event("First", "a"),
        MockObserver::sample_event("Second", "b"),
    ];
    let mut observer = MockObserver::with_events(events, Duration::from_millis(5));
    observer.start();
    assert_eq!(observer.next_event().unwrap().window.app_name, "First");
    // Starting again while running changes nothing.
    observer.start();
    assert_eq!(observer.next_event().unwrap().window.app_name, "Second");
    assert!(observer.next_event().is_none());
    observer.stop();
    observer.start();
    assert_eq!(observer.next_event().unwrap().window.app_name, "First");
}

#[test]
fn a_run_emits_each_event_once() {
    let events = vec![MockObserver::sample_event("Safari", "Hello")];
    let mut observer = MockObserver::with_events(events, Duration::from_millis(10));
    observer.start();
    let received = drain(&mut observer);
    assert_eq!(received.len(), 1);
    assert!(observer.next_event().is_none());
    assert!(observer.is_running());
}

#[test]
fn sample_event_is_a_focused_text_change() {
    let event = MockObserver::sample_event("Notes", "groceries");
    assert_eq!(event.event_type, EventType::TextChange);
    assert_eq!(event.window.app_name, "Notes");
    assert!(event.window.app_bundle_id.is_none());
    assert!(event.window.window_title.is_none());
    assert!(event.window.browser_url.is_none());
    assert_eq!(event.ocr_text, "groceries");
    assert_eq!(f64::from_bits(event.ocr_confidence), 0.9);
    assert!(event.is_focused);
}
