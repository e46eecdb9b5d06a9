use chrono::{DateTime, Utc};
use screen_observer::{EventType, ObservationEvent, WindowContext};

fn sample_window() -> WindowContext {
    WindowContext {
        app_bundle_id: Some("com.apple.Safari".to_string()),
        app_name: "Safari".to_string(),
        window_title: Some("Inbox - Gmail".to_string()),
        browser_url: Some("https://mail.google.com".to_string()),
    }
}

fn sample_event() -> ObservationEvent {
    ObservationEvent::new(
        EventType::TextChange,
        sample_window(),
        "Dear Manager, I hope this email finds you well...".to_string(),
        0.95f64.to_bits(),
    )
}

#[test]
fn event_has_unique_id() {
    let a = sample_event();
    let b = sample_event();
    assert_ne!(a.id, b.id);
}

#[test]
fn event_has_timestamp() {
    let event = sample_event();
    let now = Utc::now();
    let stamp = DateTime::from_timestamp(event.timestamp.secs, event.timestamp.nanos).unwrap();
    let diff = now - stamp;
    assert!(diff.num_seconds() < 1);
}

#[test]
fn window_context_optional_fields() {
    let window = WindowContext {
        app_bundle_id: None,
        app_name: "Unknown".to_string(),
        window_title: None,
        browser_url: None,
    };
    let event = ObservationEvent::new(EventType::Idle, window, String::new(), 0.0f64.to_bits());
    assert!(event.window.app_bundle_id.is_none());
    assert!(event.window.window_title.is_none());
}

#[test]
fn new_event_keeps_what_it_is_given() {
    let event = sample_event();
    assert_eq!(event.event_type, EventType::TextChange);
    assert_eq!(event.window, sample_window());
    assert_eq!(event.ocr_text, "Dear Manager, I hope this email finds you well...");
    assert_eq!(f64::from_bits(event.ocr_confidence), 0.95);
    assert!(event.is_focused);
}

#[test]
fn cloned_event_is_equal_in_every_field() {
    let event = sample_event();
    let copy = event.clone();
    assert_eq!(copy.id, event.id);
    assert_eq!(copy.timestamp, event.timestamp);
    assert_eq!(copy.window, event.window);
    assert_eq!(copy.ocr_text, event.ocr_text);
    assert_eq!(copy.ocr_confidence, event.ocr_confidence);
}

#[test]
fn new_event_truncates_text_to_500_chars() {
    let event = ObservationEvent::new(
        EventType::TextChange,
        sample_window(),
        "x".repeat(1000),
        0.5f64.to_bits(),
    );
    assert_eq!(event.ocr_text, "x".repeat(500));
    let short = ObservationEvent::new(EventType::Click, sample_window(), "ab".to_string(), 0);
    assert_eq!(short.ocr_text, "ab");
}
