use screen_observer::backends::native::frame_diff::{downscaled_size, ChangeDetector};
use screen_observer::backends::native::ocr::{add_line, OcrResult};
use screen_observer::backends::native::permissions::PermissionStatus;
use screen_observer::backends::native::window_info::{
    select_focused_window, WindowBounds, WindowInfo, WindowRecord,
};
use screen_observer::backends::native::{
    window_changed, window_event, worth_reading, FocusTracker, LoopAction, LoopInput,
    LoopPhase, NativeLifecycle, NativeLoop, PermissionQuery, StartStep,
};
use screen_observer::backends::StartOutcome;
use screen_observer::{EventType, WindowContext};

const SEC: u128 = 1_000_000_000;

fn info(app: &str, title: Option<&str>) -> WindowInfo {
    WindowInfo {
        app_name: app.to_string(),
        window_title: title.map(str::to_string),
        owner_pid: 1,
        is_on_screen: true,
    }
}

fn record(layer: Option<i64>, owner: Option<&str>, size: Option<(i64, i64)>) -> WindowRecord {
    WindowRecord {
        layer,
        owner_name: owner.map(str::to_string),
        bounds: size.map(|(w, h)| WindowBounds { width: Some(w), height: Some(h) }),
        name: Some("Title".to_string()),
        owner_pid: Some(4242),
        is_on_screen: Some(true),
    }
}

#[test]
fn permission_status_equality() {
    assert_eq!(PermissionStatus::Granted, PermissionStatus::Granted);
    assert_ne!(PermissionStatus::Granted, PermissionStatus::Denied);
}

#[test]
fn window_info_to_context() {
    let info = WindowInfo {
        app_name: "Safari".to_string(),
        window_title: Some("Google".to_string()),
        owner_pid: 12345,
        is_on_screen: true,
    };
    let ctx = WindowContext::from(&info);
    assert_eq!(ctx.app_name, "Safari");
    assert_eq!(ctx.window_title, Some("Google".to_string()));
    assert!(ctx.app_bundle_id.is_none());
}

#[test]
fn ocr_result_default_values() {
    let result = OcrResult { text: String::new(), confidence: 0.0f64.to_bits() };
    assert!(result.text.is_empty());
    assert!((f64::from_bits(result.confidence) - 0.0).abs() < f64::EPSILON);
}

#[test]
fn ocr_result_clone() {
    let result = OcrResult { text: "Hello".to_string(), confidence: 0.9f64.to_bits() };
    let cloned = result.clone();
    assert_eq!(cloned.text, "Hello");
    assert!((f64::from_bits(cloned.confidence) - 0.9).abs() < f64::EPSILON);
}

#[test]
fn downscale_reduces_dimensions() {
    let (w, h) = downscaled_size(400, 300, 4);
    assert_eq!(w, 100);
    assert_eq!(h, 75);
}

#[test]
fn downscale_minimum_1x1() {
    let (w, h) = downscaled_size(2, 2, 10);
    assert!(w >= 1);
    assert!(h >= 1);
}

#[test]
fn first_frame_is_a_change_without_comparison() {
    let mut detector: ChangeDetector<u8> = ChangeDetector::new(10, 0);
    assert!(detector.has_changed(0, 1, |_, _| panic!("no baseline to compare with")));
}

#[test]
fn unchanged_frame_keeps_the_baseline() {
    let mut detector: ChangeDetector<u8> = ChangeDetector::new(10, 0);
    assert!(detector.has_changed(0, 7, |a, b| a != b));
    assert!(!detector.has_changed(SEC, 7, |a, b| a != b));
    assert!(!detector.has_changed(2 * SEC, 7, |a, b| a != b));
    assert!(detector.has_changed(3 * SEC, 8, |a, b| a != b));
    // The baseline is now 8.
    assert!(!detector.has_changed(4 * SEC, 8, |a, b| a != b));
}

#[test]
fn forced_change_after_interval() {
    let mut detector: ChangeDetector<u8> = ChangeDetector::new(10, 0);
    assert!(detector.has_changed(0, 7, |a, b| a != b));
    // Just under ten seconds: still compared.
    assert!(!detector.has_changed(10 * SEC - 1, 7, |a, b| a != b));
    // Ten seconds after the baseline: forced, without comparison.
    assert!(detector.has_changed(10 * SEC, 7, |_, _| panic!("forced frames are not compared")));
    // The force interval counts from the forced frame.
    assert!(!detector.has_changed(15 * SEC, 7, |a, b| a != b));
}

#[test]
fn zero_force_interval_forces_every_frame() {
    let mut detector: ChangeDetector<u8> = ChangeDetector::new(0, 0);
    assert!(detector.has_changed(0, 7, |a, b| a != b));
    assert!(detector.has_changed(0, 7, |_, _| false));
}

#[test]
fn focus_tracker_decision_tree() {
    let mut tracker = FocusTracker::new();
    assert_eq!(tracker.classify(&info("Safari", Some("Inbox"))), EventType::FocusChange);
    assert_eq!(tracker.classify(&info("Safari", Some("Inbox"))), EventType::TextChange);
    assert_eq!(tracker.classify(&info("Safari", Some("Compose"))), EventType::FocusChange);
    assert_eq!(tracker.classify(&info("Slack", Some("Compose"))), EventType::AppSwitch);
    assert_eq!(tracker.classify(&info("Slack", None)), EventType::FocusChange);
    assert_eq!(tracker.classify(&info("Slack", Some(""))), EventType::TextChange);
}

#[test]
fn frames_are_read_on_window_or_frame_change() {
    assert!(!window_changed(EventType::TextChange));
    assert!(window_changed(EventType::AppSwitch));
    assert!(window_changed(EventType::FocusChange));
    assert!(worth_reading(true, false));
    assert!(worth_reading(false, true));
    assert!(!worth_reading(false, false));
}

#[test]
fn window_event_carries_window_and_text() {
    let mut w = info("Safari", Some("Inbox"));
    w.is_on_screen = false;
    let ocr = OcrResult { text: "hello".to_string(), confidence: 0.5f64.to_bits() };
    let event = window_event(EventType::AppSwitch, &w, Some(ocr));
    assert_eq!(event.event_type, EventType::AppSwitch);
    assert_eq!(event.window, WindowContext::from(&w));
    assert_eq!(event.ocr_text, "hello");
    assert_eq!(f64::from_bits(event.ocr_confidence), 0.5);
    assert!(!event.is_focused);
    let failed = window_event(EventType::TextChange, &w, None);
    assert!(failed.ocr_text.is_empty());
    assert_eq!(f64::from_bits(failed.ocr_confidence), 0.0);
}

#[test]
fn window_event_truncates_long_text() {
    let w = info("Editor", Some("notes.txt"));
    let ocr = OcrResult { text: "b".repeat(1000), confidence: 0.75f64.to_bits() };
    let event = window_event(EventType::FocusChange, &w, Some(ocr));
    assert_eq!(event.ocr_text, "b".repeat(500));
}

#[test]
fn recognized_lines_are_joined_by_newlines() {
    let mut text = String::new();
    assert!(!add_line(&mut text, ""));
    assert!(add_line(&mut text, "first"));
    assert!(!add_line(&mut text, ""));
    assert!(add_line(&mut text, "second"));
    assert_eq!(text, "first\nsecond");
}

#[test]
fn failed_recognition_is_empty() {
    let r = OcrResult::or_empty(None);
    assert!(r.text.is_empty());
    assert_eq!(f64::from_bits(r.confidence), 0.0);
    let kept = OcrResult::or_empty(Some(OcrResult { text: "x".to_string(), confidence: 1 }));
    assert_eq!(kept.text, "x");
}

#[test]
fn focused_window_is_the_first_normal_one() {
    let records = vec![
        record(Some(25), Some("Menu bar"), Some((1000, 30))),
        record(Some(0), Some(""), Some((800, 600))),
        record(Some(0), Some("Tooltip"), Some((90, 400))),
        record(None, Some("No layer"), Some((800, 600))),
        record(Some(0), Some("Safari"), Some((800, 600))),
        record(Some(0), Some("Slack"), Some((800, 600))),
    ];
    let w = select_focused_window(&records).unwrap();
    assert_eq!(w.app_name, "Safari");
    assert_eq!(w.window_title, Some("Title".to_string()));
    assert_eq!(w.owner_pid, 4242);
    assert!(w.is_on_screen);
}

#[test]
fn window_without_bounds_counts_and_defaults_apply() {
    let r = WindowRecord {
        layer: Some(0),
        owner_name: Some("Finder".to_string()),
        bounds: None,
        name: None,
        owner_pid: Some(1 << 40),
        is_on_screen: None,
    };
    let w = select_focused_window(&vec![r]).unwrap();
    assert_eq!(w.app_name, "Finder");
    assert!(w.window_title.is_none());
    assert_eq!(w.owner_pid, 0);
    assert!(!w.is_on_screen);
}

#[test]
fn no_normal_window_gives_none() {
    let records = vec![record(Some(3), Some("Dock"), Some((800, 80)))];
    assert!(select_focused_window(&records).is_none());
    assert!(select_focused_window(&Vec::new()).is_none());
}

/// Run a start of the lifecycle with the given system answers, recording
/// what was asked.
fn run_start(
    life: &mut NativeLifecycle,
    check: PermissionStatus,
    request: PermissionStatus,
) -> (Vec<PermissionQuery>, Result<StartOutcome, PermissionStatus>) {
    let mut asked = Vec::new();
    let mut step = life.start();
    loop {
        match step {
            StartStep::Finished(r) => return (asked, r),
            StartStep::Ask(q) => {
                asked.push(q);
                step = life.answer(if q == PermissionQuery::Check { check } else { request });
            }
        }
    }
}

#[test]
fn native_start_asks_permission_only_when_needed() {
    let (denied, granted) = (PermissionStatus::Denied, PermissionStatus::Granted);
    let mut life = NativeLifecycle::new();
    assert!(!life.is_running());

    let (asked, r) = run_start(&mut life, denied, denied);
    assert_eq!(asked, vec![PermissionQuery::Check, PermissionQuery::Request]);
    assert_eq!(r, Err(denied));
    assert!(!life.is_running());

    let (asked, r) = run_start(&mut life, granted, denied);
    assert_eq!(asked, vec![PermissionQuery::Check]);
    assert_eq!(r, Ok(StartOutcome::Started));
    assert!(life.is_running());

    let (asked, r) = run_start(&mut life, denied, denied);
    assert!(asked.is_empty());
    assert_eq!(r, Ok(StartOutcome::AlreadyRunning));

    life.stop();
    assert!(!life.is_running());
    let (asked, r) = run_start(&mut life, denied, granted);
    assert_eq!(asked, vec![PermissionQuery::Check, PermissionQuery::Request]);
    assert_eq!(r, Ok(StartOutcome::Started));
}

#[test]
fn stopped_loop_stops() {
    let mut l = NativeLoop::new();
    assert!(matches!(l.step(LoopInput::Tick(false)), LoopAction::Stop));
    assert_eq!(l.phase(), LoopPhase::Ready);
}

#[test]
fn loop_round_emits_one_event_for_a_new_window() {
    let mut l = NativeLoop::new();
    assert!(matches!(l.step(LoopInput::Tick(true)), LoopAction::ReadWindow));
    let w = info("Safari", Some("Inbox"));
    assert!(matches!(l.step(LoopInput::Window(Some(w))), LoopAction::Capture));
    assert!(matches!(l.step(LoopInput::Captured(true)), LoopAction::CompareFrame));
    // The first window is a change of focus: read even if the frame did not change.
    assert!(matches!(l.step(LoopInput::FrameChanged(false)), LoopAction::Recognize));
    let ocr = OcrResult { text: "mail".to_string(), confidence: 0.8f64.to_bits() };
    match l.step(LoopInput::Recognized(Some(ocr))) {
        LoopAction::Emit { kind, window, recognized } => {
            assert_eq!(kind, EventType::FocusChange);
            assert_eq!(window.app_name, "Safari");
            assert_eq!(recognized.unwrap().text, "mail");
        }
        other => panic!("expected an event, got {other:?}"),
    }
    assert_eq!(l.phase(), LoopPhase::Ready);
}

#[test]
fn loop_round_skips_unchanged_frame_of_same_window() {
    let mut l = NativeLoop::new();
    for _ in 0..2 {
        l.step(LoopInput::Tick(true));
        l.step(LoopInput::Window(Some(info("Safari", Some("Inbox")))));
        l.step(LoopInput::Captured(true));
        let a = l.step(LoopInput::FrameChanged(false));
        if matches!(a, LoopAction::Recognize) {
            l.step(LoopInput::Recognized(None));
        } else {
            // Second round: same window, same frame.
            assert!(matches!(a, LoopAction::Sleep));
        }
    }
    // Same window, changed frame: a change of text is read.
    l.step(LoopInput::Tick(true));
    l.step(LoopInput::Window(Some(info("Safari", Some("Inbox")))));
    l.step(LoopInput::Captured(true));
    assert!(matches!(l.step(LoopInput::FrameChanged(true)), LoopAction::Recognize));
    match l.step(LoopInput::Recognized(None)) {
        LoopAction::Emit { kind, recognized, .. } => {
            assert_eq!(kind, EventType::TextChange);
            assert!(recognized.is_none());
        }
        other => panic!("expected an event, got {other:?}"),
    }
}

#[test]
fn loop_round_sleeps_without_window_or_capture() {
    let mut l = NativeLoop::new();
    l.step(LoopInput::Tick(true));
    assert!(matches!(l.step(LoopInput::Window(None)), LoopAction::Sleep));
    l.step(LoopInput::Tick(true));
    l.step(LoopInput::Window(Some(info("Slack", None))));
    assert!(matches!(l.step(LoopInput::Captured(false)), LoopAction::Sleep));
    assert_eq!(l.phase(), LoopPhase::Ready);
}

#[test]
fn permission_status_from_access() {
    assert_eq!(PermissionStatus::from_access(true), PermissionStatus::Granted);
    assert_eq!(PermissionStatus::from_access(false), PermissionStatus::Denied);
}
