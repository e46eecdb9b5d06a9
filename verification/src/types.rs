use chrono::Utc;
use std::time::Duration;
use uuid::Uuid;
use vstd::prelude::*;

use crate::text::{leading, leading_chars};

verus! {

/// Why an observation event was triggered.
#[derive(Debug, Clone, Copy, PartialEq, Eq, Structural)]
pub enum EventType {
    /// User switched to a different application.
    AppSwitch,
    /// Text content on screen changed significantly.
    TextChange,
    /// User paused typing for a detectable interval.
    TypingPause,
    /// User scrolled and stopped.
    ScrollStop,
    /// User clicked.
    Click,
    /// Clipboard content changed.
    Clipboard,
    /// No user activity detected — periodic idle capture.
    Idle,
    /// Focus moved to another window of the same application, or the
    /// first window was seen.
    FocusChange,
}

/// Metadata about the active window at observation time.
#[derive(Debug, PartialEq, Eq)]
pub struct WindowContext {
    /// Application bundle identifier (e.g., "com.apple.Safari").
    pub app_bundle_id: Option<String>,
    /// Human-readable application name (e.g., "Safari").
    pub app_name: String,
    /// Window title (e.g., "Inbox - Gmail").
    pub window_title: Option<String>,
    /// Browser URL if applicable.
    pub browser_url: Option<String>,
}

pub(crate) fn clone_text(s: &Option<String>) -> (r: Option<String>)
    ensures
        r == *s,
{
    match s {
        Some(t) => Some(t.clone()),
        None => None,
    }
}

impl Clone for WindowContext {
    fn clone(&self) -> (r: Self)
        ensures
            r == *self,
    {
        WindowContext {
            app_bundle_id: clone_text(&self.app_bundle_id),
            app_name: self.app_name.clone(),
            window_title: clone_text(&self.window_title),
            browser_url: clone_text(&self.browser_url),
        }
    }
}

/// `uuid::Uuid`, carried through events as an opaque value.
#[verifier::external_type_specification]
#[verifier::external_body]
pub struct ExUuid(Uuid);

/// An instant in UTC: whole seconds since the Unix epoch, and the
/// nanoseconds past that second.
#[derive(Debug, Clone, Copy, PartialEq, Eq, Structural)]
pub struct Timestamp {
    /// Seconds since 1970-01-01T00:00:00Z.
    pub secs: i64,
    /// Nanoseconds past `secs`.
    pub nanos: u32,
}

/// Calls `uuid::Uuid::new_v4`, which draws a random version-4 identifier.
/// The result depends on chance, so nothing is stated of it.
#[verifier::external_body]
pub(crate) fn random_event_id() -> (id: Uuid) {
    Uuid::new_v4()
}

/// Calls `chrono::Utc::now`, which reads the system clock, and splits the
/// result into seconds and nanoseconds. The result depends on the time of the
/// call, so nothing is stated of it.
#[verifier::external_body]
fn current_time() -> (t: Timestamp) {
    let now = Utc::now();
    Timestamp { secs: now.timestamp(), nanos: now.timestamp_subsec_nanos() }
}

/// Names the `Duration` that `std::time::Duration::from_secs` returns for a
/// number of whole seconds.
pub uninterp spec fn seconds_duration(secs: u64) -> Duration;

/// Calls `std::time::Duration::from_secs`. The contract claims only that the
/// result is the one the name `seconds_duration` gives for the same argument.
#[verifier::external_body]
pub(crate) fn duration_from_secs(secs: u64) -> (d: Duration)
    ensures
        d == seconds_duration(secs),
{
    Duration::from_secs(secs)
}

/// How many characters of OCR text an event keeps.
pub const MAX_OCR_CHARS: usize = 500;

/// The bit pattern of the double 1.0.
pub const ONE_BITS: u64 = 0x3FF0_0000_0000_0000;

/// Whether the bit pattern of a double is that of a confidence: a number
/// from +0.0 to 1.0. (For non-negative doubles, the order of the bit
/// patterns is the order of the numbers; negative numbers and NaNs have
/// patterns above that of 1.0.)
pub open spec fn is_confidence(bits: u64) -> bool {
    bits <= ONE_BITS
}

/// A single observation event from the screen.
///
/// The OCR confidence (a number from 0.0 to 1.0) is kept as the bit pattern
/// of its IEEE-754 double: the library passes it through and never computes
/// with it.
#[derive(Debug)]
pub struct ObservationEvent {
    /// Unique identifier for this event.
    pub id: Uuid,
    /// When the observation was captured.
    pub timestamp: Timestamp,
    /// What triggered this observation.
    pub event_type: EventType,
    /// Context about the active window.
    pub window: WindowContext,
    /// OCR-extracted text from the screen (truncated to 500 chars).
    pub ocr_text: String,
    /// Confidence of the OCR extraction (0.0 to 1.0), as `f64::to_bits` of
    /// the value.
    pub ocr_confidence: u64,
    /// Whether this window is currently focused.
    pub is_focused: bool,
}

impl Clone for ObservationEvent {
    fn clone(&self) -> (r: Self)
        ensures
            r == *self,
    {
        ObservationEvent {
            id: self.id,
            timestamp: self.timestamp,
            event_type: self.event_type,
            window: self.window.clone(),
            ocr_text: self.ocr_text.clone(),
            ocr_confidence: self.ocr_confidence,
            is_focused: self.is_focused,
        }
    }
}

impl ObservationEvent {
    /// Create a new observation event with a generated ID and the current
    /// timestamp. The text is truncated to its first 500 characters, and the
    /// event counts as focused.
    pub fn new(
        event_type: EventType,
        window: WindowContext,
        ocr_text: String,
        ocr_confidence: u64,
    ) -> (e: Self)
        ensures
            e.event_type == event_type,
            e.window == window,
            e.ocr_text@ == leading(ocr_text@, MAX_OCR_CHARS as nat),
            e.ocr_confidence == ocr_confidence,
            e.is_focused,
    {
        ObservationEvent {
            id: random_event_id(),
            timestamp: current_time(),
            event_type,
            window,
            ocr_text: leading_chars(ocr_text.as_str(), MAX_OCR_CHARS),
            ocr_confidence,
            is_focused: true,
        }
    }
}

} // verus!
