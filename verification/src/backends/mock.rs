use std::time::Duration;

use vstd::prelude::*;

use crate::backends::StartOutcome;
use crate::text::leading;
use crate::types::{
    duration_from_secs, is_confidence, seconds_duration, EventType, ObservationEvent,
    WindowContext, MAX_OCR_CHARS,
};

verus! {

broadcast use vstd::string::group_string_axioms;

/// The confidence of sample events (0.9, as `f64::to_bits`).
pub const SAMPLE_CONFIDENCE: u64 = 0x3FEC_CCCC_CCCC_CCCD;

/// A mock screen observer for testing and demo mode.
///
/// It is configured with a sequence of events and an interval. Each start
/// begins a run that emits the events in order, one per interval, until
/// they are all emitted or the observer is stopped; a mock with no events
/// stays silent.
///
/// The waiting and the event channel belong to the code that drives the
/// mock: before each wait it asks `has_pending`, after it `next_event`.
pub struct MockObserver {
    events: Vec<ObservationEvent>,
    interval: Duration,
    running: bool,
    next: usize,
}

impl MockObserver {
    /// The events that each run emits, in order.
    pub closed spec fn scheduled(&self) -> Seq<ObservationEvent> {
        self.events@
    }

    /// The time between two events.
    pub closed spec fn pace(&self) -> Duration {
        self.interval
    }

    /// Whether the observer runs.
    pub closed spec fn running(&self) -> bool {
        self.running
    }

    /// How many events the current run has emitted.
    pub closed spec fn emitted(&self) -> nat {
        self.next as nat
    }

    /// The events that the current run has emitted, in the order emitted.
    pub closed spec fn run_log(&self) -> Seq<ObservationEvent> {
        if self.next <= self.events@.len() {
            self.events@.take(self.next as int)
        } else {
            self.events@
        }
    }

    /// A run never emits more events than are scheduled.
    #[verifier::type_invariant]
    spec fn within_schedule(&self) -> bool {
        self.next <= self.events@.len()
    }

    /// Create a mock that emits the given events at the specified interval.
    pub fn with_events(events: Vec<ObservationEvent>, interval: Duration) -> (m: Self)
        ensures
            m.scheduled() == events@,
            m.pace() == interval,
            !m.running(),
            m.emitted() == 0,
    {
        MockObserver { events, interval, running: false, next: 0 }
    }

    /// Create a mock that never emits any events.
    pub fn silent() -> (m: Self)
        ensures
            m.scheduled().len() == 0,
            m.pace() == seconds_duration(1),
            !m.running(),
            m.emitted() == 0,
    {
        Self::with_events(Vec::new(), duration_from_secs(1))
    }

    /// Helper to build a simple observation event for testing: a change of
    /// text in a window of `app_name`, with no bundle id, title or URL.
    pub fn sample_event(app_name: &str, ocr_text: &str) -> (e: ObservationEvent)
        ensures
            e.event_type == EventType::TextChange,
            e.window.app_bundle_id is None,
            e.window.app_name@ == app_name@,
            e.window.window_title is None,
            e.window.browser_url is None,
            e.ocr_text@ == leading(ocr_text@, MAX_OCR_CHARS as nat),
            e.ocr_confidence == SAMPLE_CONFIDENCE,
            is_confidence(e.ocr_confidence),
            e.is_focused,
    {
        ObservationEvent::new(
            EventType::TextChange,
            WindowContext {
                app_bundle_id: None,
                app_name: app_name.to_string(),
                window_title: None,
                browser_url: None,
            },
            ocr_text.to_string(),
            SAMPLE_CONFIDENCE,
        )
    }

    /// The time between two events.
    pub fn interval(&self) -> (d: Duration)
        ensures
            d == self.pace(),
    {
        self.interval
    }

    /// Whether the observer is currently running.
    pub fn is_running(&self) -> (r: bool)
        ensures
            r == self.running(),
    {
        self.running
    }

    /// Start a run. Starting a running mock changes nothing; otherwise a new
    /// run begins at the first event.
    pub fn start(&mut self) -> (r: StartOutcome)
        ensures
            final(self).running(),
            final(self).scheduled() == old(self).scheduled(),
            final(self).pace() == old(self).pace(),
            old(self).running() ==> r == StartOutcome::AlreadyRunning && final(self).emitted()
                == old(self).emitted(),
            !old(self).running() ==> r == StartOutcome::Started && final(self).emitted() == 0
                && final(self).run_log().len() == 0,
            old(self).running() ==> final(self).run_log() == old(self).run_log(),
    {
        proof {
            use_type_invariant(&*self);
        }
        if self.running {
            return StartOutcome::AlreadyRunning;
        }
        self.next = 0;
        self.running = true;
        StartOutcome::Started
    }

    /// Stop. No more events are emitted after this returns.
    pub fn stop(&mut self)
        ensures
            !final(self).running(),
            final(self).scheduled() == old(self).scheduled(),
            final(self).pace() == old(self).pace(),
            final(self).emitted() == old(self).emitted(),
            final(self).run_log() == old(self).run_log(),
    {
        proof {
            use_type_invariant(&*self);
        }
        self.running = false;
    }

    /// Whether the run has an event left to wait for: the mock runs and not
    /// every event has been emitted.
    pub fn has_pending(&self) -> (r: bool)
        ensures
            r == (self.running() && self.emitted() < self.scheduled().len()),
            !r && self.running() ==> self.run_log() == self.scheduled(),
    {
        proof {
            use_type_invariant(self);
        }
        let r = self.running && self.next < self.events.len();
        proof {
            if !r && self.running {
                assert(self.events@.take(self.next as int) =~= self.events@);
            }
        }
        r
    }

    /// The event that is due once an interval has passed: the next scheduled
    /// one, where the mock still runs and one is left.
    pub fn next_event(&mut self) -> (r: Option<ObservationEvent>)
        ensures
            final(self).scheduled() == old(self).scheduled(),
            final(self).pace() == old(self).pace(),
            final(self).running() == old(self).running(),
            old(self).running() && old(self).emitted() < old(self).scheduled().len() ==> r
                == Some(old(self).scheduled()[old(self).emitted() as int]) && final(self).emitted()
                == old(self).emitted() + 1,
            r matches Some(e) ==> final(self).run_log() == old(self).run_log().push(e),
            r is None ==> final(self).run_log() == old(self).run_log(),
            !(old(self).running() && old(self).emitted() < old(self).scheduled().len()) ==> r
                is None && final(self).emitted() == old(self).emitted(),
    {
        proof {
            use_type_invariant(&*self);
        }
        if self.running && self.next < self.events.len() {
            let e = self.events[self.next].clone();
            self.next = self.next + 1;
            assert(self.events@.take(self.next as int) =~= old(self).events@.take(
                old(self).next as int,
            ).push(e));
            Some(e)
        } else {
            None
        }
    }
}

/// What a run has emitted is always the schedule's first events, in order,
/// each once: the log of the run is a prefix of the schedule, no longer
/// than it, and each of its events stands at its own place in the schedule.
pub proof fn run_emits_a_prefix_of_the_schedule(m: MockObserver)
    ensures
        m.run_log().len() <= m.scheduled().len(),
        m.run_log() == m.scheduled().take(m.run_log().len() as int),
        forall|i: int| 0 <= i < m.run_log().len() ==> #[trigger] m.run_log()[i] == m.scheduled()[i],
{
    if m.next <= m.events@.len() {
        assert(m.run_log() == m.events@.take(m.next as int));
    } else {
        assert(m.scheduled().take(m.scheduled().len() as int) =~= m.scheduled());
    }
}

} // verus!
