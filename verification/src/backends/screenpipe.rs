use std::time::Duration;

use vstd::prelude::*;

use crate::backends::StartOutcome;
use crate::text::{joined, leading, leading_chars, same_text};
use crate::types::{
    clone_text, duration_from_secs, is_confidence, random_event_id, MAX_OCR_CHARS, seconds_duration, EventType, ObservationEvent, Timestamp,
    WindowContext,
};

verus! {

/// Default Screenpipe API base URL.
pub const DEFAULT_BASE_URL: &'static str = "http://localhost:3030";

/// How often to poll the Screenpipe search API, in seconds.
pub const POLL_INTERVAL_SECS: u64 = 1;

/// The confidence given to every Screenpipe frame (0.9, as `f64::to_bits`):
/// Screenpipe does not report one per frame.
pub const SCREENPIPE_CONFIDENCE: u64 = 0x3FEC_CCCC_CCCC_CCCD;

/// One OCR result as Screenpipe reports it.
#[derive(Debug)]
pub struct OcrContent {
    pub frame_id: i64,
    pub text: String,
    pub timestamp: Timestamp,
    pub app_name: String,
    pub window_name: String,
    pub browser_url: Option<String>,
    pub focused: Option<bool>,
}

impl Clone for OcrContent {
    fn clone(&self) -> (r: Self)
        ensures
            r == *self,
    {
        OcrContent {
            frame_id: self.frame_id,
            text: self.text.clone(),
            timestamp: self.timestamp,
            app_name: self.app_name.clone(),
            window_name: self.window_name.clone(),
            browser_url: clone_text(&self.browser_url),
            focused: self.focused,
        }
    }
}

/// One item of a search response: its declared content type, and its
/// content read as an OCR result where it reads as one.
#[derive(Debug)]
pub struct RawContentItem {
    pub content_type: String,
    pub ocr: Option<OcrContent>,
}

/// What a search item turns out to be.
#[derive(Debug)]
pub enum ContentItem {
    Ocr(OcrContent),
    Other,
}

/// The OCR result that an item stands for: its content, where its type is
/// `"OCR"` and its content reads as an OCR result.
pub open spec fn ocr_of(item: RawContentItem) -> Option<OcrContent> {
    if item.content_type@ == "OCR"@ {
        item.ocr
    } else {
        None
    }
}

impl RawContentItem {
    /// Classify the item: an OCR result, or something this library ignores
    /// (audio, UI events, OCR content of the wrong shape).
    pub fn parse(&self) -> (r: ContentItem)
        ensures
            match r {
                ContentItem::Ocr(c) => ocr_of(*self) == Some(c),
                ContentItem::Other => ocr_of(*self) is None,
            },
    {
        if same_text(self.content_type.as_str(), "OCR") {
            match &self.ocr {
                Some(c) => ContentItem::Ocr(c.clone()),
                None => ContentItem::Other,
            }
        } else {
            ContentItem::Other
        }
    }
}

/// A response of the Screenpipe search API.
#[derive(Debug)]
pub struct SearchResponse {
    pub data: Vec<RawContentItem>,
}

/// A response of the Screenpipe health API.
#[derive(Debug)]
pub struct HealthResponse {
    pub status: String,
}

impl HealthResponse {
    /// Whether the response reports a healthy Screenpipe.
    pub fn is_healthy(&self) -> (r: bool)
        ensures
            r == (self.status@ == "healthy"@),
    {
        same_text(self.status.as_str(), "healthy")
    }
}

/// What the status of a health reply amounts to, before its body is read.
#[derive(Debug, Clone, Copy, PartialEq, Eq, Structural)]
pub enum HealthStep {
    /// The status reports no success: Screenpipe is not healthy.
    Unhealthy,
    /// The status reports success: read the body, and ask `is_healthy`.
    ReadBody,
}

/// Screenpipe counts as healthy only where the health reply has a success
/// status and its body reports `"healthy"`; the body is read only after a
/// success status.
pub fn health_status_step(success: bool) -> (step: HealthStep)
    ensures
        step == (if success {
            HealthStep::ReadBody
        } else {
            HealthStep::Unhealthy
        }),
{
    if success {
        HealthStep::ReadBody
    } else {
        HealthStep::Unhealthy
    }
}

/// Configuration for the Screenpipe observer.
#[derive(Debug)]
pub struct ScreenpipeConfig {
    /// Base URL of the Screenpipe API (default: `http://localhost:3030`).
    pub base_url: String,
    /// How often to poll for new OCR data.
    pub poll_interval: Duration,
}

impl Clone for ScreenpipeConfig {
    fn clone(&self) -> (r: Self)
        ensures
            r == *self,
    {
        ScreenpipeConfig { base_url: self.base_url.clone(), poll_interval: self.poll_interval }
    }
}

impl Default for ScreenpipeConfig {
    fn default() -> (c: Self)
        ensures
            c.base_url@ == DEFAULT_BASE_URL@,
            c.poll_interval == seconds_duration(POLL_INTERVAL_SECS),
    {
        ScreenpipeConfig {
            base_url: DEFAULT_BASE_URL.to_string(),
            poll_interval: duration_from_secs(POLL_INTERVAL_SECS),
        }
    }
}

/// What `ocr_to_event` makes of an OCR result: every field but the fresh id.
pub open spec fn describes_frame(e: ObservationEvent, ocr: OcrContent) -> bool {
    &&& e.timestamp == ocr.timestamp
    &&& e.event_type == EventType::TextChange
    &&& e.window.app_bundle_id is None
    &&& e.window.app_name == ocr.app_name
    &&& e.window.window_title == Some(ocr.window_name)
    &&& e.window.browser_url == ocr.browser_url
    &&& e.ocr_text@ == leading(ocr.text@, MAX_OCR_CHARS as nat)
    &&& e.ocr_confidence == SCREENPIPE_CONFIDENCE
    &&& e.is_focused == match ocr.focused {
        Some(f) => f,
        None => true,
    }
}

/// Convert a Screenpipe OCR result to an `ObservationEvent` with a fresh id.
pub fn ocr_to_event(ocr: &OcrContent) -> (e: ObservationEvent)
    ensures
        describes_frame(e, *ocr),
        is_confidence(e.ocr_confidence),
{
    ObservationEvent {
        id: random_event_id(),
        timestamp: ocr.timestamp,
        event_type: EventType::TextChange,
        window: WindowContext {
            app_bundle_id: None,
            app_name: ocr.app_name.clone(),
            window_title: Some(ocr.window_name.clone()),
            browser_url: clone_text(&ocr.browser_url),
        },
        ocr_text: leading_chars(ocr.text.as_str(), MAX_OCR_CHARS),
        ocr_confidence: SCREENPIPE_CONFIDENCE,
        is_focused: match ocr.focused {
            Some(f) => f,
            None => true,
        },
    }
}

/// The OCR results among `items`, in order, whose frame is newer than `last`.
pub open spec fn fresh_frames(items: Seq<RawContentItem>, last: i64) -> Seq<OcrContent>
    decreases items.len(),
{
    if items.len() == 0 {
        seq![]
    } else {
        let earlier = fresh_frames(items.drop_last(), last);
        match ocr_of(items.last()) {
            Some(c) => if c.frame_id > last {
                earlier.push(c)
            } else {
                earlier
            },
            None => earlier,
        }
    }
}

/// The newest frame id among `frames`, or `last` where none is newer.
pub open spec fn newest_frame(frames: Seq<OcrContent>, last: i64) -> i64
    decreases frames.len(),
{
    if frames.len() == 0 {
        last
    } else {
        let m = newest_frame(frames.drop_last(), last);
        if frames.last().frame_id > m {
            frames.last().frame_id
        } else {
            m
        }
    }
}

/// A response of one item reports that item's OCR result exactly where the
/// item is an OCR result newer than the mark, whatever else it holds (its
/// focus, text or application), and reports nothing otherwise.
pub proof fn one_item_reports_itself_when_newer(item: RawContentItem, last: i64)
    ensures
        ocr_of(item) is Some && ocr_of(item)->0.frame_id > last ==> fresh_frames(
            seq![item],
            last,
        ) == seq![ocr_of(item)->0],
        ocr_of(item) is None ==> fresh_frames(seq![item], last).len() == 0,
        ocr_of(item) is Some && ocr_of(item)->0.frame_id <= last ==> fresh_frames(
            seq![item],
            last,
        ).len() == 0,
{
    reveal_with_fuel(fresh_frames, 2);
    assert(seq![item].drop_last() =~= Seq::<RawContentItem>::empty());
    assert(seq![item].last() == item);
    assert(fresh_frames(Seq::<RawContentItem>::empty(), last) =~= Seq::<OcrContent>::empty());
}

/// Polling two responses back to back against the same mark reports the
/// frames of the first and then those of the second: a poll keeps the order
/// of the response and handles each item on its own.
pub proof fn reported_frames_follow_the_response(
    first: Seq<RawContentItem>,
    second: Seq<RawContentItem>,
    last: i64,
)
    ensures
        fresh_frames(first + second, last) == fresh_frames(first, last) + fresh_frames(
            second,
            last,
        ),
    decreases second.len(),
{
    if second.len() == 0 {
        assert(first + second =~= first);
        assert(fresh_frames(first, last) + fresh_frames(second, last) =~= fresh_frames(
            first,
            last,
        ));
    } else {
        reported_frames_follow_the_response(first, second.drop_last(), last);
        assert((first + second).drop_last() =~= first + second.drop_last());
        assert((first + second).last() == second.last());
        let a = fresh_frames(first, last);
        let b = fresh_frames(second.drop_last(), last);
        match ocr_of(second.last()) {
            Some(c) => {
                if c.frame_id > last {
                    assert((a + b).push(c) =~= a + b.push(c));
                }
            },
            None => {},
        }
    }
}

/// Every OCR item of a response that is newer than the mark is reported,
/// once for each time it occurs, and nothing else is: the reported frames
/// are the newer OCR results of the items, in the order of the items.
pub proof fn every_newer_frame_is_reported(items: Seq<RawContentItem>, last: i64, i: int)
    requires
        0 <= i < items.len(),
        ocr_of(items[i]) is Some,
        ocr_of(items[i])->0.frame_id > last,
    ensures
        fresh_frames(items, last) == fresh_frames(items.take(i), last) + seq![
            ocr_of(items[i])->0,
        ] + fresh_frames(items.skip(i + 1), last),
{
    let pre = items.take(i);
    let mid = seq![items[i]];
    let post = items.skip(i + 1);
    assert(items =~= pre + mid + post);
    reported_frames_follow_the_response(pre + mid, post, last);
    reported_frames_follow_the_response(pre, mid, last);
    one_item_reports_itself_when_newer(items[i], last);
}

/// Every frame that a poll reports is newer than the frames reported before
/// it, and no newer than the mark that the poll leaves behind; that mark
/// never moves backwards.
pub proof fn reported_frames_lie_between_marks(items: Seq<RawContentItem>, last: i64)
    ensures
        newest_frame(fresh_frames(items, last), last) >= last,
        forall|i: int|
            0 <= i < fresh_frames(items, last).len() ==> last < (
            #[trigger] fresh_frames(items, last)[i]).frame_id <= newest_frame(
                fresh_frames(items, last),
                last,
            ),
    decreases items.len(),
{
    if items.len() > 0 {
        reported_frames_lie_between_marks(items.drop_last(), last);
        let earlier = fresh_frames(items.drop_last(), last);
        let fresh = fresh_frames(items, last);
        if fresh.len() > earlier.len() {
            assert(fresh.drop_last() =~= earlier);
        }
    }
}

/// Whatever mark lies at or past the newest frame of a response, polling
/// the same response again against it reports nothing.
proof fn nothing_fresh_past_newest(items: Seq<RawContentItem>, last: i64, mark: i64)
    requires
        mark >= newest_frame(fresh_frames(items, last), last),
    ensures
        fresh_frames(items, mark).len() == 0,
    decreases items.len(),
{
    if items.len() > 0 {
        let earlier = fresh_frames(items.drop_last(), last);
        let fresh = fresh_frames(items, last);
        reported_frames_lie_between_marks(items.drop_last(), last);
        reported_frames_lie_between_marks(items, last);
        if fresh.len() > earlier.len() {
            assert(fresh.drop_last() =~= earlier);
            assert(fresh[fresh.len() - 1] == fresh.last());
        }
        nothing_fresh_past_newest(items.drop_last(), last, mark);
    }
}

/// No frame is reported twice: once a poll has moved the mark past a
/// response, polling the same response again reports no frame at all.
pub proof fn repeated_poll_reports_nothing(items: Seq<RawContentItem>, last: i64)
    ensures
        fresh_frames(items, newest_frame(fresh_frames(items, last), last)).len() == 0,
{
    nothing_fresh_past_newest(items, last, newest_frame(fresh_frames(items, last), last));
}

/// Why the Screenpipe observer refused to start.
#[derive(Debug)]
pub enum ScreenpipeError {
    /// No healthy Screenpipe answered at the configured base URL.
    Unreachable { base_url: String },
}

impl ScreenpipeError {
    /// A sentence that says what went wrong.
    pub fn message(&self) -> (m: String)
        ensures
            match self {
                ScreenpipeError::Unreachable { base_url } => m@ == "Screenpipe is not reachable at "@
                    + base_url@,
            },
    {
        match self {
            ScreenpipeError::Unreachable { base_url } => joined(
                "Screenpipe is not reachable at ",
                base_url.as_str(),
            ),
        }
    }
}

/// The state of an observer backed by a running Screenpipe instance: its
/// configuration, whether it runs, and the newest frame that it has turned
/// into an event, so that no frame is reported twice.
///
/// The HTTP client and the event channel belong to the code that performs
/// the requests; this type decides what the responses amount to.
pub struct ScreenpipeObserver {
    config: ScreenpipeConfig,
    running: bool,
    last_frame_id: i64,
}

impl ScreenpipeObserver {
    /// The configuration the observer was made with.
    pub closed spec fn configuration(&self) -> ScreenpipeConfig {
        self.config
    }

    /// Whether the observer runs.
    pub closed spec fn running(&self) -> bool {
        self.running
    }

    /// The newest frame id already reported (0 before any).
    pub closed spec fn seen_up_to(&self) -> i64 {
        self.last_frame_id
    }

    /// Create a new observer with the given configuration.
    pub fn new(config: ScreenpipeConfig) -> (o: Self)
        ensures
            o.configuration() == config,
            !o.running(),
            o.seen_up_to() == 0,
    {
        ScreenpipeObserver { config, running: false, last_frame_id: 0 }
    }

    /// Create a new observer with the default configuration.
    pub fn with_defaults() -> (o: Self)
        ensures
            o.configuration().base_url@ == DEFAULT_BASE_URL@,
            o.configuration().poll_interval == seconds_duration(POLL_INTERVAL_SECS),
            !o.running(),
            o.seen_up_to() == 0,
    {
        Self::new(ScreenpipeConfig::default())
    }

    /// The configuration the observer was made with.
    pub fn config(&self) -> (c: &ScreenpipeConfig)
        ensures
            *c == self.configuration(),
    {
        &self.config
    }

    /// Whether the observer is currently running.
    pub fn is_running(&self) -> (r: bool)
        ensures
            r == self.running(),
    {
        self.running
    }

    /// The newest frame id already reported (0 before any).
    pub fn last_frame_id(&self) -> (r: i64)
        ensures
            r == self.seen_up_to(),
    {
        self.last_frame_id
    }

    /// The URL of the health API.
    pub fn health_url(&self) -> (u: String)
        ensures
            u@ == self.configuration().base_url@ + "/health"@,
    {
        joined(self.config.base_url.as_str(), "/health")
    }

    /// The URL that asks for the five most recent OCR results.
    pub fn search_url(&self) -> (u: String)
        ensures
            u@ == self.configuration().base_url@ + "/search?content_type=ocr&limit=5&offset=0"@,
    {
        joined(self.config.base_url.as_str(), "/search?content_type=ocr&limit=5&offset=0")
    }

    /// Start observing, given whether Screenpipe answered its health check.
    ///
    /// A running observer stays as it is, whatever `healthy` says; the health
    /// check is only needed where the observer does not run. An observer that
    /// does not run begins to run exactly when Screenpipe is healthy.
    pub fn start(&mut self, healthy: bool) -> (r: Result<StartOutcome, ScreenpipeError>)
        ensures
            final(self).configuration() == old(self).configuration(),
            final(self).seen_up_to() == old(self).seen_up_to(),
            old(self).running() ==> r == Ok::<StartOutcome, ScreenpipeError>(
                StartOutcome::AlreadyRunning,
            ) && final(self).running(),
            !old(self).running() && healthy ==> r == Ok::<StartOutcome, ScreenpipeError>(
                StartOutcome::Started,
            ) && final(self).running(),
            !old(self).running() && !healthy ==> !final(self).running() && match r {
                Err(ScreenpipeError::Unreachable { base_url }) => base_url
                    == old(self).configuration().base_url,
                Ok(_) => false,
            },
    {
        if self.running {
            return Ok(StartOutcome::AlreadyRunning);
        }
        if !healthy {
            return Err(ScreenpipeError::Unreachable { base_url: self.config.base_url.clone() });
        }
        self.running = true;
        Ok(StartOutcome::Started)
    }

    /// Stop observing. No more polls are made after this.
    pub fn stop(&mut self)
        ensures
            !final(self).running(),
            final(self).configuration() == old(self).configuration(),
            final(self).seen_up_to() == old(self).seen_up_to(),
    {
        self.running = false;
    }

    /// The events that a poll sends: those of `absorb` while the observer
    /// runs; a stopped observer sends nothing and stays as it is.
    pub fn deliver(&mut self, response: &SearchResponse) -> (events: Vec<ObservationEvent>)
        ensures
            final(self).configuration() == old(self).configuration(),
            final(self).running() == old(self).running(),
            !old(self).running() ==> events@.len() == 0 && final(self).seen_up_to() == old(
                self,
            ).seen_up_to(),
            old(self).running() ==> ({
                let fresh = fresh_frames(response.data@, old(self).seen_up_to());
                &&& events@.len() == fresh.len()
                &&& forall|i: int|
                    0 <= i < fresh.len() ==> describes_frame(#[trigger] events@[i], fresh[i])
                &&& final(self).seen_up_to() == newest_frame(fresh, old(self).seen_up_to())
            }),
    {
        if self.running {
            self.absorb(response)
        } else {
            Vec::new()
        }
    }

    /// Turn a search response into events: one for each OCR result whose frame
    /// is newer than the newest already reported, in the order of the
    /// response. Afterwards the newest reported frame is the newest of those.
    pub fn absorb(&mut self, response: &SearchResponse) -> (events: Vec<ObservationEvent>)
        ensures
            final(self).configuration() == old(self).configuration(),
            final(self).running() == old(self).running(),
            ({
                let fresh = fresh_frames(response.data@, old(self).seen_up_to());
                &&& events@.len() == fresh.len()
                &&& forall|i: int|
                    0 <= i < fresh.len() ==> describes_frame(#[trigger] events@[i], fresh[i])
                &&& final(self).seen_up_to() == newest_frame(fresh, old(self).seen_up_to())
            }),
    {
        let last_id = self.last_frame_id;
        let mut max_id = last_id;
        let mut events: Vec<ObservationEvent> = Vec::new();
        let n = response.data.len();
        let mut i: usize = 0;
        while i < n
            invariant
                n == response.data@.len(),
                0 <= i <= n,
                last_id == old(self).seen_up_to(),
                *self == *old(self),
                ({
                    let fresh = fresh_frames(response.data@.take(i as int), last_id);
                    &&& events@.len() == fresh.len()
                    &&& forall|k: int|
                        0 <= k < fresh.len() ==> describes_frame(#[trigger] events@[k], fresh[k])
                    &&& max_id == newest_frame(fresh, last_id)
                }),
            decreases n - i,
        {
            let ghost before = response.data@.take(i as int);
            assert(response.data@.take(i + 1).drop_last() =~= before);
            assert(response.data@.take(i + 1).last() == response.data@[i as int]);
            let ghost earlier = fresh_frames(before, last_id);
            match response.data[i].parse() {
                ContentItem::Ocr(ocr) => {
                    if ocr.frame_id > last_id {
                        assert(fresh_frames(response.data@.take(i + 1), last_id) == earlier.push(
                            ocr,
                        ));
                        if ocr.frame_id > max_id {
                            max_id = ocr.frame_id;
                        }
                        events.push(ocr_to_event(&ocr));
                        assert(earlier.push(ocr).drop_last() =~= earlier);
                    } else {
                        assert(fresh_frames(response.data@.take(i + 1), last_id) == earlier);
                    }
                },
                ContentItem::Other => {
                    assert(fresh_frames(response.data@.take(i + 1), last_id) == earlier);
                },
            }
            i = i + 1;
        }
        assert(response.data@.take(n as int) =~= response.data@);
        self.last_frame_id = max_id;
        events
    }
}

} // verus!
