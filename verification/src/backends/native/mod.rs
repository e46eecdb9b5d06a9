//! The decisions of the native observer: which frames are worth reading,
//! which window is in front, what the text on screen says, and what kind
//! of event each observation is.

pub mod frame_diff;
pub mod ocr;
pub mod permissions;
pub mod window_info;

use vstd::prelude::*;

use crate::backends::StartOutcome;
use crate::text::same_text;
use crate::text::leading;
use crate::types::{EventType, ObservationEvent, WindowContext, MAX_OCR_CHARS};
use ocr::OcrResult;
use permissions::PermissionStatus;
use window_info::WindowInfo;

verus! {

/// Why the native observer refused to start.
pub const PERMISSION_DENIED_MESSAGE: &'static str =
    "Screen Recording permission denied. Enable it in System Settings → Privacy & Security → Screen Recording.";

/// The title of a window as text (empty where it has none).
pub open spec fn title_text(info: WindowInfo) -> Seq<char> {
    match info.window_title {
        Some(t) => t@,
        None => seq![],
    }
}

/// What kind of event a window is, given the application and title of the
/// window seen before it: the first window, and a new title in the same
/// application, are a change of focus; another application is an app switch;
/// the same window again is a change of text.
pub open spec fn event_kind(last_app: Option<Seq<char>>, last_title: Seq<char>, info: WindowInfo) -> EventType {
    match last_app {
        None => EventType::FocusChange,
        Some(prev) => if prev != info.app_name@ {
            EventType::AppSwitch
        } else if title_text(info) != last_title {
            EventType::FocusChange
        } else {
            EventType::TextChange
        },
    }
}

/// The kind of a window follows the application first and the title second:
/// the first window seen is a change of focus; a window of another
/// application is an app switch, whatever the titles; a window of the same
/// application with another title (a missing title counting as empty) is a
/// change of focus; and the same application with the same title is a change
/// of text.
pub proof fn kind_follows_application_then_title(
    prev_app: Seq<char>,
    last_title: Seq<char>,
    info: WindowInfo,
)
    ensures
        event_kind(None, last_title, info) == EventType::FocusChange,
        prev_app != info.app_name@ ==> event_kind(Some(prev_app), last_title, info)
            == EventType::AppSwitch,
        prev_app == info.app_name@ && info.window_title is Some && info.window_title->0@
            != last_title ==> event_kind(Some(prev_app), last_title, info)
            == EventType::FocusChange,
        prev_app == info.app_name@ && info.window_title is Some && info.window_title->0@
            == last_title ==> event_kind(Some(prev_app), last_title, info)
            == EventType::TextChange,
        prev_app == info.app_name@ && info.window_title is None && last_title.len() > 0
            ==> event_kind(Some(prev_app), last_title, info) == EventType::FocusChange,
        prev_app == info.app_name@ && info.window_title is None && last_title.len() == 0
            ==> event_kind(Some(prev_app), last_title, info) == EventType::TextChange,
{
    if info.window_title is None {
        assert(title_text(info) =~= Seq::<char>::empty());
        if last_title.len() == 0 {
            assert(last_title =~= Seq::<char>::empty());
        }
    }
}

/// Seeing the same window twice in a row is a change of text the second
/// time, whatever came before; and the first window seen is a change of focus.
pub proof fn same_window_again_is_text_change(
    last_app: Option<Seq<char>>,
    last_title: Seq<char>,
    info: WindowInfo,
)
    ensures
        event_kind(Some(info.app_name@), title_text(info), info) == EventType::TextChange,
        event_kind(None, last_title, info) == EventType::FocusChange,
{
}

/// Remembers the application and title of the window seen last, to tell what
/// kind of event the next window is.
pub struct FocusTracker {
    last_app: Option<String>,
    last_title: String,
}

impl FocusTracker {
    /// The application of the window seen last, if any was seen.
    pub closed spec fn previous_app(&self) -> Option<Seq<char>> {
        match self.last_app {
            Some(a) => Some(a@),
            None => None,
        }
    }

    /// The title of the window seen last (empty before any).
    pub closed spec fn previous_title(&self) -> Seq<char> {
        self.last_title@
    }

    /// A tracker that has seen no window yet.
    pub fn new() -> (t: Self)
        ensures
            t.previous_app() is None,
            t.previous_title().len() == 0,
    {
        FocusTracker { last_app: None, last_title: String::new() }
    }

    /// What kind of event `info` is; the tracker then remembers `info`.
    pub fn classify(&mut self, info: &WindowInfo) -> (kind: EventType)
        ensures
            kind == event_kind(old(self).previous_app(), old(self).previous_title(), *info),
            final(self).previous_app() == Some(info.app_name@),
            final(self).previous_title() == title_text(*info),
    {
        let current_title: String = match &info.window_title {
            Some(t) => t.clone(),
            None => String::new(),
        };
        let kind = match &self.last_app {
            None => EventType::FocusChange,
            Some(prev) => if !same_text(prev.as_str(), info.app_name.as_str()) {
                EventType::AppSwitch
            } else if !same_text(current_title.as_str(), self.last_title.as_str()) {
                EventType::FocusChange
            } else {
                EventType::TextChange
            },
        };
        self.last_app = Some(info.app_name.clone());
        self.last_title = current_title;
        kind
    }
}

/// Whether a kind of event means that the window changed (anything but a
/// change of text in the same window).
pub fn window_changed(kind: EventType) -> (r: bool)
    ensures
        r == (kind != EventType::TextChange),
{
    match kind {
        EventType::TextChange => false,
        _ => true,
    }
}

/// Whether a captured frame is to be read: where the window changed, or the
/// frame changed since the last frame read.
pub fn worth_reading(window_changed: bool, frame_changed: bool) -> (r: bool)
    ensures
        r == (window_changed || frame_changed),
{
    window_changed || frame_changed
}

/// The event for one observation of a window: the kind it was classified as,
/// the window's context, the text read from the screen (none where the
/// recognition failed), and whether the window is on screen.
pub fn window_event(kind: EventType, info: &WindowInfo, recognized: Option<OcrResult>) -> (e:
    ObservationEvent)
    ensures
        e.event_type == kind,
        e.window == WindowContext::of_window(info),
        e.is_focused == info.is_on_screen,
        match recognized {
            Some(o) => e.ocr_text@ == leading(o.text@, MAX_OCR_CHARS as nat) && e.ocr_confidence
                == o.confidence,
            None => e.ocr_text@.len() == 0 && e.ocr_confidence == 0,
        },
{
    let ocr = OcrResult::or_empty(recognized);
    let mut e = ObservationEvent::new(kind, WindowContext::from(info), ocr.text, ocr.confidence);
    e.is_focused = info.is_on_screen;
    e
}

// --- The observation loop ---
/// Where the observation loop stands within one round.
#[derive(Debug, Clone, Copy, PartialEq, Eq, Structural)]
pub enum LoopPhase {
    /// Between rounds: the next input says whether the observer still runs.
    Ready,
    /// Waiting for the focused window.
    AwaitWindow,
    /// Waiting for the screen capture.
    AwaitCapture,
    /// Waiting for the frame comparison.
    AwaitComparison,
    /// Waiting for the text recognition.
    AwaitText,
}

/// What the surrounding code reports to the loop, in answer to its last
/// action.
#[derive(Debug)]
pub enum LoopInput {
    /// A round begins; whether the observer still runs.
    Tick(bool),
    /// The focused window, if one was found.
    Window(Option<WindowInfo>),
    /// Whether the screen capture succeeded.
    Captured(bool),
    /// Whether the captured frame changed, as the frame differ judged it
    /// (it is asked exactly once per captured frame).
    FrameChanged(bool),
    /// The recognized text, or none where recognition failed.
    Recognized(Option<OcrResult>),
}

/// What the loop asks the surrounding code to do next.
#[derive(Debug)]
pub enum LoopAction {
    /// The observer no longer runs: leave the loop.
    Stop,
    /// Find the focused window.
    ReadWindow,
    /// Capture the screen.
    Capture,
    /// Ask the frame differ whether the captured frame changed.
    CompareFrame,
    /// Recognize the text of the captured frame.
    Recognize,
    /// Nothing more this round: wait for the poll interval.
    Sleep,
    /// Send the event for this observation (made by `window_event`), then
    /// wait for the poll interval.
    Emit { kind: EventType, window: WindowInfo, recognized: Option<OcrResult> },
}

/// The state of the observation loop, as the contracts see it.
pub struct LoopView {
    pub phase: LoopPhase,
    pub prev_app: Option<Seq<char>>,
    pub prev_title: Seq<char>,
    pub pending: Option<(EventType, WindowInfo)>,
}

impl LoopView {
    /// A window (and its kind) is pending exactly while a round is under way
    /// past finding the window.
    pub open spec fn wf(self) -> bool {
        (self.pending is Some) == (self.phase == LoopPhase::AwaitCapture || self.phase
            == LoopPhase::AwaitComparison || self.phase == LoopPhase::AwaitText)
    }

    /// Whether `input` answers the action that led to this state.
    pub open spec fn expects(self, input: LoopInput) -> bool {
        match input {
            LoopInput::Tick(_) => self.phase == LoopPhase::Ready,
            LoopInput::Window(_) => self.phase == LoopPhase::AwaitWindow,
            LoopInput::Captured(_) => self.phase == LoopPhase::AwaitCapture,
            LoopInput::FrameChanged(_) => self.phase == LoopPhase::AwaitComparison,
            LoopInput::Recognized(_) => self.phase == LoopPhase::AwaitText,
        }
    }

    /// The same state, in `phase`, with nothing pending.
    pub open spec fn settle(self, phase: LoopPhase) -> LoopView {
        LoopView { phase, prev_app: self.prev_app, prev_title: self.prev_title, pending: None }
    }

    /// The same state, in `phase`.
    pub open spec fn move_to(self, phase: LoopPhase) -> LoopView {
        LoopView {
            phase,
            prev_app: self.prev_app,
            prev_title: self.prev_title,
            pending: self.pending,
        }
    }
}

/// One step of the observation loop: the next state and action, given the
/// state and the answer to the last action.
///
/// A round begins with a tick and ends with `Stop`, `Sleep` or `Emit`: a
/// stopped observer stops; without a focused window, or where the capture
/// fails, the round sleeps; otherwise the window is classified (and
/// remembered), the frame is compared once, and it is read only where the
/// window or the frame changed; a read frame is emitted as one event.
pub open spec fn loop_next(v: LoopView, input: LoopInput) -> (LoopView, LoopAction) {
    match input {
        LoopInput::Tick(running) => if running {
            (v.move_to(LoopPhase::AwaitWindow), LoopAction::ReadWindow)
        } else {
            (v, LoopAction::Stop)
        },
        LoopInput::Window(None) => (v.settle(LoopPhase::Ready), LoopAction::Sleep),
        LoopInput::Window(Some(info)) => (
            LoopView {
                phase: LoopPhase::AwaitCapture,
                prev_app: Some(info.app_name@),
                prev_title: title_text(info),
                pending: Some((event_kind(v.prev_app, v.prev_title, info), info)),
            },
            LoopAction::Capture,
        ),
        LoopInput::Captured(ok) => if ok {
            (v.move_to(LoopPhase::AwaitComparison), LoopAction::CompareFrame)
        } else {
            (v.settle(LoopPhase::Ready), LoopAction::Sleep)
        },
        LoopInput::FrameChanged(changed) => if (v.pending->0).0 != EventType::TextChange || changed {
            (v.move_to(LoopPhase::AwaitText), LoopAction::Recognize)
        } else {
            (v.settle(LoopPhase::Ready), LoopAction::Sleep)
        },
        LoopInput::Recognized(recognized) => (
            v.settle(LoopPhase::Ready),
            LoopAction::Emit { kind: (v.pending->0).0, window: (v.pending->0).1, recognized },
        ),
    }
}

/// The actions of one round that begins in `v`, where the surrounding code
/// answers each action with the given outcome.
pub open spec fn round_actions(
    v: LoopView,
    running: bool,
    window: Option<WindowInfo>,
    captured: bool,
    frame_changed: bool,
    recognized: Option<OcrResult>,
) -> Seq<LoopAction> {
    let (v1, a1) = loop_next(v, LoopInput::Tick(running));
    if !running {
        seq![a1]
    } else {
        let (v2, a2) = loop_next(v1, LoopInput::Window(window));
        if window is None {
            seq![a1, a2]
        } else {
            let (v3, a3) = loop_next(v2, LoopInput::Captured(captured));
            if !captured {
                seq![a1, a2, a3]
            } else {
                let (v4, a4) = loop_next(v3, LoopInput::FrameChanged(frame_changed));
                if a4 is Sleep {
                    seq![a1, a2, a3, a4]
                } else {
                    let (v5, a5) = loop_next(v4, LoopInput::Recognized(recognized));
                    seq![a1, a2, a3, a4, a5]
                }
            }
        }
    }
}

/// Whether an action ends a round.
pub open spec fn ends_round(a: LoopAction) -> bool {
    a is Stop || a is Sleep || a is Emit
}

/// One round of the loop sends at most one event, as its last action: it
/// sends exactly one where the observer runs, a focused window is found,
/// the capture succeeds and the window or the frame changed. The frame
/// differ is asked exactly once where a frame was captured, and not at all
/// otherwise; a stopped observer does nothing but stop.
pub proof fn one_round_sends_at_most_one_event(
    v: LoopView,
    running: bool,
    window: Option<WindowInfo>,
    captured: bool,
    frame_changed: bool,
    recognized: Option<OcrResult>,
)
    requires
        v.phase == LoopPhase::Ready,
    ensures
        ({
            let acts = round_actions(v, running, window, captured, frame_changed, recognized);
            let sends = running && window is Some && captured && (event_kind(
                v.prev_app,
                v.prev_title,
                window->0,
            ) != EventType::TextChange || frame_changed);
            &&& acts.len() >= 1
            &&& ends_round(acts.last())
            &&& forall|i: int| 0 <= i < acts.len() - 1 ==> !ends_round(#[trigger] acts[i])
            &&& (acts.last() is Emit) == sends
            &&& sends ==> acts.last() == LoopAction::Emit {
                kind: event_kind(v.prev_app, v.prev_title, window->0),
                window: window->0,
                recognized,
            }
            &&& !running ==> acts == seq![LoopAction::Stop]
            &&& (exists|i: int| 0 <= i < acts.len() && #[trigger] acts[i] is CompareFrame) == (
            running && window is Some && captured)
            &&& forall|i: int, j: int|
                0 <= i < acts.len() && 0 <= j < acts.len() && #[trigger] acts[i] is CompareFrame
                    && #[trigger] acts[j] is CompareFrame ==> i == j
        }),
{
    let acts = round_actions(v, running, window, captured, frame_changed, recognized);
    if running && window is Some && captured {
        assert(acts[2] is CompareFrame);
    }
}

/// The observation loop's decisions: it remembers the last window seen, and
/// the window of the round under way.
pub struct NativeLoop {
    tracker: FocusTracker,
    phase: LoopPhase,
    pending: Option<(EventType, WindowInfo)>,
}

impl NativeLoop {
    /// The loop's state.
    pub closed spec fn view(&self) -> LoopView {
        LoopView {
            phase: self.phase,
            prev_app: self.tracker.previous_app(),
            prev_title: self.tracker.previous_title(),
            pending: self.pending,
        }
    }

    /// A loop between rounds that has seen no window yet.
    pub fn new() -> (l: Self)
        ensures
            l.view().wf(),
            l.view().phase == LoopPhase::Ready,
            l.view().prev_app is None,
            l.view().prev_title.len() == 0,
    {
        NativeLoop { tracker: FocusTracker::new(), phase: LoopPhase::Ready, pending: None }
    }

    /// Where the loop stands.
    pub fn phase(&self) -> (p: LoopPhase)
        ensures
            p == self.view().phase,
    {
        self.phase
    }

    /// Take the answer to the last action, and say what to do next.
    pub fn step(&mut self, input: LoopInput) -> (action: LoopAction)
        requires
            old(self).view().wf(),
            old(self).view().expects(input),
        ensures
            final(self).view().wf(),
            (final(self).view(), action) == loop_next(old(self).view(), input),
    {
        match input {
            LoopInput::Tick(running) => {
                if running {
                    self.phase = LoopPhase::AwaitWindow;
                    LoopAction::ReadWindow
                } else {
                    LoopAction::Stop
                }
            },
            LoopInput::Window(None) => {
                self.phase = LoopPhase::Ready;
                self.pending = None;
                LoopAction::Sleep
            },
            LoopInput::Window(Some(info)) => {
                let kind = self.tracker.classify(&info);
                self.pending = Some((kind, info));
                self.phase = LoopPhase::AwaitCapture;
                LoopAction::Capture
            },
            LoopInput::Captured(ok) => {
                if ok {
                    self.phase = LoopPhase::AwaitComparison;
                    LoopAction::CompareFrame
                } else {
                    self.phase = LoopPhase::Ready;
                    self.pending = None;
                    LoopAction::Sleep
                }
            },
            LoopInput::FrameChanged(changed) => {
                let kind = match &self.pending {
                    Some(p) => p.0,
                    None => EventType::TextChange,
                };
                if worth_reading(window_changed(kind), changed) {
                    self.phase = LoopPhase::AwaitText;
                    LoopAction::Recognize
                } else {
                    self.phase = LoopPhase::Ready;
                    self.pending = None;
                    LoopAction::Sleep
                }
            },
            LoopInput::Recognized(recognized) => {
                self.phase = LoopPhase::Ready;
                match self.pending.take() {
                    Some((kind, window)) => LoopAction::Emit { kind, window, recognized },
                    None => LoopAction::Sleep,
                }
            },
        }
    }
}

// --- Starting and stopping ---
/// Where the native observer stands: stopped, asking for permission, or
/// running.
#[derive(Debug, Clone, Copy, PartialEq, Eq, Structural)]
pub enum LifecyclePhase {
    Stopped,
    /// Waiting for the answer of the permission check.
    Checking,
    /// Waiting for the answer of the permission request.
    Requesting,
    Running,
}

/// What the surrounding code is to ask the system.
#[derive(Debug, Clone, Copy, PartialEq, Eq, Structural)]
pub enum PermissionQuery {
    /// Check for screen recording permission without prompting.
    Check,
    /// Request screen recording permission (may prompt the user).
    Request,
}

/// The next step of a start.
#[derive(Debug, Clone, Copy, PartialEq, Eq)]
pub enum StartStep {
    /// Ask the system, and report the answer with `answer`.
    Ask(PermissionQuery),
    /// The start is over: it started, found the observer running, or was
    /// refused for want of permission.
    Finished(Result<StartOutcome, PermissionStatus>),
}

/// What a start does in `phase`.
pub open spec fn start_next(phase: LifecyclePhase) -> (LifecyclePhase, StartStep) {
    if phase == LifecyclePhase::Running {
        (phase, StartStep::Finished(Ok(StartOutcome::AlreadyRunning)))
    } else {
        (LifecyclePhase::Checking, StartStep::Ask(PermissionQuery::Check))
    }
}

/// What an answer of the system does in `phase`: a granted permission starts
/// the observer; a denied check leads to a request; a denied request refuses
/// the start.
pub open spec fn answer_next(phase: LifecyclePhase, status: PermissionStatus) -> (
    LifecyclePhase,
    StartStep,
) {
    if status == PermissionStatus::Granted {
        (LifecyclePhase::Running, StartStep::Finished(Ok(StartOutcome::Started)))
    } else if phase == LifecyclePhase::Checking {
        (LifecyclePhase::Requesting, StartStep::Ask(PermissionQuery::Request))
    } else {
        (LifecyclePhase::Stopped, StartStep::Finished(Err(PermissionStatus::Denied)))
    }
}

/// The questions that a start from `phase` asks the system, where the check
/// answers `check` and the request answers `request`, and how it ends.
pub open spec fn start_queries(
    phase: LifecyclePhase,
    check: PermissionStatus,
    request: PermissionStatus,
) -> (Seq<PermissionQuery>, LifecyclePhase, Result<StartOutcome, PermissionStatus>) {
    let (p1, s1) = start_next(phase);
    match s1 {
        StartStep::Finished(r) => (seq![], p1, r),
        StartStep::Ask(_) => {
            let (p2, s2) = answer_next(p1, check);
            match s2 {
                StartStep::Finished(r) => (seq![PermissionQuery::Check], p2, r),
                StartStep::Ask(_) => {
                    let (p3, s3) = answer_next(p2, request);
                    match s3 {
                        StartStep::Finished(r) => (
                            seq![PermissionQuery::Check, PermissionQuery::Request],
                            p3,
                            r,
                        ),
                        StartStep::Ask(_) => (
                            seq![PermissionQuery::Check, PermissionQuery::Request],
                            p3,
                            Err(PermissionStatus::Denied),
                        ),
                    }
                },
            }
        },
    }
}

/// A start asks nothing of a running observer. Otherwise it checks first,
/// requests permission only where the check finds it denied, and starts
/// exactly where one of the two grants it; a refused start leaves the
/// observer stopped.
pub proof fn start_asks_only_what_it_needs(
    phase: LifecyclePhase,
    check: PermissionStatus,
    request: PermissionStatus,
)
    requires
        phase == LifecyclePhase::Stopped || phase == LifecyclePhase::Running,
    ensures
        ({
            let (queries, end, r) = start_queries(phase, check, request);
            &&& phase == LifecyclePhase::Running ==> queries.len() == 0 && end
                == LifecyclePhase::Running && r == Ok::<StartOutcome, PermissionStatus>(
                StartOutcome::AlreadyRunning,
            )
            &&& phase == LifecyclePhase::Stopped && check == PermissionStatus::Granted ==> queries
                == seq![PermissionQuery::Check] && end == LifecyclePhase::Running && r == Ok::<
                StartOutcome,
                PermissionStatus,
            >(StartOutcome::Started)
            &&& phase == LifecyclePhase::Stopped && check == PermissionStatus::Denied ==> queries
                == seq![PermissionQuery::Check, PermissionQuery::Request] && (request
                == PermissionStatus::Granted ==> end == LifecyclePhase::Running && r == Ok::<
                StartOutcome,
                PermissionStatus,
            >(StartOutcome::Started)) && (request == PermissionStatus::Denied ==> end
                == LifecyclePhase::Stopped && r == Err::<StartOutcome, PermissionStatus>(
                PermissionStatus::Denied,
            ))
        }),
{
}

/// Whether the native observer runs, and where a start stands. Starting needs
/// screen recording permission; the surrounding code asks the system what
/// the lifecycle asks for and reports the answers.
pub struct NativeLifecycle {
    phase: LifecyclePhase,
}

impl NativeLifecycle {
    /// Where the observer stands.
    pub closed spec fn phase_of(&self) -> LifecyclePhase {
        self.phase
    }

    /// Whether the observer runs.
    pub open spec fn running(&self) -> bool {
        self.phase_of() == LifecyclePhase::Running
    }

    /// A lifecycle that does not run.
    pub fn new() -> (l: Self)
        ensures
            l.phase_of() == LifecyclePhase::Stopped,
    {
        NativeLifecycle { phase: LifecyclePhase::Stopped }
    }

    /// Whether the observer is currently running.
    pub fn is_running(&self) -> (r: bool)
        ensures
            r == self.running(),
    {
        self.phase == LifecyclePhase::Running
    }

    /// Begin a start: a running observer stays as it is; otherwise the
    /// permission is to be checked.
    pub fn start(&mut self) -> (step: StartStep)
        requires
            old(self).phase_of() == LifecyclePhase::Stopped || old(self).phase_of()
                == LifecyclePhase::Running,
        ensures
            (final(self).phase_of(), step) == start_next(old(self).phase_of()),
    {
        if self.phase == LifecyclePhase::Running {
            StartStep::Finished(Ok(StartOutcome::AlreadyRunning))
        } else {
            self.phase = LifecyclePhase::Checking;
            StartStep::Ask(PermissionQuery::Check)
        }
    }

    /// Report the system's answer to the last question asked.
    pub fn answer(&mut self, status: PermissionStatus) -> (step: StartStep)
        requires
            old(self).phase_of() == LifecyclePhase::Checking || old(self).phase_of()
                == LifecyclePhase::Requesting,
        ensures
            (final(self).phase_of(), step) == answer_next(old(self).phase_of(), status),
    {
        if status == PermissionStatus::Granted {
            self.phase = LifecyclePhase::Running;
            StartStep::Finished(Ok(StartOutcome::Started))
        } else if self.phase == LifecyclePhase::Checking {
            self.phase = LifecyclePhase::Requesting;
            StartStep::Ask(PermissionQuery::Request)
        } else {
            self.phase = LifecyclePhase::Stopped;
            StartStep::Finished(Err(PermissionStatus::Denied))
        }
    }

    /// Stop. No more rounds of the loop begin after this.
    pub fn stop(&mut self)
        ensures
            final(self).phase_of() == LifecyclePhase::Stopped,
    {
        self.phase = LifecyclePhase::Stopped;
    }
}

} // verus!
