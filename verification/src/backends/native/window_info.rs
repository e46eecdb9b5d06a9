use vstd::prelude::*;
use vstd::std_specs::convert::FromSpecImpl;

use crate::types::{clone_text, WindowContext};

verus! {

/// Information about the frontmost window.
#[derive(Debug)]
pub struct WindowInfo {
    pub app_name: String,
    pub window_title: Option<String>,
    pub owner_pid: i32,
    pub is_on_screen: bool,
}

impl Clone for WindowInfo {
    fn clone(&self) -> (r: Self)
        ensures
            r == *self,
    {
        WindowInfo {
            app_name: self.app_name.clone(),
            window_title: clone_text(&self.window_title),
            owner_pid: self.owner_pid,
            is_on_screen: self.is_on_screen,
        }
    }
}

/// The size that the window list gives for a window, where it gives one.
#[derive(Debug, Clone, Copy, PartialEq, Eq, Structural)]
pub struct WindowBounds {
    pub width: Option<i64>,
    pub height: Option<i64>,
}

/// What the window list says of one window: each entry where present and of
/// the expected kind.
#[derive(Debug)]
pub struct WindowRecord {
    /// `kCGWindowLayer`: 0 for normal windows.
    pub layer: Option<i64>,
    /// `kCGWindowOwnerName`: the owning application.
    pub owner_name: Option<String>,
    /// `kCGWindowBounds`.
    pub bounds: Option<WindowBounds>,
    /// `kCGWindowName`: the window title.
    pub name: Option<String>,
    /// `kCGWindowOwnerPID`.
    pub owner_pid: Option<i64>,
    /// `kCGWindowIsOnscreen`.
    pub is_on_screen: Option<bool>,
}

/// Smallest width and height of a window that counts as a real window
/// (smaller ones are tooltips and decorations).
pub const MIN_WINDOW_SIDE: i64 = 100;

/// Whether a window is a normal window of a named application that is not
/// too small to matter.
pub open spec fn is_normal_window(r: WindowRecord) -> bool {
    &&& r.layer.unwrap_or(-1i64) == 0
    &&& r.owner_name matches Some(n) && n@.len() > 0
    &&& r.bounds matches Some(b) ==> b.width.unwrap_or(0i64) >= MIN_WINDOW_SIDE && b.height.unwrap_or(0i64) >= MIN_WINDOW_SIDE
}

/// A normal window is a layer-0 window of an application with a non-empty
/// name, whose width and height, where the list gives its bounds, are both at
/// least 100; and every such window is normal. So a window under 100 pixels
/// high (a tooltip, a bar) or under 100 wide is never normal, however wide
/// or high it is.
pub proof fn normal_windows_are_big_named_layer_zero_windows(r: WindowRecord)
    ensures
        is_normal_window(r) ==> r.layer == Some(0i64),
        is_normal_window(r) ==> r.owner_name is Some && r.owner_name->0@.len() > 0,
        is_normal_window(r) && r.bounds is Some ==> r.bounds->0.width is Some && r.bounds->0.width->0
            >= 100,
        is_normal_window(r) && r.bounds is Some ==> r.bounds->0.height is Some
            && r.bounds->0.height->0 >= 100,
        r.layer == Some(0i64) && r.owner_name is Some && r.owner_name->0@.len() > 0 && (
        r.bounds is None || (r.bounds->0.width is Some && r.bounds->0.width->0 >= 100
            && r.bounds->0.height is Some && r.bounds->0.height->0 >= 100)) ==> is_normal_window(r),
{
}

/// A process id as an `i32`, or 0 where it does not fit.
pub open spec fn pid_of(pid: Option<i64>) -> i32 {
    let p = pid.unwrap_or(0i64);
    if i32::MIN <= p <= i32::MAX {
        p as i32
    } else {
        0
    }
}

/// The window information that a normal window's record gives.
pub open spec fn info_of(r: WindowRecord) -> WindowInfo {
    WindowInfo {
        app_name: r.owner_name->0,
        window_title: r.name,
        owner_pid: pid_of(r.owner_pid),
        is_on_screen: r.is_on_screen.unwrap_or(false),
    }
}

fn is_normal(r: &WindowRecord) -> (b: bool)
    ensures
        b == is_normal_window(*r),
{
    let layer = match r.layer {
        Some(l) => l,
        None => -1,
    };
    if layer != 0 {
        return false;
    }
    let named = match &r.owner_name {
        Some(n) => !n.as_str().is_empty(),
        None => false,
    };
    if !named {
        return false;
    }
    match r.bounds {
        Some(b) => {
            let w = match b.width {
                Some(w) => w,
                None => 0,
            };
            let h = match b.height {
                Some(h) => h,
                None => 0,
            };
            w >= MIN_WINDOW_SIDE && h >= MIN_WINDOW_SIDE
        },
        None => true,
    }
}

/// Pick the frontmost normal window from a window list given front to back:
/// the first record that is a normal window, if any is.
pub fn select_focused_window(records: &Vec<WindowRecord>) -> (r: Option<WindowInfo>)
    ensures
        match r {
            None => forall|i: int| 0 <= i < records@.len() ==> !is_normal_window(#[trigger] records@[i]),
            Some(w) => exists|i: int|
                0 <= i < records@.len() && is_normal_window(#[trigger] records@[i]) && (forall|j: int|
                    0 <= j < i ==> !is_normal_window(#[trigger] records@[j])) && w == info_of(records@[i]),
        },
{
    let mut i: usize = 0;
    while i < records.len()
        invariant
            0 <= i <= records@.len(),
            forall|j: int| 0 <= j < i ==> !is_normal_window(#[trigger] records@[j]),
        decreases records@.len() - i,
    {
        let rec = &records[i];
        if is_normal(rec) {
            let app_name = match &rec.owner_name {
                Some(n) => n.clone(),
                None => String::new(),
            };
            let pid = match rec.owner_pid {
                Some(p) => p,
                None => 0,
            };
            let owner_pid: i32 = if i32::MIN as i64 <= pid && pid <= i32::MAX as i64 {
                pid as i32
            } else {
                0
            };
            let is_on_screen = match rec.is_on_screen {
                Some(v) => v,
                None => false,
            };
            let info = WindowInfo {
                app_name,
                window_title: clone_text(&rec.name),
                owner_pid,
                is_on_screen,
            };
            assert(info == info_of(records@[i as int]));
            return Some(info);
        }
        i = i + 1;
    }
    None
}

impl WindowContext {
    /// The context of a window: its application and title, with no bundle
    /// id or browser URL.
    pub open spec fn of_window(info: &WindowInfo) -> WindowContext {
        WindowContext {
            app_bundle_id: None,
            app_name: info.app_name,
            window_title: info.window_title,
            browser_url: None,
        }
    }
}

/// Convert a `WindowInfo` into a `WindowContext` for event emission.
impl<'a> From<&'a WindowInfo> for WindowContext {
    fn from(info: &'a WindowInfo) -> (r: Self) {
        WindowContext {
            app_bundle_id: None,
            app_name: info.app_name.clone(),
            window_title: clone_text(&info.window_title),
            browser_url: None,
        }
    }
}

impl<'a> FromSpecImpl<&'a WindowInfo> for WindowContext {
    open spec fn obeys_from_spec() -> bool {
        true
    }

    open spec fn from_spec(info: &'a WindowInfo) -> WindowContext {
        WindowContext::of_window(info)
    }
}

} // verus!
