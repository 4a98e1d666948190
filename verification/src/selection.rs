use crate::text::{after_last, last_segment, push_str, trim, trim_str};
use vstd::prelude::*;

verus! {

/// A selection to translate: its text, the mouse position and the program it came from.
#[derive(Clone, Debug)]
pub struct SelectionEvent {
    pub text: String,
    pub x: i32,
    pub y: i32,
    pub source_app: String,
}

/// The selected text, or the message of the failure to read it.
pub fn get_selected_text(raw: Result<String, String>) -> (r: Result<String, String>)
    ensures
        match raw {
            Ok(t) => r == Ok::<String, String>(t),
            Err(e) => r matches Err(m) && m@ == "获取选中文本失败："@ + e@,
        },
{
    match raw {
        Ok(t) => Ok(t),
        Err(e) => {
            let mut m = String::new();
            push_str(&mut m, "获取选中文本失败：");
            push_str(&mut m, e.as_str());
            Err(m)
        },
    }
}

/// How long after one trigger another one is ignored, in milliseconds.
pub const DEBOUNCE_MS: u64 = 300;

/// Ignores a trigger that comes too soon after the one before.
pub struct Debouncer {
    pub last_ms: u64,
}

impl Debouncer {
    /// A gate that has seen no trigger (as at time 0).
    pub fn new() -> (r: Self)
        ensures
            r.last_ms == 0,
    {
        Debouncer { last_ms: 0 }
    }

    /// Records a trigger at `now_ms` (always, even an ignored one) and tells whether it
    /// is far enough from the previous one to act on.
    pub fn trigger(&mut self, now_ms: u64) -> (r: bool)
        ensures
            final(self).last_ms == now_ms,
            r == (now_ms >= old(self).last_ms && now_ms - old(self).last_ms >= DEBOUNCE_MS),
    {
        let prev = self.last_ms;
        self.last_ms = now_ms;
        now_ms.saturating_sub(prev) >= DEBOUNCE_MS
    }
}

/// Whether a selection holds something to translate: more than white space.
pub fn is_translatable(text: &str) -> (r: bool)
    ensures
        r == (trim(text@).len() > 0),
{
    !trim_str(text).as_str().is_empty()
}

/// The selection event to translate, when the text was read and holds more than white
/// space.
pub fn selection_event(text: Result<String, String>, x: i32, y: i32, source_app: String) -> (r:
    Option<SelectionEvent>)
    ensures
        match text {
            Ok(t) => if trim(t@).len() > 0 {
                r == Some(SelectionEvent { text: t, x, y, source_app })
            } else {
                r is None
            },
            Err(_) => r is None,
        },
{
    match text {
        Ok(t) => if is_translatable(t.as_str()) {
            Some(SelectionEvent { text: t, x, y, source_app })
        } else {
            None
        },
        Err(_) => None,
    }
}

/// The file name at the end of a Windows path: what follows its last backslash.
pub fn exe_name(path: &str) -> (r: String)
    ensures
        r@ == after_last(path@, '\\'),
{
    last_segment(path, '\\')
}

/// The work area of a monitor.
#[derive(Clone, Copy, Debug, PartialEq, Eq, Structural)]
pub struct MonitorBounds {
    pub left: i32,
    pub top: i32,
    pub right: i32,
    pub bottom: i32,
}

/// The work area assumed when the monitor's cannot be read.
pub fn fallback_bounds() -> (r: MonitorBounds)
    ensures
        r == (MonitorBounds { left: 0, top: 0, right: 1920, bottom: 1080 }),
{
    MonitorBounds { left: 0, top: 0, right: 1920, bottom: 1080 }
}

/// Where a window of size `w` by `h` at (`x`, `y`) is moved so that it does not reach
/// past the right or bottom edge of the work area, and then not past its left or top edge.
pub open spec fn clamped(x: int, y: int, w: int, h: int, bounds: MonitorBounds) -> (int, int) {
    let cx = if x + w > bounds.right {
        bounds.right - w
    } else {
        x
    };
    let cy = if y + h > bounds.bottom {
        bounds.bottom - h
    } else {
        y
    };
    (
        if cx < bounds.left {
            bounds.left as int
        } else {
            cx
        },
        if cy < bounds.top {
            bounds.top as int
        } else {
            cy
        },
    )
}

/// Moves a window of size `w` by `h` at (`x`, `y`) so that it does not reach past the
/// right or bottom edge of the work area, and then not past its left or top edge.
pub fn clamp_to_screen(x: i32, y: i32, w: i32, h: i32, bounds: MonitorBounds) -> (r: (i32, i32))
    requires
        i32::MIN <= x + w <= i32::MAX,
        i32::MIN <= y + h <= i32::MAX,
        i32::MIN <= bounds.right - w <= i32::MAX,
        i32::MIN <= bounds.bottom - h <= i32::MAX,
    ensures
        r.0 == clamped(x as int, y as int, w as int, h as int, bounds).0,
        r.1 == clamped(x as int, y as int, w as int, h as int, bounds).1,
        r.0 >= bounds.left,
        r.1 >= bounds.top,
        w <= bounds.right - bounds.left ==> r.0 + w <= bounds.right,
        h <= bounds.bottom - bounds.top ==> r.1 + h <= bounds.bottom,
{
    let cx = if x + w > bounds.right {
        bounds.right - w
    } else {
        x
    };
    let cy = if y + h > bounds.bottom {
        bounds.bottom - h
    } else {
        y
    };
    let rx = if cx < bounds.left {
        bounds.left
    } else {
        cx
    };
    let ry = if cy < bounds.top {
        bounds.top
    } else {
        cy
    };
    (rx, ry)
}

/// The width of the translation popup.
pub const POPUP_WIDTH: i32 = 400;

/// The height of the translation popup.
pub const POPUP_HEIGHT: i32 = 350;

/// Where the translation popup opens for a mouse at (`x`, `y`): ten pixels right of and
/// below it, kept on the work area.
pub fn popup_position(x: i32, y: i32, bounds: MonitorBounds) -> (r: (i32, i32))
    requires
        x + 10 + POPUP_WIDTH <= i32::MAX,
        y + 10 + POPUP_HEIGHT <= i32::MAX,
        bounds.right - POPUP_WIDTH >= i32::MIN,
        bounds.bottom - POPUP_HEIGHT >= i32::MIN,
    ensures
        r.0 == clamped(x + 10, y + 10, POPUP_WIDTH as int, POPUP_HEIGHT as int, bounds).0,
        r.1 == clamped(x + 10, y + 10, POPUP_WIDTH as int, POPUP_HEIGHT as int, bounds).1,
        r.0 >= bounds.left,
        r.1 >= bounds.top,
        POPUP_WIDTH <= bounds.right - bounds.left ==> r.0 + POPUP_WIDTH <= bounds.right,
        POPUP_HEIGHT <= bounds.bottom - bounds.top ==> r.1 + POPUP_HEIGHT <= bounds.bottom,
        x + 10 + POPUP_WIDTH <= bounds.right && y + 10 + POPUP_HEIGHT <= bounds.bottom && x + 10
            >= bounds.left && y + 10 >= bounds.top ==> r.0 == x + 10 && r.1 == y + 10,
{
    clamp_to_screen(x + 10, y + 10, POPUP_WIDTH, POPUP_HEIGHT, bounds)
}

} // verus!
