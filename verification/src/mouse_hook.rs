use vstd::prelude::*;

verus! {

/// The Windows low-level mouse hook (`WH_MOUSE_LL`).
pub const WH_MOUSE_LL: i32 = 14;

/// The middle button went down (`WM_MBUTTONDOWN`).
pub const WM_MBUTTONDOWN: usize = 0x0207;

/// The middle button went up (`WM_MBUTTONUP`).
pub const WM_MBUTTONUP: usize = 0x0208;

/// The message that ends a message loop (`WM_QUIT`).
pub const WM_QUIT: u32 = 0x0012;

/// The state of the middle-click hook: the installed hook's handle (0 when none is
/// installed) and whether middle clicks translate.
#[derive(Clone, Copy, Debug)]
pub struct HookState {
    pub hook_handle: isize,
    pub enabled: bool,
}

impl HookState {
    /// No hook installed, middle clicks off.
    pub fn new() -> (r: Self)
        ensures
            r.hook_handle == 0,
            !r.enabled,
    {
        HookState { hook_handle: 0, enabled: false }
    }
}

/// Turns middle-click translation on; tells whether the hook still has to be installed
/// (on a thread of its own), which is when none is.
pub fn start_hook(state: &mut HookState) -> (install: bool)
    ensures
        final(state).enabled,
        final(state).hook_handle == old(state).hook_handle,
        install == (old(state).hook_handle == 0),
{
    state.enabled = true;
    state.hook_handle == 0
}

/// Turns middle-click translation off; the hook stays installed.
pub fn stop(state: &mut HookState)
    ensures
        !final(state).enabled,
        final(state).hook_handle == old(state).hook_handle,
{
    state.enabled = false;
}

/// Records the handle of the hook just installed.
pub fn hook_installed(state: &mut HookState, handle: isize)
    ensures
        final(state).hook_handle == handle,
        final(state).enabled == old(state).enabled,
{
    state.hook_handle = handle;
}

/// Records that the hook is gone.
pub fn hook_removed(state: &mut HookState)
    ensures
        final(state).hook_handle == 0,
        final(state).enabled == old(state).enabled,
{
    state.hook_handle = 0;
}

/// What the hook does with a mouse message.
#[derive(Clone, Copy, Debug, PartialEq, Eq, Structural)]
pub enum MouseAction {
    /// Keep the message from the other programs (so the selection stays).
    Swallow,
    /// Keep the message from the other programs and translate the selection.
    SwallowAndTranslate,
    /// Hand the message on to the next hook.
    PassOn,
}

/// What the hook does with a mouse message: while middle clicks translate, a middle button
/// press is swallowed and its release is swallowed and translates; all else is passed on.
pub open spec fn mouse_action_spec(enabled: bool, code: i32, w_param: usize) -> MouseAction {
    if code >= 0 && enabled && w_param == WM_MBUTTONDOWN {
        MouseAction::Swallow
    } else if code >= 0 && enabled && w_param == WM_MBUTTONUP {
        MouseAction::SwallowAndTranslate
    } else {
        MouseAction::PassOn
    }
}

/// Decides what the hook does with a mouse message.
pub fn mouse_action(state: &HookState, code: i32, w_param: usize) -> (r: MouseAction)
    ensures
        r == mouse_action_spec(state.enabled, code, w_param),
{
    if code >= 0 && state.enabled {
        if w_param == WM_MBUTTONDOWN {
            return MouseAction::Swallow;
        }
        if w_param == WM_MBUTTONUP {
            return MouseAction::SwallowAndTranslate;
        }
    }
    MouseAction::PassOn
}

/// The value the hook returns for a swallowed message.
pub const SWALLOWED: isize = 1;

/// Once middle clicks are off (as `stop` leaves them), the hook hands every mouse message
/// on to the next hook: no click is swallowed and nothing is translated.
pub proof fn lemma_stopped_hook_passes_on(state: HookState, code: i32, w_param: usize)
    requires
        !state.enabled,
    ensures
        mouse_action_spec(state.enabled, code, w_param) == MouseAction::PassOn,
{
}

} // verus!
