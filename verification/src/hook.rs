//! The in-process hook that runs inside a target process: display-affinity
//! choice, taskbar style bits, which window events it acts on, the cloak
//! removal retries, and its enable/disable lifecycle.

use vstd::prelude::*;
use crate::strings::same_text;

verus! {

/// `WDA_NONE`: the window is captured normally.
pub const WDA_NONE: u32 = 0;
/// `WDA_EXCLUDEFROMCAPTURE`: the window is left out of screen captures.
pub const WDA_EXCLUDEFROMCAPTURE: u32 = 0x11;
/// `WS_EX_TOOLWINDOW` extended style: no taskbar button, not in Alt+Tab.
pub const WS_EX_TOOLWINDOW: i32 = 0x80;
/// `WS_EX_APPWINDOW` extended style: forces a taskbar button.
pub const WS_EX_APPWINDOW: i32 = 0x40000;
/// `WS_VISIBLE` window style bit.
pub const WS_VISIBLE: i32 = 0x1000_0000;
/// `WS_CHILD` window style bit.
pub const WS_CHILD: i32 = 0x4000_0000;
/// `EVENT_OBJECT_CREATE`.
pub const EVENT_OBJECT_CREATE: u32 = 0x8000;
/// `EVENT_OBJECT_SHOW`.
pub const EVENT_OBJECT_SHOW: u32 = 0x8002;
/// `EVENT_OBJECT_LOCATIONCHANGE`, the last event of the hooked range.
pub const EVENT_OBJECT_LOCATIONCHANGE: u32 = 0x800B;

/// The display affinity that hides (or shows again) a window in captures.
pub fn display_affinity_for(hide: bool) -> (a: u32)
    ensures
        a == (if hide { WDA_EXCLUDEFROMCAPTURE } else { WDA_NONE }),
{
    if hide {
        WDA_EXCLUDEFROMCAPTURE
    } else {
        WDA_NONE
    }
}

/// A display affinity reading (`None` when it could not be read) shows the
/// window excluded from capture.
pub fn is_wda_active(affinity: Option<u32>) -> (r: bool)
    ensures
        r == (affinity == Some(WDA_EXCLUDEFROMCAPTURE)),
{
    match affinity {
        Some(a) => a == WDA_EXCLUDEFROMCAPTURE,
        None => false,
    }
}

/// Extended style after hiding from (or restoring to) the taskbar and
/// Alt+Tab; `None` when the style reads as 0, which means it could not be
/// read and nothing is changed.
pub open spec fn taskbar_ex_style_spec(style: i32, hide: bool) -> Option<i32> {
    if style == 0 {
        None
    } else if hide {
        Some((style | WS_EX_TOOLWINDOW) & !WS_EX_APPWINDOW)
    } else {
        Some((style | WS_EX_APPWINDOW) & !WS_EX_TOOLWINDOW)
    }
}

/// Computes the new extended style for `HideFromTaskbar`.
pub fn taskbar_ex_style(style: i32, hide: bool) -> (r: Option<i32>)
    ensures
        r == taskbar_ex_style_spec(style, hide),
{
    if style == 0 {
        return None;
    }
    if hide {
        Some((style | WS_EX_TOOLWINDOW) & !WS_EX_APPWINDOW)
    } else {
        Some((style | WS_EX_APPWINDOW) & !WS_EX_TOOLWINDOW)
    }
}

/// Hiding from the taskbar sets the tool-window bit, clears the app-window
/// bit and keeps every other bit; showing does the reverse.
pub proof fn lemma_taskbar_style_bits(style: i32, hide: bool)
    requires
        style != 0,
    ensures
        ({
            let r = taskbar_ex_style_spec(style, hide)->0;
            let others = !(WS_EX_TOOLWINDOW | WS_EX_APPWINDOW);
            &&& (r & others) == (style & others)
            &&& hide ==> (r & WS_EX_TOOLWINDOW) != 0 && (r & WS_EX_APPWINDOW) == 0
            &&& !hide ==> (r & WS_EX_APPWINDOW) != 0 && (r & WS_EX_TOOLWINDOW) == 0
        }),
{
    assert((((style | 0x80i32) & !0x40000i32) & !(0x80i32 | 0x40000i32)) == (style & !(0x80i32 | 0x40000i32))) by (bit_vector);
    assert((((style | 0x40000i32) & !0x80i32) & !(0x80i32 | 0x40000i32)) == (style & !(0x80i32 | 0x40000i32))) by (bit_vector);
    assert((((style | 0x80i32) & !0x40000i32) & 0x80i32) != 0 && (((style | 0x80i32) & !0x40000i32) & 0x40000i32) == 0) by (bit_vector);
    assert((((style | 0x40000i32) & !0x80i32) & 0x40000i32) != 0 && (((style | 0x40000i32) & !0x80i32) & 0x80i32) == 0) by (bit_vector);
}

/// Hiding twice is the same as hiding once, and a hide after a show gives
/// the same style as a hide of the unchanged style: the last request wins.
pub proof fn lemma_taskbar_last_request_wins(style: i32, first: bool, second: bool)
    requires
        style != 0,
    ensures
        taskbar_ex_style_spec(style, first) is Some,
        taskbar_ex_style_spec(taskbar_ex_style_spec(style, first)->0, second)
            == taskbar_ex_style_spec(style, second),
{
    assert(((style | 0x80i32) & !0x40000i32) != 0 && ((style | 0x40000i32) & !0x80i32) != 0) by (bit_vector);
    assert(((((style | 0x80i32) & !0x40000i32) | 0x80i32) & !0x40000i32) == ((style | 0x80i32) & !0x40000i32)) by (bit_vector);
    assert(((((style | 0x40000i32) & !0x80i32) | 0x80i32) & !0x40000i32) == ((style | 0x80i32) & !0x40000i32)) by (bit_vector);
    assert(((((style | 0x80i32) & !0x40000i32) | 0x40000i32) & !0x80i32) == ((style | 0x40000i32) & !0x80i32)) by (bit_vector);
    assert(((((style | 0x40000i32) & !0x80i32) | 0x40000i32) & !0x80i32) == ((style | 0x40000i32) & !0x80i32)) by (bit_vector);
}

/// Class name of the Windows 11 Task View / Alt+Tab overlay.
pub open spec fn is_task_view_class_spec(class_name: Option<String>) -> bool {
    class_name matches Some(c) && c@ == "XamlExplorerHostIslandWindow"@
}

/// Whether a window class (`None` when it could not be read) is the Task View
/// / Alt+Tab overlay; the `_WASDK` variant does not count.
pub fn is_task_switching_class(class_name: &Option<String>) -> (r: bool)
    ensures
        r == is_task_view_class_spec(*class_name),
{
    match class_name {
        Some(c) => same_text(c.as_str(), "XamlExplorerHostIslandWindow"),
        None => false,
    }
}

/// When the explorer hook is switched, an existing window gets the new
/// affinity when it belongs to this process and is the Task View overlay.
pub fn targets_existing_task_view(window_pid: u32, our_pid: u32, class_name: &Option<String>) -> (r: bool)
    ensures
        r == (window_pid == our_pid && is_task_view_class_spec(*class_name)),
{
    window_pid == our_pid && is_task_switching_class(class_name)
}

/// What the in-process hook does with a window event.
#[derive(Clone, Copy, Debug, PartialEq, Eq, Structural)]
pub enum HookAction {
    /// Leave the window alone.
    Skip,
    /// Re-apply capture exclusion if it was lost (moves, resizes, ...).
    Reverify,
    /// Apply capture exclusion to a created or shown window.
    Protect,
}

/// Shell classes the hook never touches outside explorer mode.
pub open spec fn is_shell_class(c: Seq<char>) -> bool {
    c == "Progman"@ || c == "WorkerW"@ || c == "Shell_TrayWnd"@
}

/// Decision of the in-process hook for one event.
pub open spec fn hook_action_spec(
    event: u32,
    id_object: i32,
    id_child: i32,
    hwnd: usize,
    style: i32,
    class_name: Option<String>,
    explorer_mode: bool,
) -> HookAction {
    if id_object != 0 || id_child != 0 || hwnd == 0 || (style & WS_CHILD) != 0 {
        HookAction::Skip
    } else if explorer_mode && !is_task_view_class_spec(class_name) {
        HookAction::Skip
    } else if !explorer_mode && (class_name matches Some(c) && is_shell_class(c@)) {
        HookAction::Skip
    } else if event == EVENT_OBJECT_SHOW && (style & WS_VISIBLE) == 0 {
        HookAction::Skip
    } else if event != EVENT_OBJECT_CREATE && event != EVENT_OBJECT_SHOW {
        HookAction::Reverify
    } else {
        HookAction::Protect
    }
}

/// Decides what the in-process hook does with an event; `class_name` is
/// `None` when the class could not be read.
pub fn hook_action(
    event: u32,
    id_object: i32,
    id_child: i32,
    hwnd: usize,
    style: i32,
    class_name: &Option<String>,
    explorer_mode: bool,
) -> (a: HookAction)
    ensures
        a == hook_action_spec(event, id_object, id_child, hwnd, style, *class_name, explorer_mode),
{
    if id_object != 0 || id_child != 0 {
        return HookAction::Skip;
    }
    if hwnd == 0 {
        return HookAction::Skip;
    }
    if style & WS_CHILD != 0 {
        return HookAction::Skip;
    }
    match class_name {
        Some(c) => {
            if explorer_mode {
                if !same_text(c.as_str(), "XamlExplorerHostIslandWindow") {
                    return HookAction::Skip;
                }
            } else {
                if same_text(c.as_str(), "Progman") || same_text(c.as_str(), "WorkerW")
                    || same_text(c.as_str(), "Shell_TrayWnd") {
                    return HookAction::Skip;
                }
            }
        },
        None => {
            if explorer_mode {
                return HookAction::Skip;
            }
        },
    }
    if event == EVENT_OBJECT_SHOW && style & WS_VISIBLE == 0 {
        return HookAction::Skip;
    }
    if event != EVENT_OBJECT_CREATE && event != EVENT_OBJECT_SHOW {
        return HookAction::Reverify;
    }
    HookAction::Protect
}

/// After protecting a window, whether it is also cloaked until exclusion has
/// propagated: never in explorer mode (the overlay must show at once), always
/// at creation, and at show time only when exclusion was not set before.
pub open spec fn cloak_after_protect_spec(event: u32, explorer_mode: bool, wda_was_set: bool) -> bool {
    !explorer_mode && (event == EVENT_OBJECT_CREATE || !wda_was_set)
}

/// Decides whether a protected window is cloaked until exclusion propagates.
pub fn cloak_after_protect(event: u32, explorer_mode: bool, wda_was_set: bool) -> (r: bool)
    ensures
        r == cloak_after_protect_spec(event, explorer_mode, wda_was_set),
{
    if explorer_mode {
        false
    } else if event == EVENT_OBJECT_CREATE {
        true
    } else {
        !wda_was_set
    }
}

/// Waits before each check of the cloak removal, in milliseconds: the first
/// check comes after 80 ms, each retry 20 ms later.
pub fn uncloak_delay_ms(check: u32) -> (ms: u64)
    ensures
        ms == (if check == 0 { 80u64 } else { 20u64 }),
{
    if check == 0 {
        80
    } else {
        20
    }
}

/// Number of retries after the first check.
pub const UNCLOAK_RETRIES: u32 = 3;

/// One step of the cloak removal.
#[derive(Clone, Copy, Debug, PartialEq, Eq, Structural)]
pub enum UncloakStep {
    /// The window is gone: stop without touching it.
    Abort,
    /// Remove the cloak now.
    Uncloak,
    /// Exclusion has not propagated yet: wait and check again.
    Retry,
}

/// Decision at check number `check` (0 for the first), given whether the
/// window still exists and whether capture exclusion is active.
pub open spec fn uncloak_step_spec(check: u32, alive: bool, wda_active: bool) -> UncloakStep {
    if !alive {
        UncloakStep::Abort
    } else if wda_active || check >= UNCLOAK_RETRIES {
        UncloakStep::Uncloak
    } else {
        UncloakStep::Retry
    }
}

/// Decides one step of the cloak removal.
pub fn uncloak_step(check: u32, alive: bool, wda_active: bool) -> (s: UncloakStep)
    ensures
        s == uncloak_step_spec(check, alive, wda_active),
{
    if !alive {
        UncloakStep::Abort
    } else if wda_active || check >= UNCLOAK_RETRIES {
        UncloakStep::Uncloak
    } else {
        UncloakStep::Retry
    }
}

/// The cloak removal ends after at most four checks: the last one never
/// asks to retry, and a live window is uncloaked unless it is retried.
pub proof fn lemma_uncloak_terminates(alive: bool, wda_active: bool)
    ensures
        uncloak_step_spec(UNCLOAK_RETRIES, alive, wda_active) != UncloakStep::Retry,
        forall|c: u32| #[trigger] uncloak_step_spec(c, true, wda_active) != UncloakStep::Abort,
        forall|c: u32| #[trigger] uncloak_step_spec(c, true, true) == UncloakStep::Uncloak,
{
}

/// State of the in-process hook.
pub struct HookStateView {
    /// The hook is (being) registered and its keep-alive thread runs.
    pub active: bool,
    /// Only the Task View overlay is protected (hook inside explorer.exe).
    pub explorer_mode: bool,
}

/// State of the in-process hook inside one target process.
pub struct HookState {
    active: bool,
    explorer_mode: bool,
}

impl View for HookState {
    type V = HookStateView;

    closed spec fn view(&self) -> HookStateView {
        HookStateView { active: self.active, explorer_mode: self.explorer_mode }
    }
}

/// An enable request: registration is needed only when the hook is not
/// active, and the hook counts as active from then on.
pub open spec fn request_enable_spec(s: HookStateView) -> (HookStateView, bool) {
    (HookStateView { active: true, ..s }, !s.active)
}

impl HookState {
    /// Inactive, not in explorer mode.
    pub fn new() -> (s: HookState)
        ensures
            s@ == (HookStateView { active: false, explorer_mode: false }),
    {
        HookState { active: false, explorer_mode: false }
    }

    /// Whether the hook is active.
    pub fn is_active(&self) -> (r: bool)
        ensures
            r == self@.active,
    {
        self.active
    }

    /// Whether the hook runs in explorer mode.
    pub fn explorer_mode(&self) -> (r: bool)
        ensures
            r == self@.explorer_mode,
    {
        self.explorer_mode
    }

    /// Enable request: returns whether a registration must be started; when
    /// the hook is already active the request succeeds at once.
    pub fn request_enable(&mut self) -> (register: bool)
        ensures
            (final(self)@, register) == request_enable_spec(old(self)@),
    {
        let register = !self.active;
        self.active = true;
        register
    }

    /// The registration failed: the hook is inactive again, so a later
    /// request retries.
    pub fn registration_failed(&mut self)
        ensures
            final(self)@ == (HookStateView { active: false, ..old(self)@ }),
    {
        self.active = false;
    }

    /// Disable request: the keep-alive thread stops and unregisters the hook.
    /// Always succeeds.
    pub fn disable(&mut self) -> (ok: bool)
        ensures
            ok,
            final(self)@ == (HookStateView { active: false, ..old(self)@ }),
    {
        self.active = false;
        true
    }

    /// Start of an explorer-mode request: enabling switches explorer mode on
    /// before the hook is enabled.
    pub fn begin_explorer_request(&mut self, enable: bool)
        ensures
            final(self)@ == (if enable { HookStateView { explorer_mode: true, ..old(self)@ } } else { old(self)@ }),
    {
        if enable {
            self.explorer_mode = true;
        }
    }

    /// End of an explorer-mode request: disabling switches explorer mode off
    /// after the hook is disabled.
    pub fn end_explorer_request(&mut self, enable: bool)
        ensures
            final(self)@ == (if !enable { HookStateView { explorer_mode: false, ..old(self)@ } } else { old(self)@ }),
    {
        if !enable {
            self.explorer_mode = false;
        }
    }
}

/// Result of an enable request whose registration was started: what the
/// registering thread reported, or failure when nothing came within the wait.
pub fn enable_result(reported: Option<bool>) -> (ok: bool)
    ensures
        ok == (reported == Some(true)),
{
    match reported {
        Some(b) => b,
        None => false,
    }
}

/// Enabling is idempotent: a second request while active registers nothing.
pub proof fn lemma_enable_idempotent(s: HookStateView)
    ensures
        !request_enable_spec(request_enable_spec(s).0).1,
        request_enable_spec(request_enable_spec(s).0).0 == request_enable_spec(s).0,
{
}

/// After a disable, or a failed registration, the next enable registers again.
pub proof fn lemma_disable_allows_reenable(s: HookStateView)
    ensures
        request_enable_spec(HookStateView { active: false, ..s }).1,
{
}

/// The hook's rules: it leaves alone non-window objects, null handles and
/// child windows; outside explorer mode it never touches the desktop
/// (`Progman`, `WorkerW`) or the taskbar (`Shell_TrayWnd`); in explorer mode
/// it only touches the Task View overlay. A window it may touch is
/// protected when created, protected when shown only if `WS_VISIBLE` is set,
/// and re-checked on every other event.
pub proof fn lemma_hook_action_rules(
    event: u32,
    id_object: i32,
    id_child: i32,
    hwnd: usize,
    style: i32,
    class_name: Option<String>,
    explorer_mode: bool,
)
    ensures
        (id_object != 0 || id_child != 0 || hwnd == 0 || (style & 0x4000_0000i32) != 0)
            ==> hook_action_spec(event, id_object, id_child, hwnd, style, class_name, explorer_mode) == HookAction::Skip,
        (!explorer_mode && (class_name matches Some(c)
            && (c@ == "Progman"@ || c@ == "WorkerW"@ || c@ == "Shell_TrayWnd"@)))
            ==> hook_action_spec(event, id_object, id_child, hwnd, style, class_name, explorer_mode) == HookAction::Skip,
        (explorer_mode && !(class_name matches Some(c) && c@ == "XamlExplorerHostIslandWindow"@))
            ==> hook_action_spec(event, id_object, id_child, hwnd, style, class_name, explorer_mode) == HookAction::Skip,
        ({
            let may_touch = if explorer_mode {
                class_name matches Some(c) && c@ == "XamlExplorerHostIslandWindow"@
            } else {
                !(class_name matches Some(c) && (c@ == "Progman"@ || c@ == "WorkerW"@ || c@ == "Shell_TrayWnd"@))
            };
            let a = hook_action_spec(event, id_object, id_child, hwnd, style, class_name, explorer_mode);
            (id_object == 0 && id_child == 0 && hwnd != 0 && (style & 0x4000_0000i32) == 0 && may_touch) ==> {
                &&& event == 0x8000 ==> a == HookAction::Protect
                &&& event == 0x8002 ==> (a == HookAction::Protect <==> (style & 0x1000_0000i32) != 0)
                &&& event == 0x8002 ==> a != HookAction::Reverify
                &&& (event != 0x8000 && event != 0x8002) ==> a == HookAction::Reverify
            }
        }),
{
}

/// Cloaking rules: the Task View overlay (explorer mode) is never cloaked; a
/// created window always is; a shown window is cloaked exactly when capture
/// exclusion was not yet set on it.
pub proof fn lemma_cloak_rules(event: u32, explorer_mode: bool, wda_was_set: bool)
    ensures
        explorer_mode ==> !cloak_after_protect_spec(event, explorer_mode, wda_was_set),
        (!explorer_mode && event == 0x8000) ==> cloak_after_protect_spec(event, explorer_mode, wda_was_set),
        (!explorer_mode && event == 0x8002) ==> cloak_after_protect_spec(event, explorer_mode, wda_was_set) == !wda_was_set,
{
}

} // verus!
