//! Out-of-context watcher: which window events are acted on, the set of
//! windows whose hiding is in progress, and the lifecycle of the message-pump
//! thread and the process-creation trace that feed it.

use std::collections::HashSet;
use vstd::prelude::*;
use crate::strings::{eq_ignore_ascii_case, ascii_case_eq, lowercase, texts_contain, to_lower, contains_text};

verus! {

broadcast use vstd::std_specs::hash::group_hash_axioms;

/// `WS_CHILD` window style bit.
pub const WS_CHILD: i32 = 0x4000_0000;

/// The two window events the watcher subscribes to.
#[derive(Clone, Copy, Debug, PartialEq, Eq, Structural)]
pub enum WinEventKind {
    /// `EVENT_OBJECT_CREATE`: the window was created (not yet shown).
    Create,
    /// `EVENT_OBJECT_SHOW`: the window became visible.
    Show,
}

/// An event concerns a real top-level window of another process: the window
/// object itself (`OBJID_WINDOW`, `CHILDID_SELF`), a non-null handle, visible
/// when the event is a show, without the `WS_CHILD` style, with a known owner.
pub open spec fn is_watchable_window_spec(
    kind: WinEventKind,
    id_object: i32,
    id_child: i32,
    hwnd: usize,
    visible: bool,
    style: i32,
    pid: u32,
) -> bool {
    &&& id_object == 0
    &&& id_child == 0
    &&& hwnd != 0
    &&& (kind == WinEventKind::Show ==> visible)
    &&& (style & WS_CHILD) == 0
    &&& pid != 0
}

/// Decides whether a window event passes the top-level-window filter.
/// `visible` is only consulted for show events.
pub fn is_watchable_window(
    kind: WinEventKind,
    id_object: i32,
    id_child: i32,
    hwnd: usize,
    visible: bool,
    style: i32,
    pid: u32,
) -> (r: bool)
    ensures
        r == is_watchable_window_spec(kind, id_object, id_child, hwnd, visible, style, pid),
{
    if id_object != 0 || id_child != 0 {
        return false;
    }
    if hwnd == 0 {
        return false;
    }
    if kind == WinEventKind::Show && !visible {
        return false;
    }
    if style & WS_CHILD != 0 {
        return false;
    }
    pid != 0
}

/// A process name is on the watch list: it is non-empty and its lower-cased
/// form is one of the (already lower-cased) watched names.
pub open spec fn names_match(process_name: Seq<char>, names: Seq<String>) -> bool {
    process_name.len() > 0 && texts_contain(names, lowercase(process_name))
}

/// Whether the process whose executable name is `process_name` is watched.
/// Only the process's own name is compared; parents are not consulted.
pub fn check_and_cache_match(process_name: &str, watch_names: &Vec<String>) -> (r: bool)
    ensures
        r == names_match(process_name@, watch_names@),
{
    if process_name.is_empty() {
        return false;
    }
    let lower = to_lower(process_name);
    contains_text(watch_names, lower.as_str())
}

/// What happens to a window event from a watched process.
#[derive(Clone, Copy, Debug, PartialEq, Eq, Structural)]
pub enum WatchDecision {
    /// The in-process hook already excluded the window from capture; only
    /// the delayed removal of its cloak is needed.
    DelayedUncloak,
    /// Another event for the same window is already being handled.
    AlreadyInProgress,
    /// The window is now claimed: cloak it, move it off-screen and inject.
    Protect,
}

/// A display affinity reading shows the window as already excluded.
pub open spec fn affinity_already_set(affinity: Option<u32>) -> bool {
    affinity matches Some(a) && a != 0
}

/// The abstract state of the watcher.
pub struct WatchStateView {
    /// Lower-cased executable names whose new windows are hidden.
    pub names: Seq<String>,
    /// Window handles whose hiding is in progress.
    pub processing: Set<u32>,
    /// Thread id of the running message pump, 0 when none runs.
    pub pump_thread: u32,
    /// Names the process-creation trace reacts to.
    pub etw_names: Seq<String>,
    /// Whether the process-creation trace session was ever started.
    pub etw_started: bool,
}

/// Watcher state shared by the event callbacks and the command loop.
pub struct WatchState {
    names: Vec<String>,
    processing: HashSet<u32>,
    pump_thread: u32,
    etw_names: Vec<String>,
    etw_started: bool,
}

impl View for WatchState {
    type V = WatchStateView;

    closed spec fn view(&self) -> WatchStateView {
        WatchStateView {
            names: self.names@,
            processing: self.processing@,
            pump_thread: self.pump_thread,
            etw_names: self.etw_names@,
            etw_started: self.etw_started,
        }
    }
}

/// Outcome of claiming a window: the new state and the decision.
pub open spec fn claim_spec(s: WatchStateView, hwnd: u32, affinity: Option<u32>) -> (WatchStateView, WatchDecision) {
    if affinity_already_set(affinity) {
        (s, WatchDecision::DelayedUncloak)
    } else if s.processing.contains(hwnd) {
        (s, WatchDecision::AlreadyInProgress)
    } else {
        (WatchStateView { processing: s.processing.insert(hwnd), ..s }, WatchDecision::Protect)
    }
}

/// State after the handling of `hwnd` has finished.
pub open spec fn finish_spec(s: WatchStateView, hwnd: u32) -> WatchStateView {
    WatchStateView { processing: s.processing.remove(hwnd), ..s }
}

/// State after the pump thread is told to stop, and the thread to tell.
pub open spec fn stop_spec(s: WatchStateView) -> (WatchStateView, Option<u32>) {
    if s.pump_thread != 0 {
        (WatchStateView { pump_thread: 0, ..s }, Some(s.pump_thread))
    } else {
        (s, None)
    }
}

/// State after the trace is pointed at `names`, and whether its session must
/// be started now (only the first time).
pub open spec fn etw_watch_spec(s: WatchStateView, names: Seq<String>) -> (WatchStateView, bool) {
    (WatchStateView { etw_names: names, etw_started: true, ..s }, !s.etw_started)
}

/// What a restart of the watcher asks the caller to do.
#[derive(Clone, Copy, Debug, PartialEq, Eq)]
pub struct RestartPlan {
    /// Pump thread to send `WM_QUIT` to.
    pub quit_thread: Option<u32>,
    /// Start the process-creation trace session (first time only).
    pub start_etw_session: bool,
    /// Start a new message-pump thread and record its id.
    pub start_pump: bool,
}

/// Restart: stop the old pump; with no names, stop there; otherwise point the
/// trace at the names and start a new pump.
pub open spec fn restart_spec(s: WatchStateView) -> (WatchStateView, RestartPlan) {
    let (s1, quit) = stop_spec(s);
    if s1.names.len() == 0 {
        (s1, RestartPlan { quit_thread: quit, start_etw_session: false, start_pump: false })
    } else {
        let (s2, start) = etw_watch_spec(s1, s1.names);
        (s2, RestartPlan { quit_thread: quit, start_etw_session: start, start_pump: true })
    }
}

/// Whether a newly started process with image file name `file_name` is
/// watched by the trace.
pub open spec fn etw_match_spec(s: WatchStateView, file_name: Seq<char>) -> bool {
    file_name.len() > 0 && texts_contain(s.etw_names, file_name)
}

fn clone_names(v: &Vec<String>) -> (r: Vec<String>)
    ensures
        r@ == v@,
{
    let mut r: Vec<String> = Vec::new();
    let mut i: usize = 0;
    while i < v.len()
        invariant
            i <= v.len(),
            r@ == v@.take(i as int),
        decreases v.len() - i,
    {
        r.push(v[i].clone());
        i += 1;
        assert(r@ =~= v@.take(i as int));
    }
    assert(v@.take(v.len() as int) =~= v@);
    r
}

impl WatchState {
    /// Nothing watched, nothing in progress, no pump, no trace.
    pub fn new() -> (s: WatchState)
        ensures
            s@.names.len() == 0,
            s@.processing == Set::<u32>::empty(),
            s@.pump_thread == 0,
            s@.etw_names.len() == 0,
            !s@.etw_started,
    {
        WatchState {
            names: Vec::new(),
            processing: HashSet::new(),
            pump_thread: 0,
            etw_names: Vec::new(),
            etw_started: false,
        }
    }

    /// The watched names.
    pub fn watch_names(&self) -> (r: &Vec<String>)
        ensures
            r@ == self@.names,
    {
        &self.names
    }

    /// Thread id of the running pump, 0 when none runs.
    pub fn pump_thread(&self) -> (r: u32)
        ensures
            r == self@.pump_thread,
    {
        self.pump_thread
    }

    /// Whether `hwnd` is being handled.
    pub fn is_processing(&self, hwnd: u32) -> (r: bool)
        ensures
            r == self@.processing.contains(hwnd),
    {
        self.processing.contains(&hwnd)
    }

    /// Replaces the watched names.
    pub fn set_watch_names(&mut self, names: Vec<String>)
        ensures
            final(self)@ == (WatchStateView { names: names@, ..old(self)@ }),
    {
        self.names = names;
    }

    /// Whether a process with this executable name is watched.
    pub fn matches(&self, process_name: &str) -> (r: bool)
        ensures
            r == names_match(process_name@, self@.names),
    {
        check_and_cache_match(process_name, &self.names)
    }

    /// Claims a window of a watched process for hiding, unless the in-process
    /// hook already excluded it or another event already claimed it.
    pub fn claim_window(&mut self, hwnd: u32, affinity: Option<u32>) -> (d: WatchDecision)
        ensures
            (final(self)@, d) == claim_spec(old(self)@, hwnd, affinity),
    {
        if let Some(a) = affinity {
            if a != 0 {
                return WatchDecision::DelayedUncloak;
            }
        }
        if self.processing.contains(&hwnd) {
            WatchDecision::AlreadyInProgress
        } else {
            self.processing.insert(hwnd);
            WatchDecision::Protect
        }
    }

    /// Releases a window once its handling has finished, so later events for
    /// it are handled again.
    pub fn finish_window(&mut self, hwnd: u32)
        ensures
            final(self)@ == finish_spec(old(self)@, hwnd),
    {
        self.processing.remove(&hwnd);
    }

    /// Forgets the running pump thread and returns its id, if any, so the
    /// caller can send it `WM_QUIT`.
    pub fn stop_watcher_thread(&mut self) -> (quit: Option<u32>)
        ensures
            (final(self)@, quit) == stop_spec(old(self)@),
    {
        if self.pump_thread != 0 {
            let t = self.pump_thread;
            self.pump_thread = 0;
            Some(t)
        } else {
            None
        }
    }

    /// Records the id of a newly started pump thread.
    pub fn record_watcher_thread(&mut self, tid: u32)
        ensures
            final(self)@ == (WatchStateView { pump_thread: tid, ..old(self)@ }),
    {
        self.pump_thread = tid;
    }

    /// Points the process-creation trace at `names`; returns whether the
    /// trace session must be started now, which is true on the first call only.
    pub fn etw_watch(&mut self, names: Vec<String>) -> (start: bool)
        ensures
            (final(self)@, start) == etw_watch_spec(old(self)@, names@),
    {
        self.etw_names = names;
        let start = !self.etw_started;
        self.etw_started = true;
        start
    }

    /// Whether a newly started process with image file name `file_name`
    /// (already lower-cased) is watched by the trace.
    pub fn etw_matches(&self, file_name: &str) -> (r: bool)
        ensures
            r == etw_match_spec(self@, file_name@),
    {
        if file_name.is_empty() {
            return false;
        }
        contains_text(&self.etw_names, file_name)
    }

    /// Restarts the watcher for the current names.
    pub fn restart_watcher(&mut self) -> (plan: RestartPlan)
        ensures
            (final(self)@, plan) == restart_spec(old(self)@),
    {
        let quit = self.stop_watcher_thread();
        if self.names.len() == 0 {
            return RestartPlan { quit_thread: quit, start_etw_session: false, start_pump: false };
        }
        let names = clone_names(&self.names);
        let start = self.etw_watch(names);
        RestartPlan { quit_thread: quit, start_etw_session: start, start_pump: true }
    }

    /// The `watch` command: lower-cases and installs the names, then restarts.
    pub fn serve_watch(&mut self, names: &Vec<String>) -> (plan: RestartPlan)
        ensures
            is_lowercase_of(final(self)@.names, names@),
            (final(self)@, plan) == restart_spec(WatchStateView { names: final(self)@.names, ..old(self)@ }),
    {
        let lowered = lowercase_names(names);
        self.set_watch_names(lowered);
        self.restart_watcher()
    }

    /// The `stop-watch` command: stops the pump and clears the names.
    pub fn stop_watch(&mut self) -> (quit: Option<u32>)
        ensures
            ({
                let (s1, q) = stop_spec(old(self)@);
                quit == q && final(self)@ == (WatchStateView { names: Seq::empty(), ..s1 })
            }),
    {
        let quit = self.stop_watcher_thread();
        self.set_watch_names(Vec::new());
        quit
    }
}

/// `lowered` holds the lower-cased forms of `names`, in the same order.
pub open spec fn is_lowercase_of(lowered: Seq<String>, names: Seq<String>) -> bool {
    lowered.len() == names.len() && forall|i: int| 0 <= i < names.len() ==> #[trigger] lowered[i]@ == lowercase(names[i]@)
}

/// Lower-cases each name.
pub fn lowercase_names(names: &Vec<String>) -> (r: Vec<String>)
    ensures
        is_lowercase_of(r@, names@),
{
    let mut r: Vec<String> = Vec::new();
    let mut i: usize = 0;
    while i < names.len()
        invariant
            i <= names.len(),
            r@.len() == i,
            forall|k: int| 0 <= k < i ==> #[trigger] r@[k]@ == lowercase(names@[k]@),
        decreases names.len() - i,
    {
        r.push(to_lower(names[i].as_str()));
        i += 1;
    }
    r
}

/// The in-process hook is also enabled in every other process with the same
/// executable name, except when the name is unknown or is `explorer.exe`
/// (in any ASCII case), which hosts the shell.
pub open spec fn sibling_auto_hide_spec(proc_name: Seq<char>) -> bool {
    proc_name.len() > 0 && !ascii_case_eq(proc_name, "explorer.exe"@)
}

/// Whether, after injecting into one window's process, the in-process hook is
/// enabled in all processes with that executable name.
pub fn sibling_auto_hide(proc_name: &str) -> (r: bool)
    ensures
        r == sibling_auto_hide_spec(proc_name@),
{
    !proc_name.is_empty() && !eq_ignore_ascii_case(proc_name, "explorer.exe")
}

/// The saved position is restored only when the injection succeeded; the
/// caller then still checks that the window exists.
pub open spec fn position_to_restore_spec(inject_ok: bool, saved: Option<(i32, i32)>) -> Option<(i32, i32)> {
    if inject_ok { saved } else { None }
}

/// Decides which saved position, if any, is restored after injection.
pub fn position_to_restore(inject_ok: bool, saved: Option<(i32, i32)>) -> (r: Option<(i32, i32)>)
    ensures
        r == position_to_restore_spec(inject_ok, saved),
{
    if inject_ok {
        saved
    } else {
        None
    }
}

/// Once a window is claimed, no later event for it is claimed again until its
/// handling finishes: the second of a create/show pair backs off.
pub proof fn lemma_claim_blocks_second_event(s: WatchStateView, hwnd: u32, a1: Option<u32>, a2: Option<u32>)
    requires
        claim_spec(s, hwnd, a1).1 == WatchDecision::Protect,
    ensures
        claim_spec(claim_spec(s, hwnd, a1).0, hwnd, a2).1 != WatchDecision::Protect,
{
}

/// Finishing a claimed window gives back the state from before the claim, so
/// a later event for the same window is claimed again.
pub proof fn lemma_finish_undoes_claim(s: WatchStateView, hwnd: u32, a: Option<u32>)
    requires
        claim_spec(s, hwnd, a).1 == WatchDecision::Protect,
    ensures
        finish_spec(claim_spec(s, hwnd, a).0, hwnd) == s,
        claim_spec(finish_spec(claim_spec(s, hwnd, a).0, hwnd), hwnd, a).1 == WatchDecision::Protect,
{
    assert(s.processing.insert(hwnd).remove(hwnd) =~= s.processing);
}

/// Claims of different windows do not affect each other.
pub proof fn lemma_claims_independent(s: WatchStateView, h1: u32, a1: Option<u32>, h2: u32, a2: Option<u32>)
    requires
        h1 != h2,
    ensures
        claim_spec(claim_spec(s, h1, a1).0, h2, a2).1 == claim_spec(s, h2, a2).1,
{
}

/// Stopping hands out the recorded pump thread exactly once.
pub proof fn lemma_stop_hands_out_recorded_thread(s: WatchStateView, tid: u32)
    ensures
        stop_spec(WatchStateView { pump_thread: tid, ..s }).1 == (if tid != 0 { Some(tid) } else { None }),
        stop_spec(stop_spec(s).0).1 == None::<u32>,
{
}

/// A restart always quits the pump recorded before it.
pub proof fn lemma_restart_quits_recorded_pump(s: WatchStateView, tid: u32)
    requires
        tid != 0,
    ensures
        restart_spec(WatchStateView { pump_thread: tid, ..s }).1.quit_thread == Some(tid),
{
}

/// A restart with names points the trace at exactly those names and asks for
/// a new pump; a restart without names leaves no pump running.
pub proof fn lemma_restart_follows_names(s: WatchStateView)
    ensures
        s.names.len() > 0 ==> restart_spec(s).0.etw_names == s.names && restart_spec(s).1.start_pump,
        s.names.len() == 0 ==> !restart_spec(s).1.start_pump && restart_spec(s).0.pump_thread == 0,
        restart_spec(s).0.names == s.names,
{
}

/// The trace session is started at most once, whatever names follow.
pub proof fn lemma_etw_session_started_once(s: WatchStateView, n1: Seq<String>, n2: Seq<String>)
    ensures
        !etw_watch_spec(etw_watch_spec(s, n1).0, n2).1,
        etw_watch_spec(etw_watch_spec(s, n1).0, n2).0.etw_names == n2,
{
}

/// After `stop-watch` no process name is watched.
pub proof fn lemma_cleared_names_match_nothing(name: Seq<char>)
    ensures
        !names_match(name, Seq::<String>::empty()),
{
}

/// After `watch`, a process is watched exactly when its lower-cased name
/// equals the lower-cased form of one of the requested names.
pub proof fn lemma_watch_matches_lowercased(p: Seq<char>, names: Seq<String>, lowered: Seq<String>)
    requires
        is_lowercase_of(lowered, names),
    ensures
        names_match(p, lowered) <==> (p.len() > 0 && exists|i: int| 0 <= i < names.len() && lowercase(#[trigger] names[i]@) == lowercase(p)),
{
    if p.len() > 0 {
        if names_match(p, lowered) {
            let i = choose|i: int| 0 <= i < lowered.len() && #[trigger] lowered[i]@ == lowercase(p);
            assert(lowercase(names[i]@) == lowercase(p));
        }
        if exists|i: int| 0 <= i < names.len() && lowercase(#[trigger] names[i]@) == lowercase(p) {
            let i = choose|i: int| 0 <= i < names.len() && lowercase(#[trigger] names[i]@) == lowercase(p);
            assert(lowered[i]@ == lowercase(p));
        }
    }
}

/// A freshly created top-level window is always watched: at creation the
/// window is not shown yet, so neither the visibility flag nor the
/// `WS_VISIBLE` bit matters; only the object ids, the handle, `WS_CHILD` and
/// the owner do.
pub proof fn lemma_create_events_ignore_visibility(hwnd: usize, visible: bool, style: i32, pid: u32)
    requires
        hwnd != 0,
        (style & 0x4000_0000i32) == 0,
        pid != 0,
    ensures
        is_watchable_window_spec(WinEventKind::Create, 0, 0, hwnd, visible, style, pid),
        is_watchable_window_spec(WinEventKind::Create, 0, 0, hwnd, true, style | 0x1000_0000i32, pid)
            == is_watchable_window_spec(WinEventKind::Create, 0, 0, hwnd, false, style & !0x1000_0000i32, pid),
{
    assert(((style | 0x1000_0000i32) & 0x4000_0000i32) == 0) by (bit_vector)
        requires (style & 0x4000_0000i32) == 0;
    assert(((style & !0x1000_0000i32) & 0x4000_0000i32) == 0) by (bit_vector)
        requires (style & 0x4000_0000i32) == 0;
}

/// A shown window passes the filter exactly when it is visible, given the
/// other conditions hold.
pub proof fn lemma_show_events_need_visibility(hwnd: usize, visible: bool, style: i32, pid: u32)
    requires
        hwnd != 0,
        (style & 0x4000_0000i32) == 0,
        pid != 0,
    ensures
        is_watchable_window_spec(WinEventKind::Show, 0, 0, hwnd, visible, style, pid) == visible,
{
}

/// What a claim decides: a window the in-process hook already excluded only
/// gets its cloak removed later; otherwise a window not yet being handled is
/// claimed (and added to the set), and one already being handled is left to
/// the first event. Only a claim changes the state.
pub proof fn lemma_claim_decisions(s: WatchStateView, hwnd: u32, affinity: Option<u32>)
    ensures
        (affinity matches Some(a) && a != 0) ==> claim_spec(s, hwnd, affinity) == (s, WatchDecision::DelayedUncloak),
        (affinity is None || affinity == Some(0u32)) && !s.processing.contains(hwnd) ==> {
            &&& claim_spec(s, hwnd, affinity).1 == WatchDecision::Protect
            &&& claim_spec(s, hwnd, affinity).0.processing == s.processing.insert(hwnd)
            &&& claim_spec(s, hwnd, affinity).0.names == s.names
            &&& claim_spec(s, hwnd, affinity).0.pump_thread == s.pump_thread
        },
        (affinity is None || affinity == Some(0u32)) && s.processing.contains(hwnd)
            ==> claim_spec(s, hwnd, affinity) == (s, WatchDecision::AlreadyInProgress),
{
}

/// A window is only moved back when the injection succeeded, and then to
/// exactly the position saved before it was moved away; the hook is enabled
/// in sibling processes for any known name other than explorer's, and never
/// for an unknown (empty) name.
pub proof fn lemma_after_injection_rules(inject_ok: bool, saved: Option<(i32, i32)>, proc_name: Seq<char>)
    ensures
        !inject_ok ==> position_to_restore_spec(inject_ok, saved) is None,
        inject_ok ==> position_to_restore_spec(inject_ok, saved) == saved,
        proc_name.len() == 0 ==> !sibling_auto_hide_spec(proc_name),
        (proc_name.len() > 0 && proc_name.len() != 12) ==> sibling_auto_hide_spec(proc_name),
        (proc_name.len() == 12 && forall|i: int| 0 <= i < 12
            ==> crate::strings::ascii_lower(#[trigger] proc_name[i]) == crate::strings::ascii_lower("explorer.exe"@[i]))
            ==> !sibling_auto_hide_spec(proc_name),
{
    reveal_strlit("explorer.exe");
}

} // verus!
