//! The list of windows shown to the user: which top-level windows are
//! listed, how each entry is completed with its process, parent and icon,
//! and the entries for watched processes that have no window.

use std::collections::HashSet;
use vstd::prelude::*;
use crate::strings::{same_text, to_lower, lowercase};

verus! {

broadcast use vstd::std_specs::hash::group_hash_axioms;

/// One entry of the window list.
#[derive(Debug, PartialEq, Eq)]
pub struct WindowInfo {
    /// Window handle, 0 for a process without a window.
    pub hwnd: u32,
    /// Window title (or a name given to shell windows without one).
    pub title: String,
    /// Window class name.
    pub class_name: String,
    /// Owning process id.
    pub pid: u32,
    /// Parent of the owning process, 0 when unknown.
    pub parent_pid: u32,
    /// The window is currently excluded from capture.
    pub hidden: bool,
    /// Full path of the process executable.
    pub exe_path: String,
    /// Executable file name, e.g. `chrome.exe`.
    pub process_name: String,
    /// `data:image/png;base64,...` icon, empty when none.
    pub icon_data_url: String,
    /// The entry is a running process with no visible window (tray apps).
    pub no_window: bool,
}

/// Abstract value of a list entry.
pub struct WindowInfoView {
    pub hwnd: u32,
    pub title: Seq<char>,
    pub class_name: Seq<char>,
    pub pid: u32,
    pub parent_pid: u32,
    pub hidden: bool,
    pub exe_path: Seq<char>,
    pub process_name: Seq<char>,
    pub icon_data_url: Seq<char>,
    pub no_window: bool,
}

impl View for WindowInfo {
    type V = WindowInfoView;

    open spec fn view(&self) -> WindowInfoView {
        WindowInfoView {
            hwnd: self.hwnd,
            title: self.title@,
            class_name: self.class_name@,
            pid: self.pid,
            parent_pid: self.parent_pid,
            hidden: self.hidden,
            exe_path: self.exe_path@,
            process_name: self.process_name@,
            icon_data_url: self.icon_data_url@,
            no_window: self.no_window,
        }
    }
}

/// Views of a sequence of entries.
pub open spec fn views(ws: Seq<WindowInfo>) -> Seq<WindowInfoView> {
    ws.map_values(|w: WindowInfo| w@)
}

/// A copy of an entry.
pub fn copy_window(w: &WindowInfo) -> (r: WindowInfo)
    ensures
        r@ == w@,
{
    WindowInfo {
        hwnd: w.hwnd,
        title: w.title.clone(),
        class_name: w.class_name.clone(),
        pid: w.pid,
        parent_pid: w.parent_pid,
        hidden: w.hidden,
        exe_path: w.exe_path.clone(),
        process_name: w.process_name.clone(),
        icon_data_url: w.icon_data_url.clone(),
        no_window: w.no_window,
    }
}

/// What was read about one top-level window during enumeration.
#[derive(Debug)]
pub struct WindowProbe {
    /// Display affinity, `None` when it could not be read.
    pub affinity: Option<u32>,
    /// `IsWindowVisible`.
    pub visible: bool,
    /// Window rectangle (all 0 when it could not be read).
    pub left: i32,
    pub top: i32,
    pub right: i32,
    pub bottom: i32,
    /// Class name, empty when it could not be read.
    pub class_name: String,
    /// Window text, empty when there is none.
    pub title: String,
    /// DWM cloak reason, `None` when it could not be read.
    pub cloaked: Option<u32>,
    /// Owning process id.
    pub pid: u32,
    /// Owning thread id, 0 when the window is gone.
    pub thread_id: u32,
}

/// System classes that never appear in the list: the tray overflow popup,
/// the wallpaper compositor layer and the `MS_WebCheckMonitor` helper window.
/// The taskbar and Task View hosts stay listed so they can be hidden.
pub open spec fn is_excluded_class(c: Seq<char>) -> bool {
    c == "NotifyIconOverflowWindow"@ || c == "WorkerW"@ || c == "MS_WebCheckMonitor"@
}

/// Names given to shell windows that have no title: the taskbars and the
/// Alt+Tab / Task View host.
pub open spec fn synthetic_title(c: Seq<char>) -> Option<Seq<char>> {
    if c == "Shell_TrayWnd"@ || c == "Shell_SecondaryTrayWnd"@ {
        Some("Taskbar"@)
    } else if c == "MultitaskingViewFrame"@ {
        Some("Alt+Tab Switcher"@)
    } else {
        None
    }
}

/// The list entry for an enumerated window, if it is listed.
///
/// A window is listed when its affinity can be read; it is visible or
/// hidden by us; a visible one has a non-empty rectangle; its class is not
/// excluded; it has a title or a synthetic one; it is not cloaked by the
/// system (or is hidden by us); and its owner is known.
pub open spec fn window_entry_spec(hwnd: u32, p: WindowProbe) -> Option<WindowInfoView> {
    match p.affinity {
        None => None,
        Some(a) => {
            let hidden = a != 0;
            let title = if p.title@.len() > 0 { Some(p.title@) } else { synthetic_title(p.class_name@) };
            if !p.visible && !hidden {
                None
            } else if !hidden && p.right - p.left == 0 && p.bottom - p.top == 0 {
                None
            } else if is_excluded_class(p.class_name@) {
                None
            } else if title is None {
                None
            } else if !hidden && (p.cloaked matches Some(c) ==> c != 0) {
                None
            } else if p.thread_id == 0 {
                None
            } else {
                Some(WindowInfoView {
                    hwnd,
                    title: title->0,
                    class_name: p.class_name@,
                    pid: p.pid,
                    parent_pid: 0,
                    hidden,
                    exe_path: Seq::empty(),
                    process_name: Seq::empty(),
                    icon_data_url: Seq::empty(),
                    no_window: false,
                })
            }
        },
    }
}

/// View of an optional entry.
pub open spec fn opt_view(o: Option<WindowInfo>) -> Option<WindowInfoView> {
    match o {
        Some(w) => Some(w@),
        None => None,
    }
}

/// Decides whether an enumerated window is listed and builds its entry.
pub fn window_entry(hwnd: u32, probe: WindowProbe) -> (r: Option<WindowInfo>)
    ensures
        opt_view(r) == window_entry_spec(hwnd, probe),
{
    let ghost p = probe;
    let a = match probe.affinity {
        None => return None,
        Some(a) => a,
    };
    let hidden = a != 0;
    if !probe.visible && !hidden {
        return None;
    }
    if !hidden && probe.right == probe.left && probe.bottom == probe.top {
        return None;
    }
    let class = probe.class_name;
    if same_text(class.as_str(), "NotifyIconOverflowWindow") || same_text(class.as_str(), "WorkerW")
        || same_text(class.as_str(), "MS_WebCheckMonitor") {
        return None;
    }
    let title: String = if !probe.title.as_str().is_empty() {
        probe.title
    } else if same_text(class.as_str(), "Shell_TrayWnd") || same_text(class.as_str(), "Shell_SecondaryTrayWnd") {
        String::from_str("Taskbar")
    } else if same_text(class.as_str(), "MultitaskingViewFrame") {
        String::from_str("Alt+Tab Switcher")
    } else {
        return None;
    };
    let system_cloaked = match probe.cloaked {
        None => true,
        Some(c) => c != 0,
    };
    if system_cloaked && !hidden {
        return None;
    }
    if probe.thread_id == 0 {
        return None;
    }
    Some(WindowInfo {
        hwnd,
        title,
        class_name: class,
        pid: probe.pid,
        parent_pid: 0,
        hidden,
        exe_path: String::new(),
        process_name: String::new(),
        icon_data_url: String::new(),
        no_window: false,
    })
}

// ---------------------------------------------------------------------------
// Keyed tables: (pid, value) pairs read by first match.
// ---------------------------------------------------------------------------

/// `i` is the first position whose key is `key`.
pub open spec fn is_first_key<X>(entries: Seq<(u32, X)>, key: u32, i: int) -> bool {
    &&& 0 <= i < entries.len()
    &&& entries[i].0 == key
    &&& forall|k: int| 0 <= k < i ==> #[trigger] entries[k].0 != key
}

/// The value of the first pair whose key is `key`.
pub open spec fn lookup<X>(entries: Seq<(u32, X)>, key: u32) -> Option<X> {
    if exists|i: int| is_first_key(entries, key, i) {
        Some(entries[choose|i: int| is_first_key(entries, key, i)].1)
    } else {
        None
    }
}

proof fn lemma_first_key_unique<X>(entries: Seq<(u32, X)>, key: u32, i: int, j: int)
    requires
        is_first_key(entries, key, i),
        is_first_key(entries, key, j),
    ensures
        i == j,
{
    if i < j {
        assert(entries[i].0 != key);
    } else if j < i {
        assert(entries[j].0 != key);
    }
}

/// Position of the first pair whose key is `key`.
pub fn find_key<X>(entries: &Vec<(u32, X)>, key: u32) -> (r: Option<usize>)
    ensures
        match r {
            Some(i) => i < entries.len() && lookup(entries@, key) == Some(entries@[i as int].1),
            None => lookup(entries@, key) is None,
        },
{
    let mut i: usize = 0;
    while i < entries.len()
        invariant
            i <= entries.len(),
            forall|k: int| 0 <= k < i ==> #[trigger] entries@[k].0 != key,
        decreases entries.len() - i,
    {
        if entries[i].0 == key {
            proof {
                assert(is_first_key(entries@, key, i as int));
                let c = choose|c: int| is_first_key(entries@, key, c);
                lemma_first_key_unique(entries@, key, c, i as int);
            }
            return Some(i);
        }
        i += 1;
    }
    proof {
        assert forall|c: int| !is_first_key(entries@, key, c) by {
            if is_first_key(entries@, key, c) {
                assert(entries@[c].0 != key);
            }
        }
    }
    None
}

/// Executable path and name of a process, as read from the system (both
/// empty when the process could not be queried).
#[derive(Debug, PartialEq, Eq)]
pub struct ProcessInfo {
    pub exe_path: String,
    pub process_name: String,
}

/// Distinct values of `s`, in order of first appearance.
pub open spec fn distinct_in_order(s: Seq<u32>) -> Seq<u32>
    decreases s.len(),
{
    if s.len() == 0 {
        s
    } else {
        let r = distinct_in_order(s.drop_last());
        if r.contains(s.last()) {
            r
        } else {
            r.push(s.last())
        }
    }
}

/// The owning process ids of the entries.
pub open spec fn pids_of(ws: Seq<WindowInfo>) -> Seq<u32> {
    ws.map_values(|w: WindowInfo| w.pid)
}

/// The process ids of the entries, each once, in order of first appearance:
/// the processes to query.
pub fn distinct_pids(windows: &Vec<WindowInfo>) -> (r: Vec<u32>)
    ensures
        r@ == distinct_in_order(pids_of(windows@)),
{
    let mut r: Vec<u32> = Vec::new();
    let mut i: usize = 0;
    while i < windows.len()
        invariant
            i <= windows.len(),
            r@ == distinct_in_order(pids_of(windows@).take(i as int)),
        decreases windows.len() - i,
    {
        let pid = windows[i].pid;
        assert(pids_of(windows@).take(i + 1).drop_last() =~= pids_of(windows@).take(i as int));
        let mut seen = false;
        let mut k: usize = 0;
        while k < r.len()
            invariant
                k <= r.len(),
                seen == exists|m: int| 0 <= m < k && r@[m] == pid,
            decreases r.len() - k,
        {
            if r[k] == pid {
                seen = true;
            }
            k += 1;
        }
        if !seen {
            r.push(pid);
        }
        i += 1;
    }
    assert(pids_of(windows@).take(windows.len() as int) =~= pids_of(windows@));
    r
}

/// Path of the entry's process according to `infos`, empty when absent.
pub open spec fn info_exe(infos: Seq<(u32, ProcessInfo)>, pid: u32) -> Seq<char> {
    match lookup(infos, pid) {
        Some(i) => i.exe_path@,
        None => Seq::empty(),
    }
}

/// Executable name of the entry's process according to `infos`, empty when
/// absent.
pub open spec fn info_name(infos: Seq<(u32, ProcessInfo)>, pid: u32) -> Seq<char> {
    match lookup(infos, pid) {
        Some(i) => i.process_name@,
        None => Seq::empty(),
    }
}

/// Fills in each entry's executable path and name from the per-process
/// table.
pub fn attach_process_info(windows: &Vec<WindowInfo>, infos: &Vec<(u32, ProcessInfo)>) -> (r: Vec<WindowInfo>)
    ensures
        r@.len() == windows@.len(),
        forall|i: int| 0 <= i < windows@.len() ==> #[trigger] r@[i]@ == (WindowInfoView {
            exe_path: info_exe(infos@, windows@[i].pid),
            process_name: info_name(infos@, windows@[i].pid),
            ..windows@[i]@
        }),
{
    let mut r: Vec<WindowInfo> = Vec::new();
    let mut i: usize = 0;
    while i < windows.len()
        invariant
            i <= windows.len(),
            r@.len() == i,
            forall|k: int| 0 <= k < i ==> #[trigger] r@[k]@ == (WindowInfoView {
                exe_path: info_exe(infos@, windows@[k].pid),
                process_name: info_name(infos@, windows@[k].pid),
                ..windows@[k]@
            }),
        decreases windows.len() - i,
    {
        let mut w = copy_window(&windows[i]);
        match find_key(infos, w.pid) {
            Some(j) => {
                w.exe_path = infos[j].1.exe_path.clone();
                w.process_name = infos[j].1.process_name.clone();
            },
            None => {
                w.exe_path = String::new();
                w.process_name = String::new();
            },
        }
        r.push(w);
        i += 1;
    }
    r
}

/// Fills in each entry's parent process id from the (pid, parent) table,
/// 0 when the process is absent.
pub fn attach_parent_pids(windows: &Vec<WindowInfo>, parents: &Vec<(u32, u32)>) -> (r: Vec<WindowInfo>)
    ensures
        r@.len() == windows@.len(),
        forall|i: int| 0 <= i < windows@.len() ==> #[trigger] r@[i]@ == (WindowInfoView {
            parent_pid: match lookup(parents@, windows@[i].pid) { Some(p) => p, None => 0 },
            ..windows@[i]@
        }),
{
    let mut r: Vec<WindowInfo> = Vec::new();
    let mut i: usize = 0;
    while i < windows.len()
        invariant
            i <= windows.len(),
            r@.len() == i,
            forall|k: int| 0 <= k < i ==> #[trigger] r@[k]@ == (WindowInfoView {
                parent_pid: match lookup(parents@, windows@[k].pid) { Some(p) => p, None => 0 },
                ..windows@[k]@
            }),
        decreases windows.len() - i,
    {
        let mut w = copy_window(&windows[i]);
        w.parent_pid = match find_key(parents, w.pid) {
            Some(j) => parents[j].1,
            None => 0,
        };
        r.push(w);
        i += 1;
    }
    r
}

/// Sets each entry's icon from the (pid, icon) table; entries whose process
/// is absent keep their icon.
pub fn attach_icons(windows: &Vec<WindowInfo>, icons: &Vec<(u32, String)>) -> (r: Vec<WindowInfo>)
    ensures
        r@.len() == windows@.len(),
        forall|i: int| 0 <= i < windows@.len() ==> #[trigger] r@[i]@ == (WindowInfoView {
            icon_data_url: match lookup(icons@, windows@[i].pid) { Some(u) => u@, None => windows@[i].icon_data_url@ },
            ..windows@[i]@
        }),
{
    let mut r: Vec<WindowInfo> = Vec::new();
    let mut i: usize = 0;
    while i < windows.len()
        invariant
            i <= windows.len(),
            r@.len() == i,
            forall|k: int| 0 <= k < i ==> #[trigger] r@[k]@ == (WindowInfoView {
                icon_data_url: match lookup(icons@, windows@[k].pid) { Some(u) => u@, None => windows@[k].icon_data_url@ },
                ..windows@[k]@
            }),
        decreases windows.len() - i,
    {
        let mut w = copy_window(&windows[i]);
        match find_key(icons, w.pid) {
            Some(j) => {
                w.icon_data_url = icons[j].1.clone();
            },
            None => {},
        }
        r.push(w);
        i += 1;
    }
    r
}

/// Whether an executable name is, ignoring case, the given name.
pub open spec fn names_process(process_name: Seq<char>, name: Seq<char>) -> bool {
    lowercase(process_name) == name
}

/// Whether an entry belongs to a shell host process that is never listed
/// (`applicationframehost.exe`, the container of UWP apps).
pub open spec fn is_system_host(w: WindowInfo) -> bool {
    names_process(w.process_name@, "applicationframehost.exe"@)
}

/// The entries that do not belong to a shell host process, in order.
pub open spec fn without_system_hosts(ws: Seq<WindowInfo>) -> Seq<WindowInfo>
    decreases ws.len(),
{
    if ws.len() == 0 {
        ws
    } else {
        let r = without_system_hosts(ws.drop_last());
        if is_system_host(ws.last()) {
            r
        } else {
            r.push(ws.last())
        }
    }
}

/// Removes the entries of shell host processes.
pub fn remove_system_hosts(windows: &Vec<WindowInfo>) -> (r: Vec<WindowInfo>)
    ensures
        views(r@) == views(without_system_hosts(windows@)),
{
    let mut r: Vec<WindowInfo> = Vec::new();
    let mut i: usize = 0;
    while i < windows.len()
        invariant
            i <= windows.len(),
            views(r@) == views(without_system_hosts(windows@.take(i as int))),
        decreases windows.len() - i,
    {
        assert(windows@.take(i + 1).drop_last() =~= windows@.take(i as int));
        let lower = to_lower(windows[i].process_name.as_str());
        if !same_text(lower.as_str(), "applicationframehost.exe") {
            let ghost before = r@;
            r.push(copy_window(&windows[i]));
            assert(views(r@) =~= views(before).push(windows@[i as int]@));
            assert(views(without_system_hosts(windows@.take(i + 1))) =~= views(without_system_hosts(windows@.take(i as int))).push(windows@[i as int]@));
        }
        i += 1;
    }
    assert(windows@.take(windows.len() as int) =~= windows@);
    r
}

/// Where the icon of each process comes from.
#[derive(Debug, PartialEq, Eq)]
pub struct IconPlan {
    /// (pid, first window handle) of processes whose window icon is used.
    pub by_window: Vec<(u32, u32)>,
    /// (pid, executable path) of processes whose window icon changes with
    /// what they show (`explorer.exe`); their icon is read from the file.
    pub by_exe: Vec<(u32, String)>,
}

/// Keys of a table.
pub open spec fn keys<X>(entries: Seq<(u32, X)>) -> Seq<u32> {
    entries.map_values(|e: (u32, X)| e.0)
}

/// The icon sources for the entries, first window (or path) per process.
pub open spec fn icon_plan_spec(ws: Seq<WindowInfo>) -> (Seq<(u32, u32)>, Seq<(u32, String)>)
    decreases ws.len(),
{
    if ws.len() == 0 {
        (Seq::empty(), Seq::empty())
    } else {
        let (bw, be) = icon_plan_spec(ws.drop_last());
        let w = ws.last();
        if names_process(w.process_name@, "explorer.exe"@) {
            if keys(be).contains(w.pid) {
                (bw, be)
            } else {
                (bw, be.push((w.pid, w.exe_path)))
            }
        } else {
            if keys(bw).contains(w.pid) {
                (bw, be)
            } else {
                (bw.push((w.pid, w.hwnd)), be)
            }
        }
    }
}

fn has_key<X>(entries: &Vec<(u32, X)>, key: u32) -> (r: bool)
    ensures
        r == keys(entries@).contains(key),
{
    let mut i: usize = 0;
    while i < entries.len()
        invariant
            i <= entries.len(),
            forall|k: int| 0 <= k < i ==> #[trigger] entries@[k].0 != key,
        decreases entries.len() - i,
    {
        if entries[i].0 == key {
            assert(keys(entries@)[i as int] == key);
            return true;
        }
        i += 1;
    }
    assert forall|k: int| 0 <= k < keys(entries@).len() implies keys(entries@)[k] != key by {
        assert(entries@[k].0 != key);
    }
    false
}

/// Chooses, per process, where its icon is read from.
pub fn icon_plan(windows: &Vec<WindowInfo>) -> (plan: IconPlan)
    ensures
        (plan.by_window@, plan.by_exe@) == icon_plan_spec(windows@),
{
    let mut by_window: Vec<(u32, u32)> = Vec::new();
    let mut by_exe: Vec<(u32, String)> = Vec::new();
    let mut i: usize = 0;
    while i < windows.len()
        invariant
            i <= windows.len(),
            (by_window@, by_exe@) == icon_plan_spec(windows@.take(i as int)),
        decreases windows.len() - i,
    {
        assert(windows@.take(i + 1).drop_last() =~= windows@.take(i as int));
        let w = &windows[i];
        let lower = to_lower(w.process_name.as_str());
        if same_text(lower.as_str(), "explorer.exe") {
            if !has_key(&by_exe, w.pid) {
                by_exe.push((w.pid, w.exe_path.clone()));
            }
        } else {
            if !has_key(&by_window, w.pid) {
                by_window.push((w.pid, w.hwnd));
            }
        }
        i += 1;
    }
    assert(windows@.take(windows.len() as int) =~= windows@);
    IconPlan { by_window, by_exe }
}

// ---------------------------------------------------------------------------
// Processes without windows
// ---------------------------------------------------------------------------

/// One row of a process snapshot.
#[derive(Debug, PartialEq, Eq)]
pub struct ProcessEntry {
    pub pid: u32,
    pub parent_pid: u32,
    /// Executable file name as the snapshot reports it.
    pub exe_name: String,
}

/// Whether one of `names` is, ignoring case, the executable name `exe`.
pub open spec fn named_in(names: Seq<String>, exe: Seq<char>) -> bool {
    exists|i: int| 0 <= i < names.len() && lowercase(#[trigger] names[i]@) == lowercase(exe)
}

/// Process ids of snapshot rows.
pub open spec fn entry_pids(es: Seq<ProcessEntry>) -> Seq<u32> {
    es.map_values(|e: ProcessEntry| e.pid)
}

/// The snapshot rows, in order, of processes named in `names`, not in
/// `exclude`, each process id once.
pub open spec fn tray_selection(names: Seq<String>, exclude: Set<u32>, rows: Seq<ProcessEntry>) -> Seq<ProcessEntry>
    decreases rows.len(),
{
    if rows.len() == 0 {
        rows
    } else {
        let r = tray_selection(names, exclude, rows.drop_last());
        let e = rows.last();
        if !exclude.contains(e.pid) && !entry_pids(r).contains(e.pid) && named_in(names, e.exe_name@) {
            r.push(e)
        } else {
            r
        }
    }
}

fn named_in_exec(lowered: &Vec<String>, names: &Vec<String>, exe: &str) -> (r: bool)
    requires
        lowered@.len() == names@.len(),
        forall|i: int| 0 <= i < names@.len() ==> #[trigger] lowered@[i]@ == lowercase(names@[i]@),
    ensures
        r == named_in(names@, exe@),
{
    let exe_lower = to_lower(exe);
    let mut i: usize = 0;
    while i < lowered.len()
        invariant
            i <= lowered.len(),
            lowered@.len() == names@.len(),
            forall|k: int| 0 <= k < names@.len() ==> #[trigger] lowered@[k]@ == lowercase(names@[k]@),
            exe_lower@ == lowercase(exe@),
            forall|k: int| 0 <= k < i ==> lowercase(#[trigger] names@[k]@) != lowercase(exe@),
        decreases lowered.len() - i,
    {
        if same_text(lowered[i].as_str(), exe_lower.as_str()) {
            assert(lowercase(names@[i as int]@) == lowercase(exe@));
            return true;
        }
        assert(lowered@[i as int]@ == lowercase(names@[i as int]@));
        i += 1;
    }
    false
}

fn copy_entry(e: &ProcessEntry) -> (r: ProcessEntry)
    ensures
        r == *e,
{
    ProcessEntry { pid: e.pid, parent_pid: e.parent_pid, exe_name: e.exe_name.clone() }
}

/// Selects the running processes named in `names` (ignoring case) that are
/// not in `exclude_pids` (they already have a listed window), each once.
pub fn select_tray_processes(names: &Vec<String>, exclude_pids: &HashSet<u32>, snapshot: &Vec<ProcessEntry>) -> (r: Vec<ProcessEntry>)
    ensures
        r@ == tray_selection(names@, exclude_pids@, snapshot@),
{
    let lowered = crate::watcher::lowercase_names(names);
    let mut seen: HashSet<u32> = HashSet::new();
    let mut r: Vec<ProcessEntry> = Vec::new();
    let mut i: usize = 0;
    while i < snapshot.len()
        invariant
            i <= snapshot.len(),
            crate::watcher::is_lowercase_of(lowered@, names@),
            r@ == tray_selection(names@, exclude_pids@, snapshot@.take(i as int)),
            forall|p: u32| seen@.contains(p) <==> entry_pids(r@).contains(p),
        decreases snapshot.len() - i,
    {
        assert(snapshot@.take(i + 1).drop_last() =~= snapshot@.take(i as int));
        let e = &snapshot[i];
        if !exclude_pids.contains(&e.pid) && !seen.contains(&e.pid) && named_in_exec(&lowered, names, e.exe_name.as_str()) {
            let ghost before = r@;
            seen.insert(e.pid);
            r.push(copy_entry(e));
            assert(entry_pids(r@) =~= entry_pids(before).push(e.pid));
            proof {
                broadcast use vstd::seq_lib::group_seq_properties;
            }
        }
        i += 1;
    }
    assert(snapshot@.take(snapshot.len() as int) =~= snapshot@);
    r
}

/// Abstract list entry for a window-less process.
pub open spec fn tray_entry_spec(entry: ProcessEntry, exe_path: Seq<char>, process_name: Seq<char>) -> WindowInfoView {
    WindowInfoView {
        hwnd: 0,
        title: entry.exe_name@,
        class_name: Seq::empty(),
        pid: entry.pid,
        parent_pid: entry.parent_pid,
        hidden: false,
        exe_path,
        process_name: if process_name.len() == 0 { entry.exe_name@ } else { process_name },
        icon_data_url: Seq::empty(),
        no_window: true,
    }
}

/// The list entry for a watched process without a window: no handle, the
/// executable name as title, no class or icon, not hidden; the queried name
/// is used unless it is empty, then the snapshot's name.
pub fn tray_entry(entry: &ProcessEntry, exe_path: String, process_name: String) -> (w: WindowInfo)
    ensures
        w@ == tray_entry_spec(*entry, exe_path@, process_name@),
{
    let name = if process_name.as_str().is_empty() { entry.exe_name.clone() } else { process_name };
    WindowInfo {
        hwnd: 0,
        title: entry.exe_name.clone(),
        class_name: String::new(),
        pid: entry.pid,
        parent_pid: entry.parent_pid,
        hidden: false,
        exe_path,
        process_name: name,
        icon_data_url: String::new(),
        no_window: true,
    }
}

/// Process ids of the entries, as a set (to exclude them from the
/// window-less entries).
pub fn listed_pids(windows: &Vec<WindowInfo>) -> (r: HashSet<u32>)
    ensures
        forall|p: u32| r@.contains(p) <==> pids_of(windows@).contains(p),
{
    let mut r: HashSet<u32> = HashSet::new();
    let mut i: usize = 0;
    while i < windows.len()
        invariant
            i <= windows.len(),
            forall|p: u32| r@.contains(p) <==> pids_of(windows@).take(i as int).contains(p),
        decreases windows.len() - i,
    {
        assert(pids_of(windows@).take(i + 1) =~= pids_of(windows@).take(i as int).push(windows@[i as int].pid));
        r.insert(windows[i].pid);
        proof {
            broadcast use vstd::seq_lib::group_seq_properties;
        }
        i += 1;
    }
    assert(pids_of(windows@).take(windows.len() as int) =~= pids_of(windows@));
    r
}

/// Windows we excluded from capture stay listed even when they are not
/// visible, have no on-screen area or are cloaked, as long as their class is
/// not an excluded shell class, they have a (synthetic) title and an owner.
pub proof fn lemma_hidden_windows_stay_listed(hwnd: u32, p: WindowProbe)
    requires
        p.affinity matches Some(a) && a != 0,
        !is_excluded_class(p.class_name@),
        p.title@.len() > 0 || synthetic_title(p.class_name@) is Some,
        p.thread_id != 0,
    ensures
        window_entry_spec(hwnd, p) matches Some(w) && w.hidden && w.hwnd == hwnd && w.pid == p.pid,
{
}

/// Window-less entries never repeat a process and never duplicate a process
/// that already has a listed window.
pub proof fn lemma_tray_selection_distinct(names: Seq<String>, exclude: Set<u32>, rows: Seq<ProcessEntry>)
    ensures
        entry_pids(tray_selection(names, exclude, rows)).no_duplicates(),
        forall|k: int| 0 <= k < tray_selection(names, exclude, rows).len()
            ==> !exclude.contains(#[trigger] tray_selection(names, exclude, rows)[k].pid),
    decreases rows.len(),
{
    if rows.len() > 0 {
        lemma_tray_selection_distinct(names, exclude, rows.drop_last());
        let r = tray_selection(names, exclude, rows.drop_last());
        let e = rows.last();
        if !exclude.contains(e.pid) && !entry_pids(r).contains(e.pid) && named_in(names, e.exe_name@) {
            assert(entry_pids(r.push(e)) =~= entry_pids(r).push(e.pid));
            assert forall|a: int, b: int| 0 <= a < b < entry_pids(r.push(e)).len()
                implies entry_pids(r.push(e))[a] != entry_pids(r.push(e))[b] by {
                if b == r.len() {
                    assert(entry_pids(r)[a] == entry_pids(r.push(e))[a]);
                }
            }
        }
    }
}

/// Each process appears at most once among the icon sources, so each icon
/// is read once.
pub proof fn lemma_icon_plan_one_source_per_process(ws: Seq<WindowInfo>)
    ensures
        keys(icon_plan_spec(ws).0).no_duplicates(),
        keys(icon_plan_spec(ws).1).no_duplicates(),
    decreases ws.len(),
{
    if ws.len() > 0 {
        lemma_icon_plan_one_source_per_process(ws.drop_last());
        let (bw, be) = icon_plan_spec(ws.drop_last());
        let w = ws.last();
        assert(keys(bw.push((w.pid, w.hwnd))) =~= keys(bw).push(w.pid));
        assert(keys(be.push((w.pid, w.exe_path))) =~= keys(be).push(w.pid));
    }
}

/// The rows whose process id is not in `ex`, in order.
pub open spec fn without_pids(rows: Seq<ProcessEntry>, ex: Set<u32>) -> Seq<ProcessEntry>
    decreases rows.len(),
{
    if rows.len() == 0 {
        rows
    } else {
        let r = without_pids(rows.drop_last(), ex);
        if ex.contains(rows.last().pid) {
            r
        } else {
            r.push(rows.last())
        }
    }
}

proof fn lemma_without_pids_contains(rows: Seq<ProcessEntry>, ex: Set<u32>, p: u32)
    requires
        !ex.contains(p),
    ensures
        entry_pids(without_pids(rows, ex)).contains(p) <==> entry_pids(rows).contains(p),
    decreases rows.len(),
{
    broadcast use vstd::seq_lib::group_seq_properties;
    if rows.len() > 0 {
        lemma_without_pids_contains(rows.drop_last(), ex, p);
        let r = without_pids(rows.drop_last(), ex);
        let e = rows.last();
        assert(entry_pids(rows) =~= entry_pids(rows.drop_last()).push(e.pid));
        assert(entry_pids(r.push(e)) =~= entry_pids(r).push(e.pid));
    }
}

/// Excluding more processes only removes those processes: with `ex1`
/// contained in `ex2`, the selection under `ex2` is the selection under `ex1`
/// without the rows whose process is in `ex2`.
pub proof fn lemma_tray_selection_exclusion(names: Seq<String>, ex1: Set<u32>, ex2: Set<u32>, rows: Seq<ProcessEntry>)
    requires
        ex1.subset_of(ex2),
    ensures
        tray_selection(names, ex2, rows) == without_pids(tray_selection(names, ex1, rows), ex2),
    decreases rows.len(),
{
    if rows.len() > 0 {
        lemma_tray_selection_exclusion(names, ex1, ex2, rows.drop_last());
        let r1 = tray_selection(names, ex1, rows.drop_last());
        let e = rows.last();
        if !ex2.contains(e.pid) {
            lemma_without_pids_contains(r1, ex2, e.pid);
            assert(r1.push(e).drop_last() =~= r1);
        } else if !ex1.contains(e.pid) && !entry_pids(r1).contains(e.pid) && named_in(names, e.exe_name@) {
            assert(r1.push(e).drop_last() =~= r1);
        }
    }
}

/// Without names no process is selected.
pub proof fn lemma_tray_selection_no_names(ex: Set<u32>, rows: Seq<ProcessEntry>)
    ensures
        tray_selection(Seq::<String>::empty(), ex, rows).len() == 0,
    decreases rows.len(),
{
    if rows.len() > 0 {
        lemma_tray_selection_no_names(ex, rows.drop_last());
    }
}

/// Only entries of `applicationframehost.exe` (any case) are removed: every
/// kept entry belongs to another process, every entry of another process is
/// kept, and a list without such entries comes back unchanged.
pub proof fn lemma_only_frame_hosts_removed(ws: Seq<WindowInfo>)
    ensures
        forall|j: int| 0 <= j < without_system_hosts(ws).len()
            ==> lowercase(#[trigger] without_system_hosts(ws)[j].process_name@) != "applicationframehost.exe"@,
        forall|k: int| 0 <= k < ws.len() && lowercase(#[trigger] ws[k].process_name@) != "applicationframehost.exe"@
            ==> without_system_hosts(ws).contains(ws[k]),
        (forall|k: int| 0 <= k < ws.len() ==> lowercase(#[trigger] ws[k].process_name@) != "applicationframehost.exe"@)
            ==> without_system_hosts(ws) == ws,
    decreases ws.len(),
{
    if ws.len() > 0 {
        lemma_only_frame_hosts_removed(ws.drop_last());
        let r = without_system_hosts(ws.drop_last());
        let res = without_system_hosts(ws);
        let n = ws.len() - 1;
        assert forall|k: int| 0 <= k < ws.len() && lowercase(#[trigger] ws[k].process_name@) != "applicationframehost.exe"@
            implies res.contains(ws[k]) by {
            if k < n {
                assert(ws.drop_last()[k] == ws[k]);
                let j = choose|j: int| 0 <= j < r.len() && r[j] == ws[k];
                assert(res[j] == ws[k]);
            } else {
                assert(res[r.len() as int] == ws[k]);
            }
        }
        if forall|k: int| 0 <= k < ws.len() ==> lowercase(#[trigger] ws[k].process_name@) != "applicationframehost.exe"@ {
            assert forall|k: int| 0 <= k < ws.drop_last().len() implies lowercase(#[trigger] ws.drop_last()[k].process_name@) != "applicationframehost.exe"@ by {
                assert(ws.drop_last()[k] == ws[k]);
            }
            assert(lowercase(ws[n].process_name@) != "applicationframehost.exe"@);
            assert(res =~= ws);
        }
    }
}

/// Excluded system classes are never listed, whatever else holds.
pub proof fn lemma_excluded_classes_never_listed(hwnd: u32, p: WindowProbe)
    requires
        p.class_name@ == "NotifyIconOverflowWindow"@ || p.class_name@ == "WorkerW"@
            || p.class_name@ == "MS_WebCheckMonitor"@,
    ensures
        window_entry_spec(hwnd, p) is None,
{
}

/// An ordinary window (readable affinity 0, visible, with an on-screen area,
/// a title and an owner, not cloaked, of a class that is not excluded) is
/// listed as itself: its handle, title, class and owner, not hidden, with a
/// window, and nothing of its process filled in yet.
pub proof fn lemma_ordinary_window_listed(hwnd: u32, p: WindowProbe)
    requires
        p.affinity == Some(0u32),
        p.visible,
        p.right != p.left || p.bottom != p.top,
        !(p.class_name@ == "NotifyIconOverflowWindow"@ || p.class_name@ == "WorkerW"@
            || p.class_name@ == "MS_WebCheckMonitor"@),
        p.title@.len() > 0,
        p.cloaked == Some(0u32),
        p.thread_id != 0,
    ensures
        window_entry_spec(hwnd, p) matches Some(w) && {
            &&& w.hwnd == hwnd
            &&& w.title == p.title@
            &&& w.class_name == p.class_name@
            &&& w.pid == p.pid
            &&& !w.hidden
            &&& !w.no_window
            &&& w.parent_pid == 0
            &&& w.exe_path.len() == 0 && w.process_name.len() == 0 && w.icon_data_url.len() == 0
        },
{
}

/// A window that is neither visible nor excluded by us, whose affinity
/// cannot be read, or whose owner is unknown is never listed; neither is a
/// visible window the system cloaks (unless we hid it).
pub proof fn lemma_unlisted_windows(hwnd: u32, p: WindowProbe)
    ensures
        p.affinity is None ==> window_entry_spec(hwnd, p) is None,
        (p.affinity == Some(0u32) && !p.visible) ==> window_entry_spec(hwnd, p) is None,
        p.thread_id == 0 ==> window_entry_spec(hwnd, p) is None,
        (p.affinity == Some(0u32) && (p.cloaked is None || (p.cloaked matches Some(c) && c != 0)))
            ==> window_entry_spec(hwnd, p) is None,
        window_entry_spec(hwnd, p) matches Some(w) ==> w.title.len() > 0 && w.hidden == (p.affinity != Some(0u32)),
{
    reveal_strlit("Taskbar");
    reveal_strlit("Alt+Tab Switcher");
}

/// A window-less entry is marked as such (no handle, no window, not
/// hidden, no icon), keeps the process and parent ids and the queried path,
/// is titled with the snapshot's executable name, and has a process name
/// whenever either the query or the snapshot gave one (the query's first).
pub proof fn lemma_tray_entry_shape(entry: ProcessEntry, exe_path: Seq<char>, process_name: Seq<char>)
    ensures
        ({
            let w = tray_entry_spec(entry, exe_path, process_name);
            &&& w.hwnd == 0 && w.no_window && !w.hidden && w.icon_data_url.len() == 0
            &&& w.pid == entry.pid && w.parent_pid == entry.parent_pid && w.exe_path == exe_path
            &&& w.title == entry.exe_name@
            &&& process_name.len() > 0 ==> w.process_name == process_name
            &&& (process_name.len() > 0 || entry.exe_name@.len() > 0) ==> w.process_name.len() > 0
        }),
{
}

/// The processes to query are each listed window's process, each once.
pub proof fn lemma_distinct_in_order(s: Seq<u32>)
    ensures
        distinct_in_order(s).no_duplicates(),
        forall|p: u32| distinct_in_order(s).contains(p) <==> s.contains(p),
    decreases s.len(),
{
    broadcast use vstd::seq_lib::group_seq_properties;
    if s.len() > 0 {
        lemma_distinct_in_order(s.drop_last());
        assert(s =~= s.drop_last().push(s.last()));
    }
}

} // verus!
