//! Decisions of the DLL injector: which hook library fits a process, which
//! remote calls are made for a set of windows, and which processes get the
//! in-process hook.

use vstd::prelude::*;
use crate::strings::{eq_ignore_ascii_case, ascii_case_eq, lowercase, same_text, to_lower};
use crate::window_list::ProcessEntry;

verus! {

/// Injects the hook library into processes and calls its exports.
pub struct Injector {}

/// One call of an export of the injected hook library.
#[derive(Clone, Copy, Debug, PartialEq, Eq, Structural)]
pub enum RemoteCall {
    /// `SetWindowVisibility(hwnd, hide)`.
    SetWindowVisibility { hwnd: u32, hide: bool },
    /// `HideFromTaskbar(hwnd, hide)`.
    HideFromTaskbar { hwnd: u32, hide: bool },
}

/// The calls for each window in turn: its capture exclusion, then its
/// taskbar presence when that was asked for.
pub open spec fn window_calls_spec(hwnds: Seq<u32>, hide: bool, hide_from_taskbar: Option<bool>) -> Seq<RemoteCall>
    decreases hwnds.len(),
{
    if hwnds.len() == 0 {
        Seq::empty()
    } else {
        let r = window_calls_spec(hwnds.drop_last(), hide, hide_from_taskbar);
        let h = hwnds.last();
        let r1 = r.push(RemoteCall::SetWindowVisibility { hwnd: h, hide });
        match hide_from_taskbar {
            Some(t) => r1.push(RemoteCall::HideFromTaskbar { hwnd: h, hide: t }),
            None => r1,
        }
    }
}

/// The process ids, in snapshot order, whose executable name equals `name`
/// ignoring case, leaving out this process itself.
pub open spec fn auto_hide_pids_spec(name: Seq<char>, self_pid: u32, rows: Seq<ProcessEntry>) -> Seq<u32>
    decreases rows.len(),
{
    if rows.len() == 0 {
        Seq::empty()
    } else {
        let r = auto_hide_pids_spec(name, self_pid, rows.drop_last());
        let e = rows.last();
        if e.pid != self_pid && lowercase(e.exe_name@) == lowercase(name) {
            r.push(e.pid)
        } else {
            r
        }
    }
}

/// Hiding windows of a process also switches its in-process hook, except in
/// `explorer.exe` (any ASCII case).
pub open spec fn switches_auto_hide_spec(proc_name: Seq<char>) -> bool {
    !ascii_case_eq(proc_name, "explorer.exe"@)
}

impl Injector {
    /// File of the hook library, relative to the helper's directory: the
    /// 32-bit debug build for WOW64 processes of a debug helper, the 32-bit
    /// library for x86 processes, the 64-bit one otherwise.
    pub fn hook_dll_file(debug_wow64: bool, x86: bool) -> (path: String)
        ensures
            path@ == (if debug_wow64 {
                "../i686-pc-windows-msvc/debug/ScreenShieldHook.dll"@
            } else if x86 {
                "ScreenShieldHook32.dll"@
            } else {
                "ScreenShieldHook.dll"@
            }),
    {
        if debug_wow64 {
            String::from_str("../i686-pc-windows-msvc/debug/ScreenShieldHook.dll")
        } else if x86 {
            String::from_str("ScreenShieldHook32.dll")
        } else {
            String::from_str("ScreenShieldHook.dll")
        }
    }

    /// Whether hiding windows of a process also switches its in-process hook:
    /// not for `explorer.exe` (any ASCII case), whose future windows include
    /// the shell itself.
    pub fn switches_auto_hide(proc_name: &str) -> (r: bool)
        ensures
            r == switches_auto_hide_spec(proc_name@),
    {
        !eq_ignore_ascii_case(proc_name, "explorer.exe")
    }

    /// The remote calls that apply a visibility change to `hwnds`.
    pub fn window_calls(hwnds: &Vec<u32>, hide: bool, hide_from_taskbar: Option<bool>) -> (calls: Vec<RemoteCall>)
        ensures
            calls@ == window_calls_spec(hwnds@, hide, hide_from_taskbar),
    {
        let mut calls: Vec<RemoteCall> = Vec::new();
        let mut i: usize = 0;
        while i < hwnds.len()
            invariant
                i <= hwnds.len(),
                calls@ == window_calls_spec(hwnds@.take(i as int), hide, hide_from_taskbar),
            decreases hwnds.len() - i,
        {
            assert(hwnds@.take(i + 1).drop_last() =~= hwnds@.take(i as int));
            let h = hwnds[i];
            calls.push(RemoteCall::SetWindowVisibility { hwnd: h, hide });
            match hide_from_taskbar {
                Some(t) => calls.push(RemoteCall::HideFromTaskbar { hwnd: h, hide: t }),
                None => {},
            }
            i += 1;
        }
        assert(hwnds@.take(hwnds.len() as int) =~= hwnds@);
        calls
    }

    /// The processes that get the in-process hook switched for an executable
    /// name.
    pub fn auto_hide_pids(name: &str, self_pid: u32, snapshot: &Vec<ProcessEntry>) -> (pids: Vec<u32>)
        ensures
            pids@ == auto_hide_pids_spec(name@, self_pid, snapshot@),
    {
        let name_lower = to_lower(name);
        let mut pids: Vec<u32> = Vec::new();
        let mut i: usize = 0;
        while i < snapshot.len()
            invariant
                i <= snapshot.len(),
                name_lower@ == lowercase(name@),
                pids@ == auto_hide_pids_spec(name@, self_pid, snapshot@.take(i as int)),
            decreases snapshot.len() - i,
        {
            assert(snapshot@.take(i + 1).drop_last() =~= snapshot@.take(i as int));
            let e = &snapshot[i];
            if e.pid != self_pid {
                let exe = to_lower(e.exe_name.as_str());
                if same_text(exe.as_str(), name_lower.as_str()) {
                    pids.push(e.pid);
                }
            }
            i += 1;
        }
        assert(snapshot@.take(snapshot.len() as int) =~= snapshot@);
        pids
    }
}

/// Every window gets its capture call, followed by its taskbar call with the
/// requested taskbar value whenever one is given, whether hiding or showing:
/// two calls per window with a taskbar value, one without.
pub proof fn lemma_window_calls_layout(hwnds: Seq<u32>, hide: bool, hide_from_taskbar: Option<bool>)
    ensures
        hide_from_taskbar matches Some(t) ==> {
            &&& window_calls_spec(hwnds, hide, hide_from_taskbar).len() == 2 * hwnds.len()
            &&& forall|i: int| 0 <= i < hwnds.len() ==> {
                &&& #[trigger] window_calls_spec(hwnds, hide, hide_from_taskbar)[2 * i]
                    == RemoteCall::SetWindowVisibility { hwnd: hwnds[i], hide }
                &&& window_calls_spec(hwnds, hide, hide_from_taskbar)[2 * i + 1]
                    == RemoteCall::HideFromTaskbar { hwnd: hwnds[i], hide: t }
            }
        },
        hide_from_taskbar is None ==> {
            &&& window_calls_spec(hwnds, hide, hide_from_taskbar).len() == hwnds.len()
            &&& forall|i: int| 0 <= i < hwnds.len() ==>
                #[trigger] window_calls_spec(hwnds, hide, hide_from_taskbar)[i]
                    == RemoteCall::SetWindowVisibility { hwnd: hwnds[i], hide }
        },
    decreases hwnds.len(),
{
    if hwnds.len() > 0 {
        lemma_window_calls_layout(hwnds.drop_last(), hide, hide_from_taskbar);
        let r = window_calls_spec(hwnds.drop_last(), hide, hide_from_taskbar);
        let n = hwnds.len() - 1;
        match hide_from_taskbar {
            Some(t) => {
                assert forall|i: int| 0 <= i < hwnds.len() implies {
                    &&& #[trigger] window_calls_spec(hwnds, hide, hide_from_taskbar)[2 * i]
                        == RemoteCall::SetWindowVisibility { hwnd: hwnds[i], hide }
                    &&& window_calls_spec(hwnds, hide, hide_from_taskbar)[2 * i + 1]
                        == RemoteCall::HideFromTaskbar { hwnd: hwnds[i], hide: t }
                } by {
                    if i < n {
                        assert(r[2 * i] == RemoteCall::SetWindowVisibility { hwnd: hwnds.drop_last()[i], hide });
                        assert(r[2 * i + 1] == RemoteCall::HideFromTaskbar { hwnd: hwnds.drop_last()[i], hide: t });
                    }
                }
            },
            None => {
                assert forall|i: int| 0 <= i < hwnds.len() implies
                    #[trigger] window_calls_spec(hwnds, hide, hide_from_taskbar)[i]
                        == RemoteCall::SetWindowVisibility { hwnd: hwnds[i], hide } by {
                    if i < n {
                        assert(r[i] == RemoteCall::SetWindowVisibility { hwnd: hwnds.drop_last()[i], hide });
                    }
                }
            },
        }
    }
}

/// The hook is switched in exactly the other processes whose executable
/// name equals the requested one ignoring case: every such row is selected
/// (in particular one whose name is written exactly as requested), every
/// selected pid comes from such a row, and names that lower-case alike select
/// the same processes.
pub proof fn lemma_auto_hide_pids_case_insensitive(name: Seq<char>, other: Seq<char>, self_pid: u32, rows: Seq<ProcessEntry>)
    ensures
        forall|k: int| 0 <= k < rows.len() && rows[k].pid != self_pid
            && lowercase(#[trigger] rows[k].exe_name@) == lowercase(name)
            ==> auto_hide_pids_spec(name, self_pid, rows).contains(rows[k].pid),
        forall|k: int| 0 <= k < rows.len() && rows[k].pid != self_pid && #[trigger] rows[k].exe_name@ == name
            ==> auto_hide_pids_spec(name, self_pid, rows).contains(rows[k].pid),
        forall|j: int| 0 <= j < auto_hide_pids_spec(name, self_pid, rows).len() ==> exists|k: int|
            0 <= k < rows.len() && rows[k].pid == #[trigger] auto_hide_pids_spec(name, self_pid, rows)[j]
            && rows[k].pid != self_pid && lowercase(rows[k].exe_name@) == lowercase(name),
        lowercase(name) == lowercase(other) ==> auto_hide_pids_spec(name, self_pid, rows) == auto_hide_pids_spec(other, self_pid, rows),
    decreases rows.len(),
{
    if rows.len() > 0 {
        lemma_auto_hide_pids_case_insensitive(name, other, self_pid, rows.drop_last());
        let r = auto_hide_pids_spec(name, self_pid, rows.drop_last());
        let res = auto_hide_pids_spec(name, self_pid, rows);
        let n = rows.len() - 1;
        let e = rows.last();
        assert forall|k: int| 0 <= k < rows.len() && rows[k].pid != self_pid
            && lowercase(#[trigger] rows[k].exe_name@) == lowercase(name) implies res.contains(rows[k].pid) by {
            if k < n {
                assert(rows.drop_last()[k] == rows[k]);
                let j = choose|j: int| 0 <= j < r.len() && r[j] == rows[k].pid;
                assert(res[j] == rows[k].pid);
            } else {
                assert(res[r.len() as int] == rows[k].pid);
            }
        }
        assert forall|j: int| 0 <= j < res.len() implies exists|k: int|
            0 <= k < rows.len() && rows[k].pid == #[trigger] res[j]
            && rows[k].pid != self_pid && lowercase(rows[k].exe_name@) == lowercase(name) by {
            if j < r.len() {
                let k = choose|k: int| 0 <= k < rows.drop_last().len() && rows.drop_last()[k].pid == r[j]
                    && rows.drop_last()[k].pid != self_pid && lowercase(rows.drop_last()[k].exe_name@) == lowercase(name);
                assert(rows[k] == rows.drop_last()[k]);
            } else {
                assert(rows[n] == e);
            }
        }
    }
}

/// The hook is never switched inside a process whose name reads
/// `explorer.exe` with ASCII letters in any case, and always switched for a
/// name of another length.
pub proof fn lemma_explorer_never_switched(proc_name: Seq<char>)
    ensures
        (proc_name.len() == 12 && forall|i: int| 0 <= i < 12
            ==> crate::strings::ascii_lower(#[trigger] proc_name[i]) == crate::strings::ascii_lower("explorer.exe"@[i]))
            ==> !switches_auto_hide_spec(proc_name),
        proc_name.len() != 12 ==> switches_auto_hide_spec(proc_name),
{
    reveal_strlit("explorer.exe");
}

} // verus!
