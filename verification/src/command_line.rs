//! The helper's command line: which mode it runs in, and how a hide/unhide
//! target (window handle, process id or executable name) is resolved.

use vstd::prelude::*;
use crate::strings::{is_flag, is_flag_spec, same_text, texts_contain, parse_u32, parse_u32_spec, contains_text};
use crate::watcher::{lowercase_names, is_lowercase_of};
use crate::window_list::WindowInfo;

verus! {

/// What the helper was asked to do.
#[derive(Debug, PartialEq, Eq)]
pub enum CliCommand {
    /// `--serve`: answer JSON requests on stdin.
    Serve,
    /// `--list [--procs <name>...]`: print the window list, with entries for
    /// the named processes that have no window (names end at the next flag).
    List { procs: Vec<String> },
    /// `--enable-all <1|0> <name>...`: switch the in-process hook in every
    /// process with one of the names.
    EnableAll { enable: bool, names: Vec<String> },
    /// `--watch <name>...`: hide new windows of the named processes (names
    /// lower-cased; nothing to do when there are none).
    Watch { names: Vec<String> },
    /// `--hide`/`--unhide [--taskbar] <target>...`.
    SetVisibility { hide: bool, hide_from_taskbar: Option<bool>, targets: Vec<String> },
    /// Neither `--hide` nor `--unhide`: print usage and fail.
    Usage,
    /// `--hide`/`--unhide` without targets: report it and fail.
    NoTargets,
}

/// The arguments that are not flags, in order.
pub open spec fn non_flags(args: Seq<String>) -> Seq<String>
    decreases args.len(),
{
    if args.len() == 0 {
        args
    } else {
        let r = non_flags(args.drop_last());
        if is_flag_spec(args.last()@) {
            r
        } else {
            r.push(args.last())
        }
    }
}

/// Position of the first argument equal to `flag`.
pub open spec fn first_position(args: Seq<String>, flag: Seq<char>) -> Option<int> {
    if texts_contain(args, flag) {
        Some(choose|i: int| 0 <= i < args.len() && args[i]@ == flag && forall|k: int| 0 <= k < i ==> #[trigger] args[k]@ != flag)
    } else {
        None
    }
}

/// The arguments before the first flag.
pub open spec fn until_flag(args: Seq<String>) -> Seq<String>
    decreases args.len(),
{
    if args.len() == 0 || is_flag_spec(args[0]@) {
        Seq::empty()
    } else {
        seq![args[0]] + until_flag(args.drop_first())
    }
}

/// Names after the first `--procs`, up to the next flag.
pub open spec fn list_procs(args: Seq<String>) -> Seq<String> {
    match first_position(args, "--procs"@) {
        Some(i) => until_flag(args.skip(i + 1)),
        None => Seq::empty(),
    }
}

proof fn lemma_until_flag_prefix(args: Seq<String>, j: int)
    requires
        0 <= j <= args.len(),
        forall|k: int| 0 <= k < j ==> !is_flag_spec(#[trigger] args[k]@),
    ensures
        until_flag(args) == args.take(j) + until_flag(args.skip(j)),
    decreases j,
{
    if j > 0 {
        lemma_until_flag_prefix(args.drop_first(), j - 1);
        assert(args.drop_first().take(j - 1) =~= args.take(j).drop_first());
        assert(args.drop_first().skip(j - 1) =~= args.skip(j));
        assert(seq![args[0]] + args.take(j).drop_first() =~= args.take(j));
        assert(seq![args[0]] + (args.take(j).drop_first() + until_flag(args.skip(j))) =~= args.take(j) + until_flag(args.skip(j)));
    } else {
        assert(args.skip(0) =~= args);
        assert(args.take(0) + until_flag(args) =~= until_flag(args));
    }
}

/// The arguments from `start` up to the next flag.
pub fn args_until_flag(args: &Vec<String>, start: usize) -> (r: Vec<String>)
    requires
        start <= args.len(),
    ensures
        r@ == until_flag(args@.skip(start as int)),
{
    let ghost rest = args@.skip(start as int);
    let mut r: Vec<String> = Vec::new();
    let mut i = start;
    while i < args.len()
        invariant
            start <= i <= args.len(),
            rest == args@.skip(start as int),
            r@ == rest.take(i - start),
            forall|k: int| 0 <= k < i - start ==> !is_flag_spec(#[trigger] rest[k]@),
        ensures
            start <= i <= args.len(),
            r@ == rest.take(i - start),
            forall|k: int| 0 <= k < i - start ==> !is_flag_spec(#[trigger] rest[k]@),
            i < args.len() ==> is_flag_spec(rest[i - start]@),
        decreases args.len() - i,
    {
        if is_flag(args[i].as_str()) {
            break;
        }
        r.push(args[i].clone());
        i += 1;
        assert(r@ =~= rest.take(i - start));
    }
    proof {
        let j = i - start;
        lemma_until_flag_prefix(rest, j);
        if i < args.len() {
            assert(until_flag(rest.skip(j)) =~= Seq::<String>::empty());
        } else {
            assert(rest.skip(j) =~= Seq::<String>::empty());
            assert(until_flag(rest.skip(j)) =~= Seq::<String>::empty());
        }
        assert(rest.take(j) + until_flag(rest.skip(j)) =~= r@);
    }
    r
}

/// The arguments after the first `--enable-all`.
pub open spec fn after_enable_all(args: Seq<String>) -> Seq<String> {
    match first_position(args, "--enable-all"@) {
        Some(i) => args.skip(i + 1),
        None => Seq::empty(),
    }
}

/// The argument right after `--enable-all` is `1`.
pub open spec fn enable_all_flag(args: Seq<String>) -> bool {
    after_enable_all(args).len() > 0 && after_enable_all(args)[0]@ == "1"@
}

/// The non-flag arguments after the `--enable-all` switch value.
pub open spec fn enable_all_names(args: Seq<String>) -> Seq<String> {
    if after_enable_all(args).len() > 0 {
        non_flags(after_enable_all(args).drop_first())
    } else {
        Seq::empty()
    }
}

/// `cmd` is what the arguments ask for; the first of `--serve`, `--list`,
/// `--enable-all`, `--watch` present decides, else `--hide`/`--unhide`.
pub open spec fn parse_cli_spec(args: Seq<String>, cmd: CliCommand) -> bool {
    if texts_contain(args, "--serve"@) {
        cmd == CliCommand::Serve
    } else if texts_contain(args, "--list"@) {
        cmd matches CliCommand::List { procs } && procs@ == list_procs(args)
    } else if texts_contain(args, "--enable-all"@) {
        cmd matches CliCommand::EnableAll { enable, names }
            && enable == enable_all_flag(args) && names@ == enable_all_names(args)
    } else if texts_contain(args, "--watch"@) {
        cmd matches CliCommand::Watch { names } && is_lowercase_of(names@, non_flags(args))
    } else if !texts_contain(args, "--hide"@) && !texts_contain(args, "--unhide"@) {
        cmd == CliCommand::Usage
    } else if non_flags(args).len() == 0 {
        cmd == CliCommand::NoTargets
    } else {
        let hide = texts_contain(args, "--hide"@);
        cmd matches CliCommand::SetVisibility { hide: h, hide_from_taskbar, targets }
            && h == hide
            && hide_from_taskbar == (if texts_contain(args, "--taskbar"@) { Some(hide) } else { None })
            && targets@ == non_flags(args)
    }
}

fn copy_strings_from(args: &Vec<String>, start: usize) -> (r: Vec<String>)
    requires
        start <= args.len(),
    ensures
        r@ == args@.skip(start as int),
{
    let mut r: Vec<String> = Vec::new();
    let mut i = start;
    while i < args.len()
        invariant
            start <= i <= args.len(),
            r@ == args@.subrange(start as int, i as int),
        decreases args.len() - i,
    {
        r.push(args[i].clone());
        i += 1;
        assert(r@ =~= args@.subrange(start as int, i as int));
    }
    assert(args@.subrange(start as int, args.len() as int) =~= args@.skip(start as int));
    r
}

/// The non-flag arguments, in order.
pub fn non_flag_args(args: &Vec<String>) -> (r: Vec<String>)
    ensures
        r@ == non_flags(args@),
{
    let mut r: Vec<String> = Vec::new();
    let mut i: usize = 0;
    while i < args.len()
        invariant
            i <= args.len(),
            r@ == non_flags(args@.take(i as int)),
        decreases args.len() - i,
    {
        assert(args@.take(i + 1).drop_last() =~= args@.take(i as int));
        if !is_flag(args[i].as_str()) {
            r.push(args[i].clone());
        }
        i += 1;
    }
    assert(args@.take(args.len() as int) =~= args@);
    r
}

fn position_of(args: &Vec<String>, flag: &str) -> (r: Option<usize>)
    ensures
        match r {
            Some(i) => first_position(args@, flag@) == Some(i as int) && i < args.len(),
            None => first_position(args@, flag@) is None,
        },
{
    let mut i: usize = 0;
    while i < args.len()
        invariant
            i <= args.len(),
            forall|k: int| 0 <= k < i ==> #[trigger] args@[k]@ != flag@,
        decreases args.len() - i,
    {
        if same_text(args[i].as_str(), flag) {
            proof {
                let p = |j: int| 0 <= j < args@.len() && args@[j]@ == flag@ && forall|k: int| 0 <= k < j ==> #[trigger] args@[k]@ != flag@;
                assert(p(i as int));
                let c = choose|j: int| 0 <= j < args@.len() && args@[j]@ == flag@ && forall|k: int| 0 <= k < j ==> #[trigger] args@[k]@ != flag@;
                if c < i {
                    assert(args@[c]@ != flag@);
                } else if c > i {
                    assert(args@[i as int]@ != flag@);
                }
            }
            return Some(i);
        }
        i += 1;
    }
    None
}

/// Decides the mode and its arguments from the command line (without the
/// program name).
pub fn parse_cli(args: &Vec<String>) -> (cmd: CliCommand)
    ensures
        parse_cli_spec(args@, cmd),
{
    if contains_text(args, "--serve") {
        return CliCommand::Serve;
    }
    if contains_text(args, "--list") {
        let procs = match position_of(args, "--procs") {
            Some(i) => args_until_flag(args, i + 1),
            None => Vec::new(),
        };
        return CliCommand::List { procs };
    }
    if let Some(i) = position_of(args, "--enable-all") {
        let rest = copy_strings_from(args, i + 1);
        if rest.len() == 0 {
            return CliCommand::EnableAll { enable: false, names: Vec::new() };
        }
        let enable = same_text(rest[0].as_str(), "1");
        let tail = copy_strings_from(&rest, 1);
        assert(tail@ =~= rest@.drop_first());
        let names = non_flag_args(&tail);
        return CliCommand::EnableAll { enable, names };
    }
    if contains_text(args, "--watch") {
        let positional = non_flag_args(args);
        let names = lowercase_names(&positional);
        return CliCommand::Watch { names };
    }
    let hide = contains_text(args, "--hide");
    let unhide = contains_text(args, "--unhide");
    if !hide && !unhide {
        return CliCommand::Usage;
    }
    let taskbar = contains_text(args, "--taskbar");
    let hide_from_taskbar = if taskbar { Some(hide) } else { None };
    let targets = non_flag_args(args);
    if targets.len() == 0 {
        return CliCommand::NoTargets;
    }
    CliCommand::SetVisibility { hide, hide_from_taskbar, targets }
}

/// How a hide/unhide target is resolved against the window list.
#[derive(Debug, PartialEq, Eq)]
pub enum TargetResolution {
    /// A number that is a listed window handle: that window of its process.
    Window { pid: u32, hwnd: u32 },
    /// A number that is a process id with listed windows: all of them.
    Process { pid: u32, hwnds: Vec<u32> },
    /// A number that is neither.
    NotFound,
    /// Not a number: look the processes up by executable name.
    ByName,
}

/// Handles of the listed windows of `pid`, in list order.
pub open spec fn hwnds_of(ws: Seq<WindowInfo>, pid: u32) -> Seq<u32>
    decreases ws.len(),
{
    if ws.len() == 0 {
        Seq::empty()
    } else {
        let r = hwnds_of(ws.drop_last(), pid);
        if ws.last().pid == pid {
            r.push(ws.last().hwnd)
        } else {
            r
        }
    }
}

/// Owner of the last listed window with handle `hwnd` (later entries
/// replace earlier ones in the handle table).
pub open spec fn owner_of(ws: Seq<WindowInfo>, hwnd: u32) -> Option<u32>
    decreases ws.len(),
{
    if ws.len() == 0 {
        None
    } else if ws.last().hwnd == hwnd {
        Some(ws.last().pid)
    } else {
        owner_of(ws.drop_last(), hwnd)
    }
}

/// Resolution of a target: a decimal `u32` is first looked up as a window
/// handle, then as a process id; anything else is an executable name.
pub open spec fn resolve_spec(target: Seq<char>, ws: Seq<WindowInfo>, r: TargetResolution) -> bool {
    match parse_u32_spec(target) {
        None => r == TargetResolution::ByName,
        Some(n) => match owner_of(ws, n) {
            Some(pid) => r == TargetResolution::Window { pid, hwnd: n },
            None => if hwnds_of(ws, n).len() > 0 {
                r matches TargetResolution::Process { pid, hwnds } && pid == n && hwnds@ == hwnds_of(ws, n)
            } else {
                r == TargetResolution::NotFound
            },
        },
    }
}

/// Handles of the listed windows of `pid`, in list order (empty when the
/// process has no listed window).
pub fn hwnds_of_pid(pid: u32, windows: &Vec<WindowInfo>) -> (r: Vec<u32>)
    ensures
        r@ == hwnds_of(windows@, pid),
{
    let mut r: Vec<u32> = Vec::new();
    let mut i: usize = 0;
    while i < windows.len()
        invariant
            i <= windows.len(),
            r@ == hwnds_of(windows@.take(i as int), pid),
        decreases windows.len() - i,
    {
        assert(windows@.take(i + 1).drop_last() =~= windows@.take(i as int));
        if windows[i].pid == pid {
            r.push(windows[i].hwnd);
        }
        i += 1;
    }
    assert(windows@.take(windows.len() as int) =~= windows@);
    r
}

fn owner_of_hwnd(hwnd: u32, windows: &Vec<WindowInfo>) -> (r: Option<u32>)
    ensures
        r == owner_of(windows@, hwnd),
{
    let mut r: Option<u32> = None;
    let mut i: usize = 0;
    while i < windows.len()
        invariant
            i <= windows.len(),
            r == owner_of(windows@.take(i as int), hwnd),
        decreases windows.len() - i,
    {
        assert(windows@.take(i + 1).drop_last() =~= windows@.take(i as int));
        if windows[i].hwnd == hwnd {
            r = Some(windows[i].pid);
        }
        i += 1;
    }
    assert(windows@.take(windows.len() as int) =~= windows@);
    r
}

/// Resolves a hide/unhide target against the window list.
pub fn resolve_target(target: &str, windows: &Vec<WindowInfo>) -> (r: TargetResolution)
    ensures
        resolve_spec(target@, windows@, r),
{
    match parse_u32(target) {
        None => TargetResolution::ByName,
        Some(n) => match owner_of_hwnd(n, windows) {
            Some(pid) => TargetResolution::Window { pid, hwnd: n },
            None => {
                let hwnds = hwnds_of_pid(n, windows);
                if hwnds.len() > 0 {
                    TargetResolution::Process { pid: n, hwnds }
                } else {
                    TargetResolution::NotFound
                }
            },
        },
    }
}

/// A number is taken as a window handle before a process id: when some
/// listed window has that handle the target is that window with its owner;
/// only otherwise, when the number owns listed windows, it is that process
/// with all of them, in list order.
pub proof fn lemma_resolution_order(target: Seq<char>, ws: Seq<WindowInfo>, r: TargetResolution, n: u32)
    requires
        resolve_spec(target, ws, r),
        parse_u32_spec(target) == Some(n),
    ensures
        (exists|k: int| 0 <= k < ws.len() && #[trigger] ws[k].hwnd == n) ==> (r matches TargetResolution::Window { pid, hwnd }
            && hwnd == n && exists|k: int| 0 <= k < ws.len() && ws[k].hwnd == n && #[trigger] ws[k].pid == pid),
        (!exists|k: int| 0 <= k < ws.len() && #[trigger] ws[k].hwnd == n) && (exists|k: int| 0 <= k < ws.len() && #[trigger] ws[k].pid == n)
            ==> (r matches TargetResolution::Process { pid, hwnds } && pid == n
                && forall|k: int| 0 <= k < ws.len() && #[trigger] ws[k].pid == n ==> hwnds@.contains(ws[k].hwnd)),
        (forall|k: int| 0 <= k < ws.len() ==> #[trigger] ws[k].hwnd != n && ws[k].pid != n) ==> r == TargetResolution::NotFound,
{
    lemma_owner_of(ws, n);
    lemma_hwnds_of(ws, n);
    if forall|k: int| 0 <= k < ws.len() ==> #[trigger] ws[k].hwnd != n && ws[k].pid != n {
        assert(!exists|k: int| 0 <= k < ws.len() && #[trigger] ws[k].hwnd == n);
        assert(forall|k: int| 0 <= k < ws.len() ==> #[trigger] ws[k].pid != n);
    }
}

proof fn lemma_owner_of(ws: Seq<WindowInfo>, n: u32)
    ensures
        (exists|k: int| 0 <= k < ws.len() && #[trigger] ws[k].hwnd == n) <==> owner_of(ws, n) is Some,
        owner_of(ws, n) matches Some(p) ==> exists|k: int| 0 <= k < ws.len() && ws[k].hwnd == n && #[trigger] ws[k].pid == p,
    decreases ws.len(),
{
    if ws.len() > 0 {
        lemma_owner_of(ws.drop_last(), n);
        if ws.last().hwnd != n {
            if exists|k: int| 0 <= k < ws.len() && #[trigger] ws[k].hwnd == n {
                let k = choose|k: int| 0 <= k < ws.len() && #[trigger] ws[k].hwnd == n;
                assert(ws.drop_last()[k].hwnd == n);
            }
            if let Some(p) = owner_of(ws, n) {
                let k = choose|k: int| 0 <= k < ws.drop_last().len() && ws.drop_last()[k].hwnd == n && #[trigger] ws.drop_last()[k].pid == p;
                assert(ws[k] == ws.drop_last()[k]);
            }
        } else {
            assert(ws[ws.len() - 1].hwnd == n);
        }
    }
}

proof fn lemma_hwnds_of(ws: Seq<WindowInfo>, n: u32)
    ensures
        forall|k: int| 0 <= k < ws.len() && #[trigger] ws[k].pid == n ==> hwnds_of(ws, n).contains(ws[k].hwnd),
        (exists|k: int| 0 <= k < ws.len() && #[trigger] ws[k].pid == n) ==> hwnds_of(ws, n).len() > 0,
        (forall|k: int| 0 <= k < ws.len() ==> #[trigger] ws[k].pid != n) ==> hwnds_of(ws, n).len() == 0,
    decreases ws.len(),
{
    if ws.len() > 0 {
        lemma_hwnds_of(ws.drop_last(), n);
        let r = hwnds_of(ws.drop_last(), n);
        let res = hwnds_of(ws, n);
        assert forall|k: int| 0 <= k < ws.len() && #[trigger] ws[k].pid == n implies res.contains(ws[k].hwnd) by {
            if k < ws.len() - 1 {
                assert(ws.drop_last()[k] == ws[k]);
                let j = choose|j: int| 0 <= j < r.len() && r[j] == ws[k].hwnd;
                assert(res[j] == ws[k].hwnd);
            } else {
                assert(res[r.len() as int] == ws[k].hwnd);
            }
        }
        if exists|k: int| 0 <= k < ws.len() && #[trigger] ws[k].pid == n {
            let k = choose|k: int| 0 <= k < ws.len() && #[trigger] ws[k].pid == n;
            assert(res.contains(ws[k].hwnd));
        }
        if forall|k: int| 0 <= k < ws.len() ==> #[trigger] ws[k].pid != n {
            assert forall|k: int| 0 <= k < ws.drop_last().len() implies #[trigger] ws.drop_last()[k].pid != n by {
                assert(ws.drop_last()[k] == ws[k]);
            }
            assert(ws[ws.len() - 1].pid != n);
        }
    }
}

} // verus!
