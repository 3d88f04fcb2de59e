//! The `--serve` protocol: newline-delimited JSON requests
//! `{"id", "cmd", "params"}` answered by `{"id", "ok", "data"|"error"}`.
//! This module decides what each command does; reading and writing JSON
//! happens at the edge.

use vstd::prelude::*;
use crate::strings::same_text;

verus! {

/// The request parameters the commands read, taken from `params`:
/// strings of `proc_names` and `names`, unsigned integers of `hwnds`, and the
/// booleans `alt_tab` and `enable` when present.
#[derive(Debug, PartialEq, Eq)]
pub struct RequestParams {
    pub proc_names: Vec<String>,
    pub hwnds: Vec<u64>,
    pub alt_tab: Option<bool>,
    pub names: Vec<String>,
    pub enable: Option<bool>,
}

/// What a request asks the helper to do.
#[derive(Debug, PartialEq, Eq)]
pub enum ServeAction {
    /// `list`: answer the window list, with window-less entries for these
    /// process names.
    List { proc_names: Vec<String> },
    /// `hide` / `unhide`: switch capture exclusion for these windows, and
    /// their taskbar presence when asked.
    SetVisibility { hide: bool, hide_from_taskbar: Option<bool>, hwnds: Vec<u32> },
    /// `watch`: watch these process names (lower-cased by the watcher).
    Watch { names: Vec<String> },
    /// `stop-watch`: stop watching.
    StopWatch,
    /// `enable-all`: switch the in-process hook in these processes.
    EnableAll { enable: bool, names: Vec<String> },
    /// Any other command: answered with this error.
    Unknown { message: String },
}

/// Handle values as the protocol gives them, truncated to 32 bits.
pub open spec fn truncated_handles(hwnds: Seq<u64>) -> Seq<u32> {
    hwnds.map_values(|n: u64| n as u32)
}

/// What the command `cmd` with `params` asks for.
pub open spec fn dispatch_spec(cmd: Seq<char>, params: RequestParams, a: ServeAction) -> bool {
    if cmd == "list"@ {
        a matches ServeAction::List { proc_names } && proc_names@ == params.proc_names@
    } else if cmd == "hide"@ || cmd == "unhide"@ {
        let hide = cmd == "hide"@;
        let alt_tab = params.alt_tab == Some(true);
        a matches ServeAction::SetVisibility { hide: h, hide_from_taskbar, hwnds }
            && h == hide
            && hide_from_taskbar == (if alt_tab { Some(hide) } else { None })
            && hwnds@ == truncated_handles(params.hwnds@)
    } else if cmd == "watch"@ {
        a matches ServeAction::Watch { names } && names@ == params.names@
    } else if cmd == "stop-watch"@ {
        a == ServeAction::StopWatch
    } else if cmd == "enable-all"@ {
        a matches ServeAction::EnableAll { enable, names }
            && enable == (params.enable == Some(true)) && names@ == params.names@
    } else {
        a matches ServeAction::Unknown { message } && message@ == "unknown command: "@ + cmd
    }
}

fn truncate_handles(hwnds: &Vec<u64>) -> (r: Vec<u32>)
    ensures
        r@ == truncated_handles(hwnds@),
{
    let mut r: Vec<u32> = Vec::new();
    let mut i: usize = 0;
    while i < hwnds.len()
        invariant
            i <= hwnds.len(),
            r@ == truncated_handles(hwnds@).take(i as int),
        decreases hwnds.len() - i,
    {
        #[verifier::truncate]
        let h = hwnds[i] as u32;
        r.push(h);
        i += 1;
        assert(r@ =~= truncated_handles(hwnds@).take(i as int));
    }
    assert(truncated_handles(hwnds@).take(hwnds.len() as int) =~= truncated_handles(hwnds@));
    r
}

/// Decides what a request does.
pub fn dispatch(cmd: &str, params: RequestParams) -> (a: ServeAction)
    ensures
        dispatch_spec(cmd@, params, a),
{
    if same_text(cmd, "list") {
        ServeAction::List { proc_names: params.proc_names }
    } else if same_text(cmd, "hide") || same_text(cmd, "unhide") {
        let hide = same_text(cmd, "hide");
        let alt_tab = match params.alt_tab {
            Some(b) => b,
            None => false,
        };
        let hide_from_taskbar = if alt_tab { Some(hide) } else { None };
        ServeAction::SetVisibility { hide, hide_from_taskbar, hwnds: truncate_handles(&params.hwnds) }
    } else if same_text(cmd, "watch") {
        ServeAction::Watch { names: params.names }
    } else if same_text(cmd, "stop-watch") {
        ServeAction::StopWatch
    } else if same_text(cmd, "enable-all") {
        let enable = match params.enable {
            Some(b) => b,
            None => false,
        };
        ServeAction::EnableAll { enable, names: params.names }
    } else {
        let mut message = String::from_str("unknown command: ");
        message.append(cmd);
        ServeAction::Unknown { message }
    }
}

/// Handles from the protocol keep their order and their low 32 bits.
pub proof fn lemma_handles_low_bits(hwnds: Seq<u64>)
    ensures
        truncated_handles(hwnds).len() == hwnds.len(),
        forall|i: int| 0 <= i < hwnds.len() ==> #[trigger] truncated_handles(hwnds)[i] as int == hwnds[i] as int % 0x1_0000_0000,
{
    assert forall|i: int| 0 <= i < hwnds.len() implies #[trigger] truncated_handles(hwnds)[i] as int == hwnds[i] as int % 0x1_0000_0000 by {
        let n = hwnds[i];
        assert((n as u32) as u64 == n % 0x1_0000_0000u64) by (bit_vector);
    }
}

/// Hide and unhide differ only in the direction; the taskbar presence is
/// switched along, in the same direction, exactly when `alt_tab` is true; and
/// any other command is answered with an error naming it.
pub proof fn lemma_dispatch_rules(cmd: Seq<char>, params: RequestParams, a: ServeAction)
    requires
        dispatch_spec(cmd, params, a),
    ensures
        cmd == "hide"@ ==> (a matches ServeAction::SetVisibility { hide, .. } && hide),
        cmd == "unhide"@ ==> (a matches ServeAction::SetVisibility { hide, .. } && !hide),
        a matches ServeAction::SetVisibility { hide, hide_from_taskbar, hwnds } ==> {
            &&& (params.alt_tab == Some(true) ==> hide_from_taskbar == Some(hide))
            &&& (params.alt_tab != Some(true) ==> hide_from_taskbar is None)
            &&& hwnds@.len() == params.hwnds@.len()
        },
        (cmd != "list"@ && cmd != "hide"@ && cmd != "unhide"@ && cmd != "watch"@ && cmd != "stop-watch"@
            && cmd != "enable-all"@) ==> (a matches ServeAction::Unknown { message }
                && message@.len() == 17 + cmd.len()
                && message@.skip(17) == cmd),
{
    reveal_strlit("unknown command: ");
    reveal_strlit("list");
    reveal_strlit("hide");
    reveal_strlit("unhide");
    reveal_strlit("watch");
    reveal_strlit("stop-watch");
    reveal_strlit("enable-all");
    assert("hide"@[0] == 'h' && "list"@[0] == 'l');
    assert("hide"@.len() == 4 && "unhide"@.len() == 6 && "list"@.len() == 4);
    assert("hide"@ != "list"@ && "hide"@ != "unhide"@);
    assert("unhide"@ != "list"@ && "unhide"@ != "hide"@);
    if cmd == "hide"@ {
        assert(dispatch_spec(cmd, params, a) ==> (a matches ServeAction::SetVisibility { hide: h, .. } && h));
    }
    if cmd == "unhide"@ {
        assert(dispatch_spec(cmd, params, a) ==> (a matches ServeAction::SetVisibility { hide: h, .. } && !h));
    }
    if let ServeAction::Unknown { message } = a {
        if cmd != "list"@ && cmd != "hide"@ && cmd != "unhide"@ && cmd != "watch"@ && cmd != "stop-watch"@
            && cmd != "enable-all"@ {
            assert(message@.skip(17) =~= cmd);
        }
    }
}

} // verus!
