use screen_shield::injector::{Injector, RemoteCall};
use screen_shield::window_list::ProcessEntry;

#[test]
fn hook_library_choice() {
    assert_eq!(Injector::hook_dll_file(true, true), "../i686-pc-windows-msvc/debug/ScreenShieldHook.dll");
    assert_eq!(Injector::hook_dll_file(false, true), "ScreenShieldHook32.dll");
    assert_eq!(Injector::hook_dll_file(false, false), "ScreenShieldHook.dll");
}

#[test]
fn auto_hide_switch_skips_explorer() {
    assert!(Injector::switches_auto_hide("chrome.exe"));
    assert!(Injector::switches_auto_hide(""));
    assert!(!Injector::switches_auto_hide("EXPLORER.EXE"));
}

#[test]
fn remote_calls_per_window() {
    assert_eq!(
        Injector::window_calls(&vec![1, 2], true, Some(false)),
        vec![
            RemoteCall::SetWindowVisibility { hwnd: 1, hide: true },
            RemoteCall::HideFromTaskbar { hwnd: 1, hide: false },
            RemoteCall::SetWindowVisibility { hwnd: 2, hide: true },
            RemoteCall::HideFromTaskbar { hwnd: 2, hide: false },
        ]
    );
    assert_eq!(Injector::window_calls(&vec![3], false, None), vec![RemoteCall::SetWindowVisibility { hwnd: 3, hide: false }]);
    assert!(Injector::window_calls(&vec![], true, Some(true)).is_empty());
}

#[test]
fn auto_hide_targets_by_name() {
    let snap = vec![
        ProcessEntry { pid: 10, parent_pid: 1, exe_name: "SteamWebHelper.exe".to_string() },
        ProcessEntry { pid: 11, parent_pid: 1, exe_name: "steam.exe".to_string() },
        ProcessEntry { pid: 12, parent_pid: 1, exe_name: "steamwebhelper.EXE".to_string() },
        ProcessEntry { pid: 99, parent_pid: 1, exe_name: "steamwebhelper.exe".to_string() },
    ];
    assert_eq!(Injector::auto_hide_pids("steamwebhelper.exe", 99, &snap), vec![10, 12]);
    assert_eq!(Injector::auto_hide_pids("none.exe", 99, &snap), Vec::<u32>::new());
}
