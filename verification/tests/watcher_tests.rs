use screen_shield::watcher::{
    check_and_cache_match, is_watchable_window, lowercase_names, position_to_restore,
    sibling_auto_hide, RestartPlan, WatchDecision, WatchState, WinEventKind, WS_CHILD,
};

fn names(v: &[&str]) -> Vec<String> {
    v.iter().map(|s| s.to_string()).collect()
}

#[test]
fn watch_list_match_is_by_lowercase_name() {
    let watched = names(&["steam.exe", "chrome.exe"]);
    assert!(check_and_cache_match("Steam.EXE", &watched));
    assert!(check_and_cache_match("chrome.exe", &watched));
    assert!(!check_and_cache_match("taskmgr.exe", &watched));
    assert!(!check_and_cache_match("", &watched));
    assert!(!check_and_cache_match("steam.exe", &Vec::new()));
}

#[test]
fn top_level_window_filter() {
    assert!(is_watchable_window(WinEventKind::Create, 0, 0, 0x1234, false, 0x10CF0000u32 as i32, 42));
    assert!(is_watchable_window(WinEventKind::Show, 0, 0, 0x1234, true, 0, 42));
    assert!(!is_watchable_window(WinEventKind::Show, 0, 0, 0x1234, false, 0, 42));
    assert!(!is_watchable_window(WinEventKind::Create, -4, 0, 0x1234, true, 0, 42));
    assert!(!is_watchable_window(WinEventKind::Create, 0, 3, 0x1234, true, 0, 42));
    assert!(!is_watchable_window(WinEventKind::Create, 0, 0, 0, true, 0, 42));
    assert!(!is_watchable_window(WinEventKind::Create, 0, 0, 0x1234, true, WS_CHILD | 0x10000000, 42));
    assert!(!is_watchable_window(WinEventKind::Create, 0, 0, 0x1234, true, 0, 0));
}

#[test]
fn create_and_show_of_one_window_are_handled_once() {
    let mut s = WatchState::new();
    assert_eq!(s.claim_window(0x500, None), WatchDecision::Protect);
    assert!(s.is_processing(0x500));
    assert_eq!(s.claim_window(0x500, Some(0)), WatchDecision::AlreadyInProgress);
    assert_eq!(s.claim_window(0x600, Some(0)), WatchDecision::Protect);
    s.finish_window(0x500);
    assert!(!s.is_processing(0x500));
    assert_eq!(s.claim_window(0x500, None), WatchDecision::Protect);
}

#[test]
fn already_excluded_window_only_needs_uncloak() {
    let mut s = WatchState::new();
    assert_eq!(s.claim_window(0x700, Some(0x11)), WatchDecision::DelayedUncloak);
    assert!(!s.is_processing(0x700));
    assert_eq!(s.claim_window(0x700, Some(0)), WatchDecision::Protect);
}

#[test]
fn stop_hands_out_pump_thread_once() {
    let mut s = WatchState::new();
    assert_eq!(s.stop_watcher_thread(), None);
    s.record_watcher_thread(77);
    assert_eq!(s.pump_thread(), 77);
    assert_eq!(s.stop_watcher_thread(), Some(77));
    assert_eq!(s.stop_watcher_thread(), None);
    assert_eq!(s.pump_thread(), 0);
}

#[test]
fn restart_without_names_only_stops() {
    let mut s = WatchState::new();
    s.record_watcher_thread(9);
    let plan = s.restart_watcher();
    assert_eq!(plan, RestartPlan { quit_thread: Some(9), start_etw_session: false, start_pump: false });
    assert_eq!(s.pump_thread(), 0);
}

#[test]
fn restart_with_names_starts_trace_once() {
    let mut s = WatchState::new();
    s.set_watch_names(names(&["steam.exe"]));
    let plan = s.restart_watcher();
    assert_eq!(plan, RestartPlan { quit_thread: None, start_etw_session: true, start_pump: true });
    assert!(s.etw_matches("steam.exe"));
    s.record_watcher_thread(123);
    let plan = s.restart_watcher();
    assert_eq!(plan, RestartPlan { quit_thread: Some(123), start_etw_session: false, start_pump: true });
}

#[test]
fn serve_watch_lowercases_and_stop_watch_clears() {
    let mut s = WatchState::new();
    let plan = s.serve_watch(&names(&["Steam.exe", "CHROME.EXE"]));
    assert_eq!(plan, RestartPlan { quit_thread: None, start_etw_session: true, start_pump: true });
    assert_eq!(s.watch_names(), &names(&["steam.exe", "chrome.exe"]));
    assert!(s.matches("chrome.exe"));
    assert!(s.matches("STEAM.EXE"));
    assert!(s.etw_matches("chrome.exe"));
    assert!(!s.etw_matches("Chrome.exe"));
    s.record_watcher_thread(5);
    assert_eq!(s.stop_watch(), Some(5));
    assert!(!s.matches("chrome.exe"));
    assert!(s.watch_names().is_empty());
}

#[test]
fn etw_session_starts_on_first_update_only() {
    let mut s = WatchState::new();
    assert!(s.etw_watch(names(&["a.exe"])));
    assert!(!s.etw_watch(names(&["b.exe"])));
    assert!(s.etw_matches("b.exe"));
    assert!(!s.etw_matches("a.exe"));
    assert!(!s.etw_matches(""));
}

#[test]
fn sibling_hook_skips_explorer_and_unknown() {
    assert!(sibling_auto_hide("steamwebhelper.exe"));
    assert!(!sibling_auto_hide("explorer.exe"));
    assert!(!sibling_auto_hide("Explorer.EXE"));
    assert!(!sibling_auto_hide(""));
}

#[test]
fn restore_only_after_successful_injection() {
    assert_eq!(position_to_restore(true, Some((10, -20))), Some((10, -20)));
    assert_eq!(position_to_restore(false, Some((10, -20))), None);
    assert_eq!(position_to_restore(true, None), None);
}

#[test]
fn lowercase_names_keeps_order() {
    assert_eq!(lowercase_names(&names(&["B.exe", "a.EXE"])), names(&["b.exe", "a.exe"]));
}
