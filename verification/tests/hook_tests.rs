use screen_shield::hook::{
    cloak_after_protect, display_affinity_for, enable_result, hook_action, is_task_switching_class,
    is_wda_active, targets_existing_task_view, taskbar_ex_style, uncloak_delay_ms, uncloak_step,
    HookAction, HookState, UncloakStep, EVENT_OBJECT_CREATE, EVENT_OBJECT_LOCATIONCHANGE,
    EVENT_OBJECT_SHOW, WDA_EXCLUDEFROMCAPTURE, WS_CHILD, WS_VISIBLE,
};

#[test]
fn affinity_values() {
    assert_eq!(display_affinity_for(true), 0x11);
    assert_eq!(display_affinity_for(false), 0);
    assert!(is_wda_active(Some(WDA_EXCLUDEFROMCAPTURE)));
    assert!(!is_wda_active(Some(1)));
    assert!(!is_wda_active(None));
}

#[test]
fn taskbar_style_values() {
    // WS_EX_WINDOWEDGE | WS_EX_APPWINDOW
    assert_eq!(taskbar_ex_style(0x40100, true), Some(0x180));
    assert_eq!(taskbar_ex_style(0x180, false), Some(0x40100));
    assert_eq!(taskbar_ex_style(0x100, true), Some(0x180));
    assert_eq!(taskbar_ex_style(0, true), None);
    assert_eq!(taskbar_ex_style(0, false), None);
    assert_eq!(taskbar_ex_style(-1, true), Some(!0x40000));
}

#[test]
fn taskbar_last_request_wins() {
    for style in [0x100, 0x40100, 0x180, 0x8_0000, -1] {
        let hidden = taskbar_ex_style(style, true).unwrap();
        let shown = taskbar_ex_style(style, false).unwrap();
        assert_eq!(taskbar_ex_style(hidden, true), Some(hidden));
        assert_eq!(taskbar_ex_style(shown, true), Some(hidden));
        assert_eq!(taskbar_ex_style(hidden, false), Some(shown));
        assert_eq!(hidden & 0x80, 0x80);
        assert_eq!(hidden & 0x40000, 0);
    }
}

#[test]
fn hook_acts_on_created_and_shown_top_level_windows() {
    let chrome = Some("Chrome_WidgetWin_1".to_string());
    assert_eq!(hook_action(EVENT_OBJECT_CREATE, 0, 0, 0x10, 0, &chrome, false), HookAction::Protect);
    assert_eq!(hook_action(EVENT_OBJECT_SHOW, 0, 0, 0x10, WS_VISIBLE, &chrome, false), HookAction::Protect);
    assert_eq!(hook_action(EVENT_OBJECT_SHOW, 0, 0, 0x10, 0, &chrome, false), HookAction::Skip);
    assert_eq!(hook_action(EVENT_OBJECT_LOCATIONCHANGE, 0, 0, 0x10, WS_VISIBLE, &chrome, false), HookAction::Reverify);
    assert_eq!(hook_action(EVENT_OBJECT_CREATE, 0, 0, 0x10, WS_CHILD, &chrome, false), HookAction::Skip);
    assert_eq!(hook_action(EVENT_OBJECT_CREATE, 1, 0, 0x10, 0, &chrome, false), HookAction::Skip);
    assert_eq!(hook_action(EVENT_OBJECT_CREATE, 0, 0, 0, 0, &chrome, false), HookAction::Skip);
    assert_eq!(hook_action(EVENT_OBJECT_CREATE, 0, 0, 0x10, 0, &None, false), HookAction::Protect);
}

#[test]
fn hook_never_touches_shell_windows() {
    for c in ["Progman", "WorkerW", "Shell_TrayWnd"] {
        assert_eq!(hook_action(EVENT_OBJECT_CREATE, 0, 0, 0x10, 0, &Some(c.to_string()), false), HookAction::Skip);
    }
}

#[test]
fn explorer_mode_only_task_view() {
    let tv = Some("XamlExplorerHostIslandWindow".to_string());
    let wasdk = Some("XamlExplorerHostIslandWindow_WASDK".to_string());
    let cab = Some("CabinetWClass".to_string());
    assert_eq!(hook_action(EVENT_OBJECT_SHOW, 0, 0, 0x10, WS_VISIBLE, &tv, true), HookAction::Protect);
    assert_eq!(hook_action(EVENT_OBJECT_SHOW, 0, 0, 0x10, WS_VISIBLE, &wasdk, true), HookAction::Skip);
    assert_eq!(hook_action(EVENT_OBJECT_CREATE, 0, 0, 0x10, 0, &cab, true), HookAction::Skip);
    assert_eq!(hook_action(EVENT_OBJECT_CREATE, 0, 0, 0x10, 0, &None, true), HookAction::Skip);
    assert!(is_task_switching_class(&tv));
    assert!(!is_task_switching_class(&wasdk));
    assert!(!is_task_switching_class(&None));
    assert!(targets_existing_task_view(4, 4, &tv));
    assert!(!targets_existing_task_view(4, 5, &tv));
    assert!(!targets_existing_task_view(4, 4, &cab));
}

#[test]
fn cloak_rules() {
    assert!(cloak_after_protect(EVENT_OBJECT_CREATE, false, true));
    assert!(cloak_after_protect(EVENT_OBJECT_SHOW, false, false));
    assert!(!cloak_after_protect(EVENT_OBJECT_SHOW, false, true));
    assert!(!cloak_after_protect(EVENT_OBJECT_CREATE, true, false));
}

#[test]
fn uncloak_retries_end_after_four_checks() {
    assert_eq!(uncloak_delay_ms(0), 80);
    assert_eq!(uncloak_delay_ms(1), 20);
    assert_eq!(uncloak_step(0, false, true), UncloakStep::Abort);
    assert_eq!(uncloak_step(0, true, true), UncloakStep::Uncloak);
    assert_eq!(uncloak_step(0, true, false), UncloakStep::Retry);
    assert_eq!(uncloak_step(2, true, false), UncloakStep::Retry);
    assert_eq!(uncloak_step(3, true, false), UncloakStep::Uncloak);
    // Simulate a window whose exclusion never propagates.
    let mut check = 0;
    let mut waited = 0;
    loop {
        waited += uncloak_delay_ms(check);
        match uncloak_step(check, true, false) {
            UncloakStep::Retry => check += 1,
            other => {
                assert_eq!(other, UncloakStep::Uncloak);
                break;
            }
        }
    }
    assert_eq!(check, 3);
    assert_eq!(waited, 140);
}

#[test]
fn hook_enable_is_idempotent_and_disable_allows_retry() {
    let mut s = HookState::new();
    assert!(!s.is_active());
    assert!(s.request_enable());
    assert!(s.is_active());
    assert!(!s.request_enable());
    s.registration_failed();
    assert!(!s.is_active());
    assert!(s.request_enable());
    assert!(s.disable());
    assert!(!s.is_active());
    assert!(s.request_enable());
    assert!(enable_result(Some(true)));
    assert!(!enable_result(Some(false)));
    assert!(!enable_result(None));
}

#[test]
fn explorer_mode_lifecycle() {
    let mut s = HookState::new();
    s.begin_explorer_request(true);
    assert!(s.explorer_mode());
    s.end_explorer_request(true);
    assert!(s.explorer_mode());
    s.begin_explorer_request(false);
    assert!(s.explorer_mode());
    s.end_explorer_request(false);
    assert!(!s.explorer_mode());
}
