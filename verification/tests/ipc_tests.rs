use screen_shield::ipc::{dispatch, RequestParams, ServeAction};

fn params() -> RequestParams {
    RequestParams {
        proc_names: vec!["steam.exe".to_string()],
        hwnds: vec![0x1_0000_0005, 17],
        alt_tab: None,
        names: vec!["Chrome.EXE".to_string()],
        enable: None,
    }
}

#[test]
fn list_and_watch_commands() {
    assert_eq!(dispatch("list", params()), ServeAction::List { proc_names: vec!["steam.exe".to_string()] });
    assert_eq!(dispatch("watch", params()), ServeAction::Watch { names: vec!["Chrome.EXE".to_string()] });
    assert_eq!(dispatch("stop-watch", params()), ServeAction::StopWatch);
}

#[test]
fn hide_and_unhide_commands() {
    assert_eq!(
        dispatch("hide", params()),
        ServeAction::SetVisibility { hide: true, hide_from_taskbar: None, hwnds: vec![5, 17] }
    );
    let mut p = params();
    p.alt_tab = Some(true);
    assert_eq!(
        dispatch("unhide", p),
        ServeAction::SetVisibility { hide: false, hide_from_taskbar: Some(false), hwnds: vec![5, 17] }
    );
    let mut p = params();
    p.alt_tab = Some(false);
    assert_eq!(
        dispatch("hide", p),
        ServeAction::SetVisibility { hide: true, hide_from_taskbar: None, hwnds: vec![5, 17] }
    );
}

#[test]
fn enable_all_command() {
    assert_eq!(
        dispatch("enable-all", params()),
        ServeAction::EnableAll { enable: false, names: vec!["Chrome.EXE".to_string()] }
    );
    let mut p = params();
    p.enable = Some(true);
    assert_eq!(dispatch("enable-all", p), ServeAction::EnableAll { enable: true, names: vec!["Chrome.EXE".to_string()] });
}

#[test]
fn unknown_command_error() {
    assert_eq!(dispatch("frobnicate", params()), ServeAction::Unknown { message: "unknown command: frobnicate".to_string() });
    assert_eq!(dispatch("LIST", params()), ServeAction::Unknown { message: "unknown command: LIST".to_string() });
}
