use screen_shield::command_line::{hwnds_of_pid, non_flag_args, parse_cli, resolve_target, CliCommand, TargetResolution};
use screen_shield::window_list::WindowInfo;

fn args(v: &[&str]) -> Vec<String> {
    v.iter().map(|s| s.to_string()).collect()
}

fn win(hwnd: u32, pid: u32) -> WindowInfo {
    WindowInfo {
        hwnd,
        title: String::new(),
        class_name: String::new(),
        pid,
        parent_pid: 0,
        hidden: false,
        exe_path: String::new(),
        process_name: String::new(),
        icon_data_url: String::new(),
        no_window: false,
    }
}

#[test]
fn serve_and_list_modes() {
    assert_eq!(parse_cli(&args(&["--list", "--serve"])), CliCommand::Serve);
    assert_eq!(parse_cli(&args(&["--list"])), CliCommand::List { procs: vec![] });
    assert_eq!(
        parse_cli(&args(&["a.exe", "--list", "--procs", "steam.exe", "Chrome.exe"])),
        CliCommand::List { procs: args(&["steam.exe", "Chrome.exe"]) }
    );
    assert_eq!(
        parse_cli(&args(&["--list", "--procs", "a", "--x", "b"])),
        CliCommand::List { procs: args(&["a"]) }
    );
    assert_eq!(parse_cli(&args(&["--procs", "--list", "a"])), CliCommand::List { procs: vec![] });
    assert_eq!(parse_cli(&args(&["--list", "a", "--procs"])), CliCommand::List { procs: vec![] });
}

#[test]
fn enable_all_mode() {
    assert_eq!(
        parse_cli(&args(&["--enable-all", "1", "steam.exe", "--q", "x.exe"])),
        CliCommand::EnableAll { enable: true, names: args(&["steam.exe", "x.exe"]) }
    );
    assert_eq!(
        parse_cli(&args(&["--enable-all", "0", "steam.exe"])),
        CliCommand::EnableAll { enable: false, names: args(&["steam.exe"]) }
    );
    assert_eq!(
        parse_cli(&args(&["--enable-all", "steam.exe", "x.exe"])),
        CliCommand::EnableAll { enable: false, names: args(&["x.exe"]) }
    );
    assert_eq!(parse_cli(&args(&["--enable-all"])), CliCommand::EnableAll { enable: false, names: vec![] });
}

#[test]
fn watch_mode() {
    assert_eq!(
        parse_cli(&args(&["Steam.exe", "--watch", "CHROME.exe"])),
        CliCommand::Watch { names: args(&["steam.exe", "chrome.exe"]) }
    );
    assert_eq!(parse_cli(&args(&["--watch"])), CliCommand::Watch { names: vec![] });
}

#[test]
fn hide_unhide_modes() {
    assert_eq!(parse_cli(&args(&[])), CliCommand::Usage);
    assert_eq!(parse_cli(&args(&["1234"])), CliCommand::Usage);
    assert_eq!(parse_cli(&args(&["--hide"])), CliCommand::NoTargets);
    assert_eq!(
        parse_cli(&args(&["--hide", "1234", "chrome.exe"])),
        CliCommand::SetVisibility { hide: true, hide_from_taskbar: None, targets: args(&["1234", "chrome.exe"]) }
    );
    assert_eq!(
        parse_cli(&args(&["--unhide", "--taskbar", "99"])),
        CliCommand::SetVisibility { hide: false, hide_from_taskbar: Some(false), targets: args(&["99"]) }
    );
    assert_eq!(
        parse_cli(&args(&["--taskbar", "--hide", "--unhide", "99"])),
        CliCommand::SetVisibility { hide: true, hide_from_taskbar: Some(true), targets: args(&["99"]) }
    );
}

#[test]
fn non_flags_in_order() {
    assert_eq!(non_flag_args(&args(&["a", "--b", "-c", "d"])), args(&["a", "-c", "d"]));
}

#[test]
fn targets_resolve_by_handle_then_pid_then_name() {
    let ws = vec![win(100, 7), win(200, 7), win(300, 8), win(100, 9)];
    assert_eq!(resolve_target("300", &ws), TargetResolution::Window { pid: 8, hwnd: 300 });
    assert_eq!(resolve_target("100", &ws), TargetResolution::Window { pid: 9, hwnd: 100 });
    assert_eq!(resolve_target("7", &ws), TargetResolution::Process { pid: 7, hwnds: vec![100, 200] });
    assert_eq!(resolve_target("+8", &ws), TargetResolution::Process { pid: 8, hwnds: vec![300] });
    assert_eq!(resolve_target("55", &ws), TargetResolution::NotFound);
    assert_eq!(resolve_target("chrome.exe", &ws), TargetResolution::ByName);
    assert_eq!(resolve_target("-7", &ws), TargetResolution::ByName);
    assert_eq!(hwnds_of_pid(7, &ws), vec![100, 200]);
    assert_eq!(hwnds_of_pid(1, &ws), Vec::<u32>::new());
}
