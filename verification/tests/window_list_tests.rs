use screen_shield::window_list::{
    attach_icons, attach_parent_pids, attach_process_info, copy_window, distinct_pids, icon_plan,
    listed_pids, remove_system_hosts, select_tray_processes, tray_entry, window_entry, IconPlan,
    ProcessEntry, ProcessInfo, WindowInfo, WindowProbe,
};
use std::collections::HashSet;

fn probe(affinity: Option<u32>, visible: bool, class: &str, title: &str) -> WindowProbe {
    WindowProbe {
        affinity,
        visible,
        left: 10,
        top: 10,
        right: 810,
        bottom: 610,
        class_name: class.to_string(),
        title: title.to_string(),
        cloaked: Some(0),
        pid: 100,
        thread_id: 200,
    }
}

fn win(hwnd: u32, pid: u32, name: &str) -> WindowInfo {
    WindowInfo {
        hwnd,
        title: format!("w{hwnd}"),
        class_name: "C".to_string(),
        pid,
        parent_pid: 0,
        hidden: false,
        exe_path: format!("C:\\x\\{name}"),
        process_name: name.to_string(),
        icon_data_url: String::new(),
        no_window: false,
    }
}

#[test]
fn listed_window_entry() {
    let w = window_entry(0xABC, probe(Some(0), true, "Notepad", "notes.txt")).unwrap();
    assert_eq!(
        w,
        WindowInfo {
            hwnd: 0xABC,
            title: "notes.txt".to_string(),
            class_name: "Notepad".to_string(),
            pid: 100,
            parent_pid: 0,
            hidden: false,
            exe_path: String::new(),
            process_name: String::new(),
            icon_data_url: String::new(),
            no_window: false,
        }
    );
}

#[test]
fn skipped_windows() {
    assert!(window_entry(1, probe(None, true, "Notepad", "t")).is_none());
    assert!(window_entry(1, probe(Some(0), false, "Notepad", "t")).is_none());
    let mut p = probe(Some(0), true, "Notepad", "t");
    p.right = p.left;
    p.bottom = p.top;
    assert!(window_entry(1, p).is_none());
    assert!(window_entry(1, probe(Some(0), true, "WorkerW", "t")).is_none());
    assert!(window_entry(1, probe(Some(0), true, "NotifyIconOverflowWindow", "t")).is_none());
    assert!(window_entry(1, probe(Some(0), true, "MS_WebCheckMonitor", "t")).is_none());
    assert!(window_entry(1, probe(Some(0x11), true, "MS_WebCheckMonitor", "t")).is_none());
    assert!(window_entry(1, probe(Some(0), true, "Progman", "Program Manager")).is_some());
    assert!(window_entry(1, probe(Some(0), true, "Notepad", "")).is_none());
    let mut p = probe(Some(0), true, "Notepad", "t");
    p.cloaked = Some(2);
    assert!(window_entry(1, p).is_none());
    let mut p = probe(Some(0), true, "Notepad", "t");
    p.cloaked = None;
    assert!(window_entry(1, p).is_none());
    let mut p = probe(Some(0), true, "Notepad", "t");
    p.thread_id = 0;
    assert!(window_entry(1, p).is_none());
}

#[test]
fn hidden_windows_stay_listed() {
    let mut p = probe(Some(0x11), false, "Chrome_WidgetWin_1", "Tab");
    p.right = p.left;
    p.bottom = p.top;
    p.cloaked = Some(1);
    let w = window_entry(5, p).unwrap();
    assert!(w.hidden);
    assert_eq!(w.title, "Tab");
}

#[test]
fn shell_windows_get_synthetic_titles() {
    assert_eq!(window_entry(1, probe(Some(0), true, "Shell_TrayWnd", "")).unwrap().title, "Taskbar");
    assert_eq!(window_entry(1, probe(Some(0), true, "Shell_SecondaryTrayWnd", "")).unwrap().title, "Taskbar");
    assert_eq!(
        window_entry(1, probe(Some(0), true, "MultitaskingViewFrame", "")).unwrap().title,
        "Alt+Tab Switcher"
    );
    assert_eq!(window_entry(1, probe(Some(0), true, "Shell_TrayWnd", "Own")).unwrap().title, "Own");
}

#[test]
fn process_info_parent_and_icons() {
    let ws = vec![win(1, 10, ""), win(2, 20, ""), win(3, 10, "")];
    assert_eq!(distinct_pids(&ws), vec![10, 20]);
    let infos = vec![(10, ProcessInfo { exe_path: "C:\\a\\A.exe".to_string(), process_name: "A.exe".to_string() })];
    let ws = attach_process_info(&ws, &infos);
    assert_eq!(ws[0].process_name, "A.exe");
    assert_eq!(ws[2].exe_path, "C:\\a\\A.exe");
    assert_eq!(ws[1].process_name, "");
    assert_eq!(ws[1].exe_path, "");
    let ws = attach_parent_pids(&ws, &vec![(20, 4), (10, 8), (20, 99)]);
    assert_eq!((ws[0].parent_pid, ws[1].parent_pid, ws[2].parent_pid), (8, 4, 8));
    let ws = attach_icons(&ws, &vec![(10, "data:x".to_string())]);
    assert_eq!(ws[0].icon_data_url, "data:x");
    assert_eq!(ws[1].icon_data_url, "");
    assert_eq!(ws[2].icon_data_url, "data:x");
    assert_eq!(ws[1].title, "w2");
}

#[test]
fn icon_sources_per_process() {
    let ws = vec![
        win(1, 10, "chrome.exe"),
        win(2, 20, "Explorer.EXE"),
        win(3, 10, "chrome.exe"),
        win(4, 20, "Explorer.EXE"),
        win(5, 30, "app.exe"),
    ];
    assert_eq!(
        icon_plan(&ws),
        IconPlan {
            by_window: vec![(10, 1), (30, 5)],
            by_exe: vec![(20, "C:\\x\\Explorer.EXE".to_string())],
        }
    );
}

#[test]
fn shell_hosts_are_removed() {
    let ws = vec![win(1, 10, "ApplicationFrameHost.exe"), win(2, 20, "calc.exe"), win(3, 30, "applicationframehost.exe")];
    let r = remove_system_hosts(&ws);
    assert_eq!(r.len(), 1);
    assert_eq!(r[0], copy_window(&ws[1]));
}

#[test]
fn tray_processes() {
    let snapshot = vec![
        ProcessEntry { pid: 1, parent_pid: 0, exe_name: "steam.exe".to_string() },
        ProcessEntry { pid: 2, parent_pid: 1, exe_name: "SteamWebHelper.exe".to_string() },
        ProcessEntry { pid: 3, parent_pid: 1, exe_name: "steamwebhelper.exe".to_string() },
        ProcessEntry { pid: 2, parent_pid: 1, exe_name: "steamwebhelper.exe".to_string() },
        ProcessEntry { pid: 4, parent_pid: 0, exe_name: "notepad.exe".to_string() },
    ];
    let names = vec!["steamwebhelper.exe".to_string(), "STEAM.exe".to_string()];
    let mut exclude = HashSet::new();
    exclude.insert(3);
    let sel = select_tray_processes(&names, &exclude, &snapshot);
    let pids: Vec<u32> = sel.iter().map(|e| e.pid).collect();
    assert_eq!(pids, vec![1, 2]);
    let e = tray_entry(&sel[1], "C:\\s\\steamwebhelper.exe".to_string(), String::new());
    assert_eq!(
        e,
        WindowInfo {
            hwnd: 0,
            title: "SteamWebHelper.exe".to_string(),
            class_name: String::new(),
            pid: 2,
            parent_pid: 1,
            hidden: false,
            exe_path: "C:\\s\\steamwebhelper.exe".to_string(),
            process_name: "SteamWebHelper.exe".to_string(),
            icon_data_url: String::new(),
            no_window: true,
        }
    );
    let e = tray_entry(&sel[0], "C:\\s\\steam.exe".to_string(), "steam.exe".to_string());
    assert_eq!(e.process_name, "steam.exe");
}

#[test]
fn listed_pid_set() {
    let ws = vec![win(1, 10, "a"), win(2, 20, "b"), win(3, 10, "a")];
    let set = listed_pids(&ws);
    assert_eq!(set.len(), 2);
    assert!(set.contains(&10) && set.contains(&20));
}

#[test]
fn more_exclusions_only_remove_those_processes() {
    let snapshot = vec![
        ProcessEntry { pid: 1, parent_pid: 0, exe_name: "steam.exe".to_string() },
        ProcessEntry { pid: 2, parent_pid: 1, exe_name: "steam.exe".to_string() },
        ProcessEntry { pid: 3, parent_pid: 1, exe_name: "steam.exe".to_string() },
    ];
    let names = vec!["steam.exe".to_string()];
    let ex1: HashSet<u32> = [2].into_iter().collect();
    let ex2: HashSet<u32> = [2, 3].into_iter().collect();
    let p = |v: Vec<ProcessEntry>| v.iter().map(|e| e.pid).collect::<Vec<u32>>();
    assert_eq!(p(select_tray_processes(&names, &ex1, &snapshot)), vec![1, 3]);
    assert_eq!(p(select_tray_processes(&names, &ex2, &snapshot)), vec![1]);
    assert!(select_tray_processes(&vec![], &HashSet::new(), &snapshot).is_empty());
}
