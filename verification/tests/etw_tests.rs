use screen_shield::etw::{image_file_name, is_process_start, parse_process_start, ProcessStart, KERNEL_PROCESS_GUID};

fn payload(pid: u32, ppid: u32, path: &str, terminated: bool) -> Vec<u8> {
    let mut v = Vec::new();
    v.extend_from_slice(&pid.to_le_bytes());
    v.extend_from_slice(&ppid.to_le_bytes());
    for u in path.encode_utf16() {
        v.extend_from_slice(&u.to_le_bytes());
    }
    if terminated {
        v.extend_from_slice(&[0, 0]);
        // data after the terminator is ignored
        v.extend_from_slice(&[0x41, 0x00]);
    }
    v
}

#[test]
fn provider_and_event_id() {
    assert_eq!(KERNEL_PROCESS_GUID, 0x22fb2cd6_0e7b_422b_a0c7_2fad1fd0e716);
    assert!(is_process_start(KERNEL_PROCESS_GUID, 1));
    assert!(!is_process_start(KERNEL_PROCESS_GUID, 2));
    assert!(!is_process_start(KERNEL_PROCESS_GUID + 1, 1));
}

#[test]
fn parses_pid_and_image_path() {
    let path = "\\Device\\HarddiskVolume3\\Program Files (x86)\\Steam\\bin\\cef\\steamwebhelper.exe";
    let data = payload(0x1234_5678, 4, path, true);
    let rec = parse_process_start(&data).unwrap();
    assert_eq!(rec.pid, 0x1234_5678);
    let units = rec.image.unwrap();
    assert_eq!(units, path.encode_utf16().collect::<Vec<u16>>());
    assert_eq!(image_file_name(&units), "steamwebhelper.exe");
}

#[test]
fn unterminated_path_and_odd_byte() {
    let mut data = payload(7, 1, "C:\\Apps\\Chrome.EXE", false);
    data.push(0x5C);
    let rec = parse_process_start(&data).unwrap();
    assert_eq!(image_file_name(&rec.image.unwrap()), "chrome.exe");
}

#[test]
fn short_payloads() {
    assert_eq!(parse_process_start(&[1, 2, 3]), None);
    assert_eq!(parse_process_start(&[]), None);
    assert_eq!(parse_process_start(&[1, 0, 0, 0]), Some(ProcessStart { pid: 1, image: None }));
    assert_eq!(parse_process_start(&[1, 0, 0, 0, 9, 9, 9, 9]), Some(ProcessStart { pid: 1, image: None }));
    assert_eq!(
        parse_process_start(&[1, 0, 0, 0, 9, 9, 9, 9, 0x41]),
        Some(ProcessStart { pid: 1, image: Some(vec![]) })
    );
}

#[test]
fn file_name_of_paths() {
    let f = |s: &str| image_file_name(&s.encode_utf16().collect());
    assert_eq!(f("notepad.exe"), "notepad.exe");
    assert_eq!(f("C:\\Windows\\"), "");
    assert_eq!(f(""), "");
    assert_eq!(f("C:/a/B.exe"), "c:/a/b.exe");
    assert_eq!(image_file_name(&vec![0x5C, 0xD800, 0x41]), "\u{FFFD}a");
}
