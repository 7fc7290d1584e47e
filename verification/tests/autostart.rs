use mem_reduct::autostart::{
    install_plan, is_startup_launch, install_result, mark_pending, publish_result, record_target, same_path,
    sid_to_string, task_result, task_state, task_xml, task_xml_bytes, uninstall, xml_escape,
    ExitReport, CREATE_NO_WINDOW, RESULT_OK, RESULT_PENDING, STARTUP_ARG,
};
use mem_reduct::registry::wide;

#[test]
fn startup_arg_constant_is_consistent() {
    assert_eq!(STARTUP_ARG, "-startup");
}

#[test]
fn no_window_flag_is_create_no_window() {
    assert_eq!(CREATE_NO_WINDOW, 0x0800_0000);
}

#[test]
fn task_xml_neutralises_every_schtasks_default() {
    let xml = task_xml(r"C:\Program Files\Mem Reduct\mem-reduct.exe", "S-1-5-21-1-2-3-1001");

    assert!(xml.contains("<DisallowStartIfOnBatteries>false</DisallowStartIfOnBatteries>"));
    assert!(xml.contains("<StopIfGoingOnBatteries>false</StopIfGoingOnBatteries>"));
    assert!(xml.contains("<ExecutionTimeLimit>PT0S</ExecutionTimeLimit>"));
    assert!(xml.contains("<StartWhenAvailable>true</StartWhenAvailable>"));
    assert!(xml.contains("<MultipleInstancesPolicy>IgnoreNew</MultipleInstancesPolicy>"));
    assert!(xml.contains("<RunLevel>HighestAvailable</RunLevel>"));
    assert!(xml.contains("<LogonTrigger>"));
    assert!(xml.contains("<UserId>S-1-5-21-1-2-3-1001</UserId>"));
    assert!(xml.contains(r#"<Command>"C:\Program Files\Mem Reduct\mem-reduct.exe"</Command>"#));
    assert!(xml.contains("<Arguments>-startup</Arguments>"));
}

#[test]
fn task_xml_escapes_metacharacters_in_the_path() {
    let xml = task_xml(r"C:\A&B\a<b>c\d.exe", "S-1-5-21-1");
    assert!(xml.contains(r#"<Command>"C:\A&amp;B\a&lt;b&gt;c\d.exe"</Command>"#));
    assert!(!xml.contains("A&B"));
    assert!(!xml.contains("a<b>c"));
}

#[test]
fn task_xml_declares_the_encoding_schtasks_demands() {
    assert!(task_xml("x", "S-1-5-21-1").starts_with(r#"<?xml version="1.0" encoding="UTF-16"?>"#));
}

#[test]
fn task_xml_write_is_utf16le_with_a_bom() {
    let bytes = task_xml_bytes("<a>é</a>");
    assert_eq!(&bytes[..2], &[0xff, 0xfe], "BOM");
    assert_eq!(&bytes[2..8], &[0x3c, 0x00, 0x61, 0x00, 0x3e, 0x00]);
    assert_eq!(&bytes[8..10], &[0xe9, 0x00]);
    assert_eq!(bytes.len() % 2, 0);
}

#[test]
fn sid_formatting_matches_the_sddl_layout() {
    let mut raw = vec![1u8, 5u8];
    raw.extend_from_slice(&[0, 0, 0, 0, 0, 5]);
    for sub in [21u32, 2145379151, 409696732, 3204728361, 1001] {
        raw.extend_from_slice(&sub.to_le_bytes());
    }
    assert_eq!(
        sid_to_string(&raw).as_deref(),
        Some("S-1-5-21-2145379151-409696732-3204728361-1001")
    );
}

#[test]
fn sid_formatting_handles_an_empty_sub_authority_list() {
    assert_eq!(sid_to_string(&[1, 0, 0, 0, 0, 0, 0, 5]).as_deref(), Some("S-1-5"));
}

#[test]
fn sid_formatting_rejects_truncated_input() {
    assert_eq!(sid_to_string(&[]), None);
    let mut raw = vec![1u8, 2u8, 0, 0, 0, 0, 0, 5];
    raw.extend_from_slice(&7u32.to_le_bytes());
    assert_eq!(sid_to_string(&raw), None);
}

#[test]
fn path_comparison_ignores_case_separators_and_prefix() {
    assert!(same_path(
        r"C:\Users\a\Mem Reduct\mem-reduct.exe",
        r"c:/users/A/MEM REDUCT/mem-reduct.exe"
    ));
    assert!(same_path(r"\\?\C:\x\y.exe", r"C:\x\y.exe"));
    assert!(!same_path(r"C:\x\y.exe", r"C:\x\z.exe"));
    assert!(!same_path("", r"C:\x\y.exe"));
}

#[test]
fn path_comparison_ignores_trailing_separators_and_non_ascii_case() {
    assert!(same_path(r"C:\Users\Ärger\app\", r"c:\users\ärger\APP"));
    assert!(same_path(r"C:\x\y.exe", r"C:\x\y.exe"));
}

#[test]
fn task_state_requires_a_matching_record() {
    let exe = Some(r"C:\x\y.exe".to_string());
    let s = task_state(true, Some(r"c:/X/Y.EXE".to_string()), exe.clone());
    assert!(s.enabled && !s.stale);
    let s = task_state(true, Some(r"C:\other\y.exe".to_string()), exe.clone());
    assert!(!s.enabled && s.stale);
    let s = task_state(true, None, exe.clone());
    assert!(!s.enabled && s.stale);
    let s = task_state(false, Some(r"C:\x\y.exe".to_string()), exe);
    assert!(!s.enabled && !s.stale);
}

#[test]
fn xml_escape_replaces_every_metacharacter() {
    assert_eq!(xml_escape(r#"a&b<c>d"e'f"#), "a&amp;b&lt;c&gt;d&quot;e&apos;f");
    assert_eq!(xml_escape("plain"), "plain");
}

#[test]
fn install_plan_reports_what_is_missing() {
    assert_eq!(install_plan(None, Some("S-1".into())).err().as_deref(), Some("无法确定程序自身路径"));
    assert_eq!(
        install_plan(Some("C:\\a.exe".into()), None).err().as_deref(),
        Some("无法获取当前用户 SID")
    );
    let plan = install_plan(Some("C:\\a.exe".into()), Some("S-1".into())).unwrap();
    assert_eq!(plan.exe, "C:\\a.exe");
    assert_eq!(&plan.definition[..2], &[0xff, 0xfe]);
}

#[test]
fn schtasks_outcomes_become_messages() {
    assert_eq!(install_result(Ok(ExitReport { success: true, code: Some(0) })), Ok(()));
    assert_eq!(
        install_result(Ok(ExitReport { success: false, code: Some(5) })),
        Err("schtasks /create 退出码: 5".to_string())
    );
    assert_eq!(
        install_result(Ok(ExitReport { success: false, code: None })),
        Err("schtasks /create 退出码: -1".to_string())
    );
    assert_eq!(
        install_result(Err("denied".into())),
        Err("无法运行 schtasks: denied".to_string())
    );
    assert_eq!(
        uninstall(Ok(ExitReport { success: false, code: Some(1) })),
        Err("schtasks /delete 退出码: 1".to_string())
    );
    assert_eq!(uninstall(Err("gone".into())), Err("gone".to_string()));
}

#[test]
fn helper_results_are_published_under_the_result_value() {
    let w = publish_result(RESULT_OK);
    assert_eq!(w.subkey, r"Software\memreduct\Mem Reduct");
    assert_eq!(w.value, "Autostart Result");
    assert_eq!(w.data, "ok");
    let p = mark_pending();
    assert_eq!(p.data, RESULT_PENDING);
    assert_eq!(p.value, "Autostart Result");
    let t = record_target(r"C:\x\y.exe");
    assert_eq!(t.value, "Autostart Target");
}

#[test]
fn task_result_reads_back_a_published_value() {
    let mut buf = vec![0u16; 512];
    let units = wide("failed:boom");
    buf[..units.len()].copy_from_slice(&units);
    assert_eq!(task_result(&buf, (units.len() * 2) as u32, 1).as_deref(), Some("failed:boom"));
    assert_eq!(task_result(&buf, 0, 1), None);
    assert_eq!(task_result(&buf, (units.len() * 2) as u32, 4), None);
}

#[test]
fn startup_launch_is_recognised_by_its_argument() {
    assert!(is_startup_launch(&vec!["x".to_string(), "-startup".to_string()]));
    assert!(!is_startup_launch(&vec!["-STARTUP".to_string()]));
    assert!(!is_startup_launch(&vec![]));
}

#[test]
fn escaped_text_unescapes_to_the_input() {
    let input = r#"a&b<c>"d"'e&amp;"#;
    let escaped = xml_escape(input);
    let back = escaped
        .replace("&lt;", "<")
        .replace("&gt;", ">")
        .replace("&quot;", "\"")
        .replace("&apos;", "'")
        .replace("&amp;", "&");
    assert_eq!(back, input);
    assert!(!escaped.contains('<') && !escaped.contains('>') && !escaped.contains('"'));
}

fn stored_units(bytes: &[u8]) -> Vec<u16> {
    let mut buf = vec![0u16; 512];
    for (i, pair) in bytes.chunks(2).enumerate() {
        buf[i] = u16::from_le_bytes([pair[0], pair[1]]);
    }
    buf
}

#[test]
fn acknowledgement_round_trips_through_its_bytes() {
    for (write, expected) in [
        (mark_pending(), Some("pending")),
        (publish_result(RESULT_OK), Some("ok")),
        (publish_result("failed:拒绝访问"), Some("failed:拒绝访问")),
        (publish_result(""), None),
    ] {
        let bytes = write.bytes();
        let buf = stored_units(&bytes);
        assert_eq!(task_result(&buf, bytes.len() as u32, 1).as_deref(), expected);
    }
}
