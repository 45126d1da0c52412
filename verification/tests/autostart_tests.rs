use switchboard::autostart::{
    build_logon_task_xml, extract_command, legacy_run_value_delete_failed, strip_verbatim,
    username_from, xml_escape,
};

#[test]
fn autostart_test_xml_escape_basic() {
    assert_eq!(xml_escape("&"), "&amp;");
    assert_eq!(xml_escape("<"), "&lt;");
    assert_eq!(xml_escape(">"), "&gt;");
    assert_eq!(xml_escape("\""), "&quot;");
}

#[test]
fn autostart_test_xml_escape_passthrough() {
    assert_eq!(xml_escape("plain ascii string 123"), "plain ascii string 123");
}

#[test]
fn autostart_test_xml_escape_combined() {
    let escaped = xml_escape("<\"foo\" & bar>");
    assert!(!escaped.contains('<'));
    assert!(!escaped.contains('>'));
    assert!(!escaped.contains('"'));
    for (i, _) in escaped.match_indices('&') {
        let tail = &escaped[i..];
        assert!(
            tail.starts_with("&amp;")
                || tail.starts_with("&lt;")
                || tail.starts_with("&gt;")
                || tail.starts_with("&quot;"),
            "unescaped & at position {} in {}",
            i,
            escaped
        );
    }
}

#[test]
fn autostart_test_strip_verbatim_present() {
    assert_eq!(strip_verbatim(r"\\?\C:\foo"), r"C:\foo");
}

#[test]
fn autostart_test_strip_verbatim_absent() {
    assert_eq!(strip_verbatim(r"C:\foo"), r"C:\foo");
}

#[test]
fn autostart_test_extract_command_valid() {
    let xml = r"<Task><Command>C:\path\switchboard.exe</Command></Task>";
    assert_eq!(extract_command(xml), Some(r"C:\path\switchboard.exe".to_string()));
}

#[test]
fn autostart_test_extract_command_escaped() {
    let xml = r"<Task><Command>C:\path&amp;X\switchboard.exe</Command></Task>";
    let got = extract_command(xml).expect("should extract");
    assert_eq!(got, r"C:\path&X\switchboard.exe");
}

#[test]
fn autostart_test_extract_command_missing() {
    let xml = "<Task><NoCommand/></Task>";
    assert_eq!(extract_command(xml), None);
}

#[test]
fn autostart_test_extract_command_empty() {
    let xml = "<Task><Command></Command></Task>";
    assert_eq!(extract_command(xml), Some(String::new()));
}

#[test]
fn test_logon_task_xml_structure() {
    let xml = build_logon_task_xml(r"C:\switchboard.exe", "testuser");
    assert!(xml.contains("<LogonTrigger"), "missing LogonTrigger");
    assert!(xml.contains("<UserId"), "missing UserId");
    assert!(xml.contains("HighestAvailable"), "missing HighestAvailable RunLevel");
    assert!(xml.contains("<Command>"), "missing Command");
}

#[test]
fn test_logon_task_xml_roundtrip() {
    let path = r"C:\my path\switchboard.exe";
    let xml = build_logon_task_xml(path, "testuser");
    let extracted = extract_command(&xml);
    assert!(extracted.is_some(), "extract_command returned None for generated XML");
    assert_eq!(extracted.unwrap(), path);
}

#[test]
fn logon_task_xml_escapes_user_and_path() {
    let xml = build_logon_task_xml(r"C:\a&b\<x>.exe", "dom\"ain");
    assert!(xml.contains("<UserId>dom&quot;ain</UserId>"));
    assert!(xml.contains(r"<Command>C:\a&amp;b\&lt;x&gt;.exe</Command>"));
    assert_eq!(extract_command(&xml), Some(r"C:\a&b\<x>.exe".to_string()));
}

#[test]
fn logon_task_xml_starts_with_declaration() {
    let xml = build_logon_task_xml(r"C:\s.exe", "u");
    assert!(xml.starts_with("<?xml version=\"1.0\" encoding=\"UTF-16\"?>\n<Task version=\"1.2\""));
    assert!(xml.contains("<Description>switchboard autostart: launches switchboard at user logon with silent elevation</Description>"));
    assert!(xml.ends_with("</Task>"));
}

#[test]
fn extract_command_takes_first_command() {
    let xml = "<Command>a</Command><Command>b</Command>";
    assert_eq!(extract_command(xml), Some("a".to_string()));
}

#[test]
fn extract_command_unclosed_is_none() {
    assert_eq!(extract_command("<Command>abc"), None);
}

#[test]
fn xml_escape_non_ascii_passes_through() {
    assert_eq!(xml_escape("Ünïcødé & ☃"), "Ünïcødé &amp; ☃");
}

#[test]
fn username_from_buffer() {
    let mut buf: Vec<u16> = "tester".encode_utf16().collect();
    buf.push(0);
    buf.extend([0x41u16, 0x42]);
    assert_eq!(username_from(true, &buf), Ok("tester".to_string()));
    assert_eq!(username_from(false, &buf), Err("GetUserNameW failed".to_string()));
}

#[test]
fn username_from_buffer_replaces_lone_surrogate() {
    let buf: Vec<u16> = vec![0x61, 0xD800, 0x62, 0];
    assert_eq!(username_from(true, &buf), Ok("a\u{FFFD}b".to_string()));
}

#[test]
fn legacy_run_value_delete_outcomes() {
    assert!(!legacy_run_value_delete_failed(0));
    assert!(!legacy_run_value_delete_failed(2));
    assert!(legacy_run_value_delete_failed(5));
}
