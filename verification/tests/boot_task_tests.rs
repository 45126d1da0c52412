use switchboard::boot_task::{build_task_xml, extract_command, strip_verbatim, xml_escape, TASK_NAME};

#[test]
fn boot_task_test_xml_escape_basic() {
    let input = r#"C:\Program Files\app.exe"#;
    let output = xml_escape(input);
    assert_eq!(output, r#"C:\Program Files\app.exe"#);
}

#[test]
fn boot_task_test_xml_escape_passthrough() {
    let input = "plain text with no special chars";
    let output = xml_escape(input);
    assert_eq!(output, "plain text with no special chars");
}

#[test]
fn boot_task_test_xml_escape_combined() {
    let input = r#"<foo & "bar" > baz>"#;
    let output = xml_escape(input);
    assert_eq!(output, "&lt;foo &amp; &quot;bar&quot; &gt; baz&gt;");
}

#[test]
fn boot_task_test_strip_verbatim_present() {
    let input = r"\\?\C:\Users\test\app.exe";
    let output = strip_verbatim(input);
    assert_eq!(output, r"C:\Users\test\app.exe");
}

#[test]
fn boot_task_test_strip_verbatim_absent() {
    let input = r"C:\Users\test\app.exe";
    let output = strip_verbatim(input);
    assert_eq!(output, r"C:\Users\test\app.exe");
}

#[test]
fn boot_task_test_extract_command_valid() {
    let xml = r#"<Task><Actions><Exec><Command>C:\app.exe</Command></Exec></Actions></Task>"#;
    let cmd = extract_command(xml);
    assert_eq!(cmd, Some("C:\\app.exe".to_string()));
}

#[test]
fn boot_task_test_extract_command_escaped() {
    let xml = r#"<Command>&lt;C:\app &amp; tool&gt;</Command>"#;
    let cmd = extract_command(xml);
    assert_eq!(cmd, Some("<C:\\app & tool>".to_string()));
}

#[test]
fn boot_task_test_extract_command_missing() {
    let xml = r#"<Task><Actions><Exec></Exec></Actions></Task>"#;
    let cmd = extract_command(xml);
    assert_eq!(cmd, None);
}

#[test]
fn boot_task_test_extract_command_empty() {
    let xml = r#"<Command></Command>"#;
    let cmd = extract_command(xml);
    assert_eq!(cmd, Some("".to_string()));
}

#[test]
fn test_build_task_xml_structure() {
    let xml = build_task_xml(r"C:\switchboard\switchboard.exe");
    assert!(xml.contains("<BootTrigger"), "XML must contain BootTrigger");
    assert!(xml.contains("<UserId>S-1-5-18</UserId>"), "XML must specify SYSTEM SID");
    assert!(
        xml.contains("<Arguments>--recover</Arguments>"),
        "XML must contain --recover argument"
    );
    assert!(
        xml.contains("<ExecutionTimeLimit>PT2M</ExecutionTimeLimit>"),
        "XML must specify 2-minute time limit"
    );
}

#[test]
fn test_build_task_xml_roundtrip() {
    let test_path = r"C:\test\path\switchboard.exe";
    let xml = build_task_xml(test_path);
    let extracted = extract_command(&xml);
    assert_eq!(
        extracted,
        Some(test_path.to_string()),
        "Roundtrip: build_task_xml → extract_command should recover the original path"
    );
}

#[test]
fn build_task_xml_roundtrip_with_markup_in_path() {
    let path = r#"C:\We & "Co"\<bin>\switchboard.exe"#;
    let xml = build_task_xml(path);
    assert_eq!(extract_command(&xml), Some(path.to_string()));
    assert!(xml.contains(r#"<Command>C:\We &amp; &quot;Co&quot;\&lt;bin&gt;\switchboard.exe</Command>"#));
}

#[test]
fn unescape_of_double_escaped_entity() {
    assert_eq!(extract_command("<Command>&amp;lt;</Command>"), Some("&lt;".to_string()));
}

#[test]
fn boot_task_name() {
    assert_eq!(TASK_NAME, "switchboard-boot-recover");
}
