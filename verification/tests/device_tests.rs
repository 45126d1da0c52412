use switchboard::device::{
    classify_candidates, config_registry_path, disable_and_verify, hardware_ids_from,
    instance_id_from, parent_from_property, plan_config_flags, reeval_next,
    registry_property_text, same_instance_id, state_from_config_query, state_from_flags,
    wide_buffer_len, CandidateInfo, DeviceError, EnableOutcome, KeyboardState, ReevalNext,
    ReevalStep, ResolveResult, Target,
};

fn target_candidate() -> CandidateInfo {
    CandidateInfo {
        instance_id: "HID\\INTC6C1\\3&30C19A8C&0&0000".to_string(),
        hardware_ids: vec![
            "HID\\VID_045E&PID_006C&REV_0001&Col01".to_string(),
            "HID\\VID_045E&PID_006C&Col01".to_string(),
        ],
        parent: "{2DEDC554-A829-42AB-90E9-E4E4B4772981}\\Target_SAM".to_string(),
        service: "kbdhid".to_string(),
        config_flags: 0,
    }
}

fn wide(s: &str) -> Vec<u16> {
    let mut v: Vec<u16> = s.encode_utf16().collect();
    v.push(0);
    v
}

#[test]
fn test_matches_exact_target() {
    assert!(switchboard::device::matches(&target_candidate()), "Exact target should match");
}

#[test]
fn test_matches_wrong_service() {
    let mut c = target_candidate();
    c.service = "i8042prt".to_string();
    assert!(!switchboard::device::matches(&c), "Wrong service should NOT match");
}

#[test]
fn test_matches_wrong_vid_pid() {
    let mut c = target_candidate();
    c.hardware_ids = vec!["HID\\VID_045E&PID_0000&REV_0001".to_string()];
    assert!(!switchboard::device::matches(&c), "Wrong VID/PID should NOT match");
}

#[test]
fn test_matches_wrong_parent() {
    let mut c = target_candidate();
    c.parent = "USB\\ROOT_HUB30\\4&3B0D5C8&0&0".to_string();
    assert!(!switchboard::device::matches(&c), "Wrong parent should NOT match");
}

#[test]
fn test_matches_empty_hardware_ids() {
    let mut c = target_candidate();
    c.hardware_ids = vec![];
    assert!(!switchboard::device::matches(&c), "Empty hardware IDs should NOT match");
}

#[test]
fn test_matches_case_insensitive_parent() {
    let mut c = target_candidate();
    c.parent = "{2dedc554-a829-42ab-90e9-e4e4b4772981}\\target_sam".to_string();
    assert!(switchboard::device::matches(&c), "Parent comparison should be case-insensitive");
}

#[test]
fn test_matches_multiple_hwids() {
    let mut c = target_candidate();
    c.hardware_ids.insert(0, "HID\\VID_NOPE&PID_NOPE".to_string());
    assert!(switchboard::device::matches(&c), "Should match if at least one hwid matches VID/PID");
}

#[test]
fn test_matches_partial_vid_pid() {
    let mut c = target_candidate();
    c.hardware_ids = vec!["HID\\VID_045E".to_string()];
    assert!(!switchboard::device::matches(&c), "VID without PID should NOT match");
}

#[test]
fn matches_service_is_case_sensitive() {
    let mut c = target_candidate();
    c.service = "KbdHid".to_string();
    assert!(!switchboard::device::matches(&c));
}

#[test]
fn matches_parent_with_suffix() {
    let mut c = target_candidate();
    c.parent = "{2DEDC554-A829-42AB-90E9-E4E4B4772981}\\Target_SAM\\extra".to_string();
    assert!(switchboard::device::matches(&c));
}

#[test]
fn classify_single_match() {
    let mut other = target_candidate();
    other.service = "i8042prt".to_string();
    other.instance_id = "ACPI\\OTHER".to_string();
    let r = classify_candidates(&vec![other, target_candidate()]);
    match r {
        ResolveResult::Matched(t) => {
            assert_eq!(t.instance_id, "HID\\INTC6C1\\3&30C19A8C&0&0000");
            assert_eq!(t.service, "kbdhid");
            assert_eq!(t.hardware_ids.len(), 2);
        }
        other => panic!("expected a match, got {:?}", other),
    }
}

#[test]
fn classify_no_match_dumps_every_device() {
    let mut c = target_candidate();
    c.service = "i8042prt".to_string();
    c.config_flags = 0x2A;
    let r = classify_candidates(&vec![c]);
    match r {
        ResolveResult::NoMatch { dump } => assert_eq!(
            dump,
            "HID\\INTC6C1\\3&30C19A8C&0&0000 | Service=i8042prt | HardwareIds=[HID\\VID_045E&PID_006C&REV_0001&Col01, HID\\VID_045E&PID_006C&Col01] | Parent={2DEDC554-A829-42AB-90E9-E4E4B4772981}\\Target_SAM | ConfigFlags=0x0000002A\n"
        ),
        other => panic!("expected no match, got {:?}", other),
    }
}

#[test]
fn classify_multiple_matches_refuses() {
    let r = classify_candidates(&vec![target_candidate(), target_candidate()]);
    match r {
        ResolveResult::MultipleMatches { candidates, dump } => {
            assert_eq!(candidates.len(), 2);
            assert_eq!(dump.lines().count(), 2);
        }
        other => panic!("expected multiple matches, got {:?}", other),
    }
}

#[test]
fn classify_empty_is_no_match() {
    match classify_candidates(&vec![]) {
        ResolveResult::NoMatch { dump } => assert_eq!(dump, ""),
        other => panic!("expected no match, got {:?}", other),
    }
}

#[test]
fn device_error_messages() {
    let e = DeviceError::Win32 { api: "RegOpenKeyExW", last_error: 5 };
    assert_eq!(e.message(), "RegOpenKeyExW failed: error 0x00000005");
    let e = DeviceError::Win32 { api: "X", last_error: 0xE0000231 };
    assert_eq!(e.message(), "X failed: error 0xE0000231");
    assert_eq!(DeviceError::DeviceNotFound.message(), "Target device not found");
    assert_eq!(DeviceError::InvalidString.message(), "Invalid UTF-16 string conversion");
}

#[test]
fn same_instance_id_ignores_ascii_case() {
    assert!(same_instance_id("HID\\abc&0", "hid\\ABC&0"));
    assert!(!same_instance_id("HID\\abc", "HID\\abd"));
}

#[test]
fn wide_buffer_len_rounds_up() {
    assert_eq!(wide_buffer_len(0), 0);
    assert_eq!(wide_buffer_len(7), 4);
    assert_eq!(wide_buffer_len(8), 4);
}

#[test]
fn registry_property_text_cases() {
    let buf = wide("kbdhid");
    assert_eq!(registry_property_text(14, true, 0, &buf).unwrap(), "kbdhid");
    assert_eq!(registry_property_text(0, false, 5, &buf).unwrap(), "");
    match registry_property_text(14, false, 13, &buf) {
        Err(DeviceError::Win32 { api, last_error }) => {
            assert_eq!(api, "SetupDiGetDeviceRegistryPropertyW");
            assert_eq!(last_error, 13);
        }
        other => panic!("unexpected {:?}", other),
    }
    let bad: Vec<u16> = vec![0xD800, 0x41, 0];
    assert!(matches!(registry_property_text(6, true, 0, &bad), Err(DeviceError::InvalidString)));
}

#[test]
fn hardware_ids_from_multi_sz() {
    let mut buf: Vec<u16> = Vec::new();
    buf.extend("HID\\A".encode_utf16());
    buf.push(0);
    buf.extend("HID\\B".encode_utf16());
    buf.push(0);
    buf.push(0);
    assert_eq!(hardware_ids_from(26, true, &buf), vec!["HID\\A".to_string(), "HID\\B".to_string()]);
    assert!(hardware_ids_from(0, true, &buf).is_empty());
    assert!(hardware_ids_from(26, false, &buf).is_empty());
}

#[test]
fn parent_from_property_bytes() {
    let mut bytes: Vec<u8> = Vec::new();
    for u in wide("ACPI\\PARENT") {
        bytes.extend(u.to_le_bytes());
    }
    assert_eq!(parent_from_property(bytes.len() as u32, true, true, &bytes).unwrap(), "ACPI\\PARENT");
    assert_eq!(parent_from_property(bytes.len() as u32, true, false, &bytes).unwrap(), "");
    assert_eq!(parent_from_property(0, true, true, &bytes).unwrap(), "");
}

#[test]
fn instance_id_from_cases() {
    let buf = wide("HID\\X\\1");
    assert_eq!(instance_id_from(16, true, 0, &buf).unwrap(), "HID\\X\\1");
    match instance_id_from(16, false, 87, &buf) {
        Err(DeviceError::Win32 { api, last_error }) => {
            assert_eq!(api, "SetupDiGetDeviceInstanceIdW");
            assert_eq!(last_error, 87);
        }
        other => panic!("unexpected {:?}", other),
    }
}

#[test]
fn config_flags_plans() {
    let u = plan_config_flags(0, 0x10, true).unwrap();
    assert_eq!(u.new_flags, 0x11);
    assert!(u.write_needed);
    assert_eq!(u.outcome, EnableOutcome::WasAlreadyEnabled);
    let u = plan_config_flags(0, 0x11, false).unwrap();
    assert_eq!(u.new_flags, 0x10);
    assert!(u.write_needed);
    assert_eq!(u.outcome, EnableOutcome::WasDisabled);
    let u = plan_config_flags(2, 0, false).unwrap();
    assert_eq!(u.new_flags, 0);
    assert!(!u.write_needed);
    match plan_config_flags(5, 0, true) {
        Err(DeviceError::Win32 { api, last_error }) => {
            assert_eq!(api, "RegQueryValueExW");
            assert_eq!(last_error, 5);
        }
        _ => panic!("expected an error"),
    }
}

#[test]
fn state_reads() {
    assert_eq!(state_from_flags(1), KeyboardState::Disabled);
    assert_eq!(state_from_flags(0x10), KeyboardState::Enabled);
    assert_eq!(state_from_config_query(true, 0, 4, 3).unwrap(), KeyboardState::Disabled);
    assert_eq!(state_from_config_query(false, 122, 4, 3).unwrap(), KeyboardState::Enabled);
    assert_eq!(state_from_config_query(false, 13, 0, 3).unwrap(), KeyboardState::Enabled);
    assert!(state_from_config_query(false, 13, 4, 3).is_err());
}

#[test]
fn config_path() {
    assert_eq!(config_registry_path("HID\\X\\1"), "SYSTEM\\CurrentControlSet\\Enum\\HID\\X\\1");
}

#[test]
fn reeval_steps() {
    assert!(matches!(reeval_next(ReevalStep::SetClassInstallParams, 0), ReevalNext::Run(ReevalStep::CallClassInstaller)));
    assert!(matches!(reeval_next(ReevalStep::SetClassInstallParams, 1), ReevalNext::Run(ReevalStep::LocateDevNode)));
    assert!(matches!(reeval_next(ReevalStep::CallClassInstaller, 0), ReevalNext::Finished(Ok(()))));
    assert!(matches!(reeval_next(ReevalStep::CallClassInstaller, 7), ReevalNext::Run(ReevalStep::LocateDevNode)));
    assert!(matches!(reeval_next(ReevalStep::LocateDevNode, 0), ReevalNext::Run(ReevalStep::ReenumerateDevNode)));
    match reeval_next(ReevalStep::LocateDevNode, 13) {
        ReevalNext::Finished(Err(DeviceError::Win32 { api, last_error })) => {
            assert_eq!(api, "CM_Locate_DevNodeW");
            assert_eq!(last_error, 13);
        }
        other => panic!("unexpected {:?}", other),
    }
    match reeval_next(ReevalStep::ReenumerateDevNode, 3) {
        ReevalNext::Finished(Err(DeviceError::Win32 { api, .. })) => assert_eq!(api, "CM_Reenumerate_DevNode"),
        other => panic!("unexpected {:?}", other),
    }
}

#[test]
fn disable_and_verify_runs_both() {
    let t = Target {
        instance_id: "HID\\X".to_string(),
        hardware_ids: vec![],
        parent: String::new(),
        service: "kbdhid".to_string(),
    };
    let (d, v) = disable_and_verify(&t, |_t: &Target| Ok(()), |_t: &Target| Ok(KeyboardState::Disabled));
    assert!(d.is_ok());
    assert_eq!(v.unwrap(), KeyboardState::Disabled);
    let (d, v) = disable_and_verify(
        &t,
        |_t: &Target| Err(DeviceError::DeviceNotFound),
        |_t: &Target| Err(DeviceError::InvalidString),
    );
    assert!(matches!(d, Err(DeviceError::DeviceNotFound)));
    assert!(matches!(v, Err(DeviceError::InvalidString)));
}
