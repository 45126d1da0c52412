use switchboard::device::{DeviceError, KeyboardState, ResolveResult, Target};
use switchboard::worker::{
    disable_report, enable_target, modifier_key_ups, worker_action, Cmd, WorkerAction,
    KEYEVENTF_KEYUP, SYNTHETIC_SENTINEL,
};

fn target() -> Target {
    Target {
        instance_id: "HID\\X".to_string(),
        hardware_ids: vec!["HID\\VID_045E&PID_006C".to_string()],
        parent: "P".to_string(),
        service: "kbdhid".to_string(),
    }
}

#[test]
fn worker_commands() {
    assert!(matches!(worker_action(Some(Cmd::Enable { op_id: 3 })), WorkerAction::Enable { op_id: 3 }));
    match worker_action(Some(Cmd::Disable { target: target(), op_id: 9 })) {
        WorkerAction::DisableAndVerify { target, op_id } => {
            assert_eq!(op_id, 9);
            assert_eq!(target.instance_id, "HID\\X");
        }
        _ => panic!("expected a disable"),
    }
    assert!(matches!(worker_action(Some(Cmd::Shutdown)), WorkerAction::Exit));
    assert!(matches!(worker_action(None), WorkerAction::Exit));
}

#[test]
fn enable_only_single_match() {
    assert!(enable_target(ResolveResult::Matched(target())).is_some());
    assert!(enable_target(ResolveResult::NoMatch { dump: String::new() }).is_none());
    assert!(enable_target(ResolveResult::EnumerationError("e".to_string())).is_none());
}

#[test]
fn disable_reports() {
    let (r, release) = disable_report(4, &Ok(()), &Ok(KeyboardState::Disabled));
    assert_eq!(r.op_id, 4);
    assert!(r.disable_ok);
    assert_eq!(r.verify_state, Some(KeyboardState::Disabled));
    assert_eq!(r.err, None);
    assert!(release);

    let (r, release) = disable_report(5, &Ok(()), &Ok(KeyboardState::Enabled));
    assert_eq!(r.verify_state, Some(KeyboardState::Enabled));
    assert!(!release);

    let (r, release) = disable_report(
        6,
        &Err(DeviceError::Win32 { api: "RegSetValueExW", last_error: 5 }),
        &Ok(KeyboardState::Enabled),
    );
    assert!(!r.disable_ok);
    assert_eq!(r.verify_state, None);
    assert_eq!(r.err.as_deref(), Some("RegSetValueExW failed: error 0x00000005"));
    assert!(!release);

    let (r, release) = disable_report(7, &Ok(()), &Err(DeviceError::DeviceNotFound));
    assert!(r.disable_ok);
    assert_eq!(r.verify_state, None);
    assert_eq!(r.err.as_deref(), Some("verify failed: Target device not found"));
    assert!(!release);
}

#[test]
fn modifier_key_ups_release_all_eight() {
    let v = modifier_key_ups();
    let vks: Vec<u16> = v.iter().map(|k| k.vk).collect();
    assert_eq!(vks, vec![0xA0, 0xA1, 0xA2, 0xA3, 0xA4, 0xA5, 0x5B, 0x5C]);
    assert!(v.iter().all(|k| k.flags == KEYEVENTF_KEYUP && k.extra_info == SYNTHETIC_SENTINEL));
    assert_eq!(SYNTHETIC_SENTINEL, 0x5357_5442);
}
