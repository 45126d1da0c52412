use switchboard::device::{DeviceError, EnableOutcome, KeyboardState};
use switchboard::startup::{
    cold_start_outcome, cold_start_verified, crash_notice, instance_check, lockout_plan, phase_line, state_file,
    token_elevated, InstanceCheck, LockoutPlan, LOCKOUT_OFFERED_FILE, RUNNING_LOCK_FILE,
};

#[test]
fn cold_start_outcomes() {
    assert_eq!(
        cold_start_outcome(None),
        (
            EnableOutcome::WasAlreadyEnabled,
            Some("SwitchBoard needs to run as administrator. Right-click → Run as administrator.")
        )
    );
    assert_eq!(cold_start_outcome(Some(Ok(EnableOutcome::WasDisabled))), (EnableOutcome::WasDisabled, None));
    assert_eq!(
        cold_start_outcome(Some(Err(DeviceError::DeviceNotFound))),
        (EnableOutcome::WasAlreadyEnabled, Some("Recovery failed — see log."))
    );
}

#[test]
fn crash_notices() {
    assert_eq!(
        crash_notice(true, true),
        Some("SwitchBoard recovered from an unclean shutdown. Internal keyboard re-enabled. App is active.")
    );
    assert_eq!(crash_notice(true, false), None);
    assert_eq!(crash_notice(false, true), None);
}

#[test]
fn lockout_plans() {
    assert_eq!(lockout_plan(true, false), LockoutPlan::Nothing);
    assert_eq!(lockout_plan(false, true), LockoutPlan::RecordInstalled);
    assert_eq!(lockout_plan(false, false), LockoutPlan::Install);
}

#[test]
fn instance_checks() {
    assert_eq!(instance_check(true, 0), InstanceCheck::Owned);
    assert_eq!(instance_check(true, 183), InstanceCheck::AlreadyRunning);
    assert_eq!(instance_check(true, 128), InstanceCheck::Owned);
    assert_eq!(instance_check(false, 183), InstanceCheck::Failed);
}

#[test]
fn elevation() {
    assert!(token_elevated(true, true, 1));
    assert!(!token_elevated(true, true, 0));
    assert!(!token_elevated(true, false, 1));
    assert!(!token_elevated(false, true, 1));
}

#[test]
fn state_files() {
    assert_eq!(
        state_file(Some(r"C:\Users\me\AppData\Local"), RUNNING_LOCK_FILE),
        r"C:\Users\me\AppData\Local\switchboard\running.lock"
    );
    assert_eq!(
        state_file(None, LOCKOUT_OFFERED_FILE),
        r"C:\Users\Public\switchboard\lockout-protection-offered"
    );
}

#[test]
fn phase_lines() {
    assert_eq!(phase_line(1700000000, "tray_init_start"), "[UNIX:1700000000] tray_init_start\n");
    assert_eq!(phase_line(0, "x"), "[UNIX:0] x\n");
    assert_eq!(phase_line(u64::MAX, ""), "[UNIX:18446744073709551615] \n");
}

#[test]
fn failed_cold_start_verify_refuses_ble() {
    assert_eq!(cold_start_verified(None), (true, None));
    assert_eq!(cold_start_verified(Some(Ok(KeyboardState::Enabled))), (true, None));
    assert_eq!(
        cold_start_verified(Some(Ok(KeyboardState::Disabled))),
        (false, Some("Recovery failed — see log."))
    );
    assert_eq!(
        cold_start_verified(Some(Err(DeviceError::DeviceNotFound))),
        (false, Some("Recovery failed — see log."))
    );
}
