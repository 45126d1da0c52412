use switchboard::tray::{
    autostart_checkmark, autostart_label, autostart_toggle, boot_task_change, boot_task_label,
    boot_task_toggle, is_stale, paths_equal, relaunch_arg, relaunch_outcome, stale_warning,
    tooltip, AutostartAction, BootTaskAction, BootTaskChange,
};

#[test]
fn test_paths_equal_same() {
    assert!(paths_equal(None, None, r"C:\foo\bar", r"C:\foo\bar"));
}

#[test]
fn test_paths_equal_case_insensitive() {
    assert!(paths_equal(None, None, r"C:\Foo\Bar", r"c:\foo\bar"));
}

#[test]
fn test_paths_equal_different() {
    assert!(!paths_equal(None, None, r"C:\foo", r"C:\bar"));
}

#[test]
fn paths_equal_prefers_canonical_forms() {
    assert!(paths_equal(Some(r"C:\Real\App.exe"), Some(r"c:\real\app.exe"), "a", "b"));
    assert!(!paths_equal(Some(r"C:\one"), Some(r"C:\two"), "same", "same"));
    assert!(paths_equal(Some(r"C:\one"), None, r"X:\ä", r"x:\Ä"));
}

#[test]
fn tooltip_texts() {
    assert_eq!(tooltip(true, true, false), "SwitchBoard | Active: On | Nuphy: Connected");
    assert_eq!(tooltip(false, false, false), "SwitchBoard | Active: Off | Nuphy: Disconnected");
    assert_eq!(
        tooltip(true, false, true),
        "SwitchBoard | Active: On | Nuphy: Disconnected — Arming in 3s…"
    );
}

#[test]
fn autostart_item_flips() {
    assert_eq!(autostart_toggle(true), AutostartAction::Disable);
    assert_eq!(autostart_toggle(false), AutostartAction::Enable);
    assert_eq!(autostart_checkmark(AutostartAction::Enable, true), Some(true));
    assert_eq!(autostart_checkmark(AutostartAction::Disable, true), Some(false));
    assert_eq!(autostart_checkmark(AutostartAction::Enable, false), None);
}

#[test]
fn boot_task_item_actions() {
    assert_eq!(boot_task_toggle(true, true), BootTaskAction::Uninstall);
    assert_eq!(boot_task_toggle(false, true), BootTaskAction::Install);
    assert_eq!(boot_task_toggle(true, false), BootTaskAction::RelaunchUninstall);
    assert_eq!(boot_task_toggle(false, false), BootTaskAction::RelaunchInstall);
    assert_eq!(relaunch_arg(BootTaskAction::RelaunchInstall), Some("--install-boot-task"));
    assert_eq!(relaunch_arg(BootTaskAction::RelaunchUninstall), Some("--uninstall-boot-task"));
    assert_eq!(relaunch_arg(BootTaskAction::Install), None);
}

#[test]
fn relaunch_exit_codes() {
    assert_eq!(relaunch_outcome(0), Ok(()));
    assert_eq!(relaunch_outcome(1), Err("elevated child exited with code 1".to_string()));
    assert_eq!(relaunch_outcome(1223), Err("elevated child exited with code 1223".to_string()));
    assert_eq!(
        relaunch_outcome(u32::MAX),
        Err("elevated child exited with code 4294967295".to_string())
    );
}

#[test]
fn boot_task_changes() {
    assert_eq!(boot_task_change(true, false), BootTaskChange::Removed);
    assert_eq!(boot_task_change(false, true), BootTaskChange::Installed);
    assert_eq!(boot_task_change(true, true), BootTaskChange::Unchanged);
    assert_eq!(boot_task_change(false, false), BootTaskChange::Unchanged);
}

#[test]
fn stale_marks() {
    assert!(is_stale(Some(false)));
    assert!(!is_stale(Some(true)));
    assert!(!is_stale(None));
    assert_eq!(autostart_label(false), "Auto-start SwitchBoard at login");
    assert_eq!(autostart_label(true), "Auto-start SwitchBoard at login ⚠");
    assert_eq!(boot_task_label(false), "Lockout protection (recommended)");
    assert_eq!(boot_task_label(true), "Lockout protection (recommended) ⚠");
}

#[test]
fn stale_warning_texts() {
    assert_eq!(stale_warning(false, false, r"C:\x.exe"), None);
    assert_eq!(
        stale_warning(true, false, r"C:\x.exe").unwrap(),
        "• \"Auto-start SwitchBoard at login\" points to an old SwitchBoard location.\n\nRight-click the tray icon, then uncheck and re-check the marked item(s) to refresh the stored path to:\nC:\\x.exe"
    );
    assert_eq!(
        stale_warning(true, true, r"C:\x.exe").unwrap(),
        "• \"Auto-start SwitchBoard at login\" points to an old SwitchBoard location.\n• \"Lockout protection (recommended)\" points to an old SwitchBoard location.\n\nRight-click the tray icon, then uncheck and re-check the marked item(s) to refresh the stored path to:\nC:\\x.exe"
    );
    assert!(stale_warning(false, true, "p").unwrap().starts_with("• \"Lockout protection"));
}
