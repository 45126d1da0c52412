use switchboard::admin::{
    install_report, launch_mode, relayed_exit_code, uninstall_report, AdminSubcommand, LaunchMode,
};

fn args(a: &[&str]) -> Vec<String> {
    a.iter().map(|s| s.to_string()).collect()
}

#[test]
fn launch_modes() {
    assert_eq!(launch_mode(&args(&["switchboard.exe"])), LaunchMode::Tray);
    assert_eq!(launch_mode(&args(&[])), LaunchMode::Tray);
    assert_eq!(launch_mode(&args(&["sb", "--recover"])), LaunchMode::Recover);
    assert_eq!(
        launch_mode(&args(&["sb", "--install-boot-task"])),
        LaunchMode::Admin(AdminSubcommand::InstallBootTask)
    );
    assert_eq!(
        launch_mode(&args(&["sb", "x", "--uninstall-boot-task", "--install-boot-task"])),
        LaunchMode::Admin(AdminSubcommand::UninstallBootTask)
    );
    assert_eq!(launch_mode(&args(&["sb", "--install-boot-task", "--recover"])), LaunchMode::Recover);
    assert_eq!(launch_mode(&args(&["--install-boot-task"])), LaunchMode::Tray);
    assert_eq!(launch_mode(&args(&["--recover"])), LaunchMode::Recover);
}

#[test]
fn subcommand_args() {
    assert_eq!(AdminSubcommand::InstallBootTask.arg(), "--install-boot-task");
    assert_eq!(AdminSubcommand::UninstallBootTask.arg(), "--uninstall-boot-task");
}

#[test]
fn install_reports() {
    let r = install_report(&Ok(r"C:\sb\switchboard.exe".to_string()));
    assert_eq!(r.exit_code, 0);
    assert_eq!(
        r.out,
        vec![
            "".to_string(),
            "Task name:   switchboard-boot-recover".to_string(),
            "Trigger:     At system startup (boot)".to_string(),
            r"Principal:   NT AUTHORITY\SYSTEM (Highest)".to_string(),
            r#"Action:      "C:\sb\switchboard.exe" --recover"#.to_string(),
            "".to_string(),
            "[OK] Task registered successfully".to_string(),
        ]
    );
    assert!(r.err.is_empty());
    let r = install_report(&Err("Task Scheduler error: denied".to_string()));
    assert_eq!(r.exit_code, 1);
    assert_eq!(r.err, vec!["".to_string(), "[FAIL] Task Scheduler error: denied".to_string()]);
}

#[test]
fn uninstall_reports() {
    let r = uninstall_report(&Ok(true));
    assert_eq!(r.exit_code, 0);
    assert_eq!(r.out, vec!["".to_string(), "[OK] Task 'switchboard-boot-recover' removed".to_string()]);
    let r = uninstall_report(&Ok(false));
    assert_eq!(r.exit_code, 0);
    assert_eq!(
        r.out,
        vec!["".to_string(), "Task 'switchboard-boot-recover' not registered (nothing to remove)".to_string()]
    );
    let r = uninstall_report(&Err("boom".to_string()));
    assert_eq!(r.exit_code, 1);
    assert_eq!(r.err[1], "[FAIL] boom");
}

#[test]
fn relayed_codes() {
    assert_eq!(relayed_exit_code(0), 0);
    assert_eq!(relayed_exit_code(1), 1);
    assert_eq!(relayed_exit_code(0xC000013A), 0xC000013Au32 as i32);
}
