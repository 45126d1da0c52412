use switchboard::messages::{
    answer, menu_command, power_gate, route, MenuCommand, PowerGate, Route,
    GUID_CONSOLE_DISPLAY_STATE, GUID_LIDSWITCH_STATE_CHANGE, ID_ACTIVE, ID_AUTOSTART,
    ID_BOOT_TASK, ID_QUIT, TIMER_INITIAL_POLICY, TIMER_SANITY, WM_CLOSE, WM_CREATE, WM_DESTROY,
    WM_ENDSESSION, WM_POWERBROADCAST, WM_QUERYENDSESSION, WM_SETTINGCHANGE, WM_TIMER, WM_TRAY,
    WM_WORKER_RESULT, WM_WTSSESSION_CHANGE,
};

#[test]
fn menu_ids() {
    assert_eq!(menu_command(ID_ACTIVE), Some(MenuCommand::Active));
    assert_eq!(menu_command(ID_QUIT), Some(MenuCommand::Quit));
    assert_eq!(menu_command(ID_AUTOSTART), Some(MenuCommand::Autostart));
    assert_eq!(menu_command(ID_BOOT_TASK), Some(MenuCommand::BootTask));
    assert_eq!(menu_command(1005), None);
    assert_eq!((ID_ACTIVE, ID_QUIT, ID_AUTOSTART, ID_BOOT_TASK), (1001, 1002, 1003, 1004));
}

#[test]
fn routes_before_state() {
    assert_eq!(route(WM_CREATE, 0, false), Route::Default);
    assert_eq!(route(WM_TRAY, 1001, false), Route::Default);
    assert_eq!(route(WM_DESTROY, 0, false), Route::Destroy);
}

#[test]
fn routes_with_state() {
    assert_eq!(route(0x8001, 0, true), Route::BleConnectionChanged);
    assert_eq!(route(WM_TRAY, 1001, true), Route::Menu(MenuCommand::Active));
    assert_eq!(route(WM_TRAY, 0x1_0000 + 1002, true), Route::Menu(MenuCommand::Quit));
    assert_eq!(route(WM_TRAY, 7, true), Route::Answer(0));
    assert_eq!(route(WM_WORKER_RESULT, 0, true), Route::WorkerResult);
    assert_eq!(route(WM_POWERBROADCAST, 4, true), Route::Suspend);
    assert_eq!(route(WM_POWERBROADCAST, 18, true), Route::ResumeAutomatic);
    assert_eq!(route(WM_POWERBROADCAST, 0x8013, true), Route::PowerSettingChange);
    assert_eq!(route(WM_POWERBROADCAST, 10, true), Route::Answer(1));
    assert_eq!(route(WM_WTSSESSION_CHANGE, 7, true), Route::SessionLock);
    assert_eq!(route(WM_WTSSESSION_CHANGE, 8, true), Route::SessionUnlock);
    assert_eq!(route(WM_WTSSESSION_CHANGE, 5, true), Route::Answer(0));
    assert_eq!(route(WM_SETTINGCHANGE, 0, true), Route::SettingChange);
    assert_eq!(route(WM_QUERYENDSESSION, 0, true), Route::QueryEndSession);
    assert_eq!(route(WM_ENDSESSION, 1, true), Route::EndSession);
    assert_eq!(route(WM_ENDSESSION, 0, true), Route::Answer(0));
    assert_eq!(route(WM_TIMER, TIMER_SANITY, true), Route::SanityTimer);
    assert_eq!(route(WM_TIMER, TIMER_INITIAL_POLICY, true), Route::InitialPolicyTimer);
    assert_eq!(route(WM_TIMER, 9, true), Route::Answer(0));
    assert_eq!(route(WM_CLOSE, 0, true), Route::Close);
    assert_eq!(route(WM_DESTROY, 0, true), Route::Destroy);
    assert_eq!(route(0x0200, 0, true), Route::Default);
}

#[test]
fn event_codes_use_the_low_32_bits() {
    let high: usize = if usize::BITS == 64 { 1usize << 32 } else { 0 };
    assert_eq!(route(WM_POWERBROADCAST, high + 4, true), Route::Suspend);
    assert_eq!(route(WM_POWERBROADCAST, high + 18, true), Route::ResumeAutomatic);
    assert_eq!(route(WM_WTSSESSION_CHANGE, high + 7, true), Route::SessionLock);
    assert_eq!(route(WM_WTSSESSION_CHANGE, high + 8, true), Route::SessionUnlock);
}

#[test]
fn answers() {
    assert_eq!(answer(Route::Suspend), Some(1));
    assert_eq!(answer(Route::PowerSettingChange), Some(1));
    assert_eq!(answer(Route::SettingChange), None);
    assert_eq!(answer(Route::Close), None);
    assert_eq!(answer(Route::Default), None);
    assert_eq!(answer(Route::Destroy), Some(0));
    assert_eq!(answer(Route::Menu(MenuCommand::Quit)), Some(0));
    assert_eq!(answer(Route::Answer(1)), Some(1));
    assert_eq!(answer(Route::QueryEndSession), Some(1));
}

#[test]
fn power_settings() {
    assert_eq!(power_gate(GUID_LIDSWITCH_STATE_CHANGE, 4, 0), Some(PowerGate::LidClosed));
    assert_eq!(power_gate(GUID_LIDSWITCH_STATE_CHANGE, 4, 1), None);
    assert_eq!(power_gate(GUID_CONSOLE_DISPLAY_STATE, 4, 0), Some(PowerGate::DisplayOff));
    assert_eq!(power_gate(GUID_CONSOLE_DISPLAY_STATE, 4, 2), None);
    assert_eq!(power_gate(GUID_CONSOLE_DISPLAY_STATE, 3, 0), None);
    assert_eq!(power_gate(0x1234, 4, 0), None);
}
