//! Routing of the hidden window's messages: which handler a message goes
//! to, and what the window procedure answers.

use vstd::prelude::*;
use crate::ble::WM_BLE_CONNECTION_CHANGED;

verus! {

/// `WM_CREATE`.
pub const WM_CREATE: u32 = 1;
/// `WM_DESTROY`.
pub const WM_DESTROY: u32 = 2;
/// `WM_CLOSE`.
pub const WM_CLOSE: u32 = 16;
/// `WM_QUERYENDSESSION`.
pub const WM_QUERYENDSESSION: u32 = 17;
/// `WM_ENDSESSION`.
pub const WM_ENDSESSION: u32 = 22;
/// `WM_SETTINGCHANGE`.
pub const WM_SETTINGCHANGE: u32 = 26;
/// `WM_TIMER`.
pub const WM_TIMER: u32 = 275;
/// `WM_POWERBROADCAST`.
pub const WM_POWERBROADCAST: u32 = 536;
/// `WM_WTSSESSION_CHANGE`.
pub const WM_WTSSESSION_CHANGE: u32 = 689;
/// `WM_APP + 2`: a tray menu item was chosen; wParam is its id.
pub const WM_TRAY: u32 = 0x8002;
/// `WM_APP + 3`: the worker posted a disable result.
pub const WM_WORKER_RESULT: u32 = 0x8003;

/// Timer id of the periodic sanity check.
pub const TIMER_SANITY: usize = 1;
/// Timer id of the grace period before the first policy application.
pub const TIMER_INITIAL_POLICY: usize = 2;
/// Period of the sanity timer (20 s).
pub const SANITY_INTERVAL_MS: u32 = 20_000;
/// Grace period before the first policy application (3 s).
pub const INITIAL_POLICY_DELAY_MS: u32 = 3_000;

/// Menu id of "Active".
pub const ID_ACTIVE: u16 = 1001;
/// Menu id of "Quit".
pub const ID_QUIT: u16 = 1002;
/// Menu id of "Auto-start SwitchBoard at login".
pub const ID_AUTOSTART: u16 = 1003;
/// Menu id of "Lockout protection (recommended)".
pub const ID_BOOT_TASK: u16 = 1004;

/// `PBT_APMSUSPEND`.
pub const PBT_APMSUSPEND: u32 = 4;
/// `PBT_APMRESUMEAUTOMATIC`.
pub const PBT_APMRESUMEAUTOMATIC: u32 = 18;
/// `PBT_POWERSETTINGCHANGE`.
pub const PBT_POWERSETTINGCHANGE: u32 = 32787;

/// `WTS_SESSION_LOCK`.
pub const WTS_SESSION_LOCK: u32 = 7;
/// `WTS_SESSION_UNLOCK`.
pub const WTS_SESSION_UNLOCK: u32 = 8;

/// `GUID_LIDSWITCH_STATE_CHANGE` as a 128-bit value.
pub const GUID_LIDSWITCH_STATE_CHANGE: u128 = 0xBA3E0F4D_B817_4094_A2D1_D56379E6A0F3;
/// `GUID_CONSOLE_DISPLAY_STATE` as a 128-bit value.
pub const GUID_CONSOLE_DISPLAY_STATE: u128 = 0x6FE69556_704A_47A0_8F24_C28D936FDA47;

/// A tray menu item.
#[derive(Debug, Clone, Copy, PartialEq, Eq, Structural)]
pub enum MenuCommand {
    Active,
    Autostart,
    BootTask,
    Quit,
}

/// Where a window message goes.
#[derive(Debug, Clone, Copy, PartialEq, Eq, Structural)]
pub enum Route {
    /// To the controller, as a BLE connection change.
    BleConnectionChanged,
    /// To the tray-menu handler.
    Menu(MenuCommand),
    /// To the controller, with the result the lParam carries.
    WorkerResult,
    /// To the controller, as a suspend.
    Suspend,
    /// To the controller, as a resume.
    ResumeAutomatic,
    /// To the power-setting decoder (lid switch, console display).
    PowerSettingChange,
    /// To the controller, as a session lock.
    SessionLock,
    /// To the controller, as a session unlock.
    SessionUnlock,
    /// To the theme check (then on to the default procedure).
    SettingChange,
    /// To the shutdown cleanup, answering `TRUE`: the session is about to
    /// end, and the keyboard is enabled before shutdown or logoff.
    QueryEndSession,
    /// To the shutdown cleanup (the session ends).
    EndSession,
    /// To the controller, as the sanity timer.
    SanityTimer,
    /// To the controller, as the end of the grace period.
    InitialPolicyTimer,
    /// To the shutdown cleanup, then on to the default procedure.
    Close,
    /// To the shutdown cleanup, then the loop is told to quit.
    Destroy,
    /// Nowhere: the window procedure answers `answer` itself.
    Answer(isize),
    /// To `DefWindowProcW`.
    Default,
}

/// The menu item with this id.
pub open spec fn menu_command_of(id: u16) -> Option<MenuCommand> {
    if id == ID_ACTIVE {
        Some(MenuCommand::Active)
    } else if id == ID_AUTOSTART {
        Some(MenuCommand::Autostart)
    } else if id == ID_BOOT_TASK {
        Some(MenuCommand::BootTask)
    } else if id == ID_QUIT {
        Some(MenuCommand::Quit)
    } else {
        None
    }
}

/// The menu item with this id, if it is one of ours.
pub fn menu_command(id: u16) -> (r: Option<MenuCommand>)
    ensures
        r == menu_command_of(id),
{
    if id == ID_ACTIVE {
        Some(MenuCommand::Active)
    } else if id == ID_AUTOSTART {
        Some(MenuCommand::Autostart)
    } else if id == ID_BOOT_TASK {
        Some(MenuCommand::BootTask)
    } else if id == ID_QUIT {
        Some(MenuCommand::Quit)
    } else {
        None
    }
}

/// Where the message `msg` goes. `has_state` tells whether the message
/// loop has attached its state to the window yet; before that, every
/// message but `WM_DESTROY` goes to the default procedure. A tray message
/// carries the item's id in the low 16 bits of `wparam`; a power broadcast
/// or session change, its event code in the low 32 bits.
pub open spec fn route_of(msg: u32, wparam: usize, has_state: bool) -> Route {
    if !has_state && msg != WM_DESTROY {
        Route::Default
    } else if msg == WM_BLE_CONNECTION_CHANGED {
        Route::BleConnectionChanged
    } else if msg == WM_TRAY {
        match menu_command_of((wparam % 0x10000) as u16) {
            Some(c) => Route::Menu(c),
            None => Route::Answer(0),
        }
    } else if msg == WM_WORKER_RESULT {
        Route::WorkerResult
    } else if msg == WM_POWERBROADCAST {
        if wparam as u32 == PBT_APMSUSPEND {
            Route::Suspend
        } else if wparam as u32 == PBT_APMRESUMEAUTOMATIC {
            Route::ResumeAutomatic
        } else if wparam as u32 == PBT_POWERSETTINGCHANGE {
            Route::PowerSettingChange
        } else {
            Route::Answer(1)
        }
    } else if msg == WM_WTSSESSION_CHANGE {
        if wparam as u32 == WTS_SESSION_LOCK {
            Route::SessionLock
        } else if wparam as u32 == WTS_SESSION_UNLOCK {
            Route::SessionUnlock
        } else {
            Route::Answer(0)
        }
    } else if msg == WM_SETTINGCHANGE {
        Route::SettingChange
    } else if msg == WM_QUERYENDSESSION {
        Route::QueryEndSession
    } else if msg == WM_ENDSESSION {
        if wparam != 0 {
            Route::EndSession
        } else {
            Route::Answer(0)
        }
    } else if msg == WM_TIMER {
        if wparam == TIMER_SANITY {
            Route::SanityTimer
        } else if wparam == TIMER_INITIAL_POLICY {
            Route::InitialPolicyTimer
        } else {
            Route::Answer(0)
        }
    } else if msg == WM_CLOSE {
        Route::Close
    } else if msg == WM_DESTROY {
        Route::Destroy
    } else {
        Route::Default
    }
}

/// Where the message `msg` goes (the window procedure's dispatch).
pub fn route(msg: u32, wparam: usize, has_state: bool) -> (r: Route)
    ensures
        r == route_of(msg, wparam, has_state),
{
    if !has_state && msg != WM_DESTROY {
        Route::Default
    } else if msg == WM_BLE_CONNECTION_CHANGED {
        Route::BleConnectionChanged
    } else if msg == WM_TRAY {
        let id = (wparam % 0x10000) as u16;
        match menu_command(id) {
            Some(c) => Route::Menu(c),
            None => Route::Answer(0),
        }
    } else if msg == WM_WORKER_RESULT {
        Route::WorkerResult
    } else if msg == WM_POWERBROADCAST {
        if wparam as u32 == PBT_APMSUSPEND {
            Route::Suspend
        } else if wparam as u32 == PBT_APMRESUMEAUTOMATIC {
            Route::ResumeAutomatic
        } else if wparam as u32 == PBT_POWERSETTINGCHANGE {
            Route::PowerSettingChange
        } else {
            Route::Answer(1)
        }
    } else if msg == WM_WTSSESSION_CHANGE {
        if wparam as u32 == WTS_SESSION_LOCK {
            Route::SessionLock
        } else if wparam as u32 == WTS_SESSION_UNLOCK {
            Route::SessionUnlock
        } else {
            Route::Answer(0)
        }
    } else if msg == WM_SETTINGCHANGE {
        Route::SettingChange
    } else if msg == WM_QUERYENDSESSION {
        Route::QueryEndSession
    } else if msg == WM_ENDSESSION {
        if wparam != 0 {
            Route::EndSession
        } else {
            Route::Answer(0)
        }
    } else if msg == WM_TIMER {
        if wparam == TIMER_SANITY {
            Route::SanityTimer
        } else if wparam == TIMER_INITIAL_POLICY {
            Route::InitialPolicyTimer
        } else {
            Route::Answer(0)
        }
    } else if msg == WM_CLOSE {
        Route::Close
    } else if msg == WM_DESTROY {
        Route::Destroy
    } else {
        Route::Default
    }
}

/// What the window procedure returns once a routed message was handled:
/// `None` for the default procedure's answer. A power broadcast is always
/// answered `TRUE` so that it never blocks a transition, and a query to end
/// the session is always allowed.
pub open spec fn answer_of(r: Route) -> Option<isize> {
    match r {
        Route::Answer(a) => Some(a),
        Route::Suspend | Route::ResumeAutomatic | Route::PowerSettingChange
        | Route::QueryEndSession => Some(1),
        Route::SettingChange | Route::Close | Route::Default => None,
        _ => Some(0),
    }
}

/// The window procedure's return value for a handled route (`None`: call
/// `DefWindowProcW`).
pub fn answer(r: Route) -> (a: Option<isize>)
    ensures
        a == answer_of(r),
{
    match r {
        Route::Answer(a) => Some(a),
        Route::Suspend | Route::ResumeAutomatic | Route::PowerSettingChange
        | Route::QueryEndSession => Some(1),
        Route::SettingChange | Route::Close | Route::Default => None,
        _ => Some(0),
    }
}

/// A power setting the controller reacts to.
#[derive(Debug, Clone, Copy, PartialEq, Eq, Structural)]
pub enum PowerGate {
    /// The lid was closed.
    LidClosed,
    /// The console display went off.
    DisplayOff,
}

/// What a `PBT_POWERSETTINGCHANGE` says: the setting's GUID, the length of
/// its data and, when that is at least 4 bytes, the data's first DWORD. Only
/// a lid switch or console display state of 0 counts.
pub open spec fn power_gate_of(setting: u128, data_len: u32, value: u32) -> Option<PowerGate> {
    if data_len < 4 || value != 0 {
        None
    } else if setting == GUID_LIDSWITCH_STATE_CHANGE {
        Some(PowerGate::LidClosed)
    } else if setting == GUID_CONSOLE_DISPLAY_STATE {
        Some(PowerGate::DisplayOff)
    } else {
        None
    }
}

/// The power transition a `PBT_POWERSETTINGCHANGE` announces, if any.
pub fn power_gate(setting: u128, data_len: u32, value: u32) -> (r: Option<PowerGate>)
    ensures
        r == power_gate_of(setting, data_len, value),
{
    if data_len < 4 || value != 0 {
        None
    } else if setting == GUID_LIDSWITCH_STATE_CHANGE {
        Some(PowerGate::LidClosed)
    } else if setting == GUID_CONSOLE_DISPLAY_STATE {
        Some(PowerGate::DisplayOff)
    } else {
        None
    }
}

} // verus!
