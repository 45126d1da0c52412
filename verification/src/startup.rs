//! Start-up decisions: the single-instance check, where the state files
//! live, what the first enable and the crash check tell the user, and the
//! one-time installation of lockout protection.

use vstd::prelude::*;
use crate::device::{DeviceError, EnableOutcome, KeyboardState};
use crate::text::{chars_of, decimal, decimal_chars, extend, extend_str, string_of};

verus! {

broadcast use vstd::string::group_string_axioms;

/// Told when the process does not run elevated.
pub const NEEDS_ADMIN_NOTICE: &'static str = "SwitchBoard needs to run as administrator. Right-click → Run as administrator.";

/// Told when the start-up enable failed.
pub const RECOVERY_FAILED_NOTICE: &'static str = "Recovery failed — see log.";

/// Told when the previous run ended without its cleanup.
pub const CRASH_RECOVERED_NOTICE: &'static str = "SwitchBoard recovered from an unclean shutdown. Internal keyboard re-enabled. App is active.";

/// Told when no target exists at start-up.
pub const TARGET_NOT_FOUND_NOTICE: &'static str = "Keyboard target not found on this system — see log.";

/// Told after lockout protection was installed on the first elevated run.
pub const LOCKOUT_PROTECTION_NOTICE: &'static str = "Lockout protection enabled. If SwitchBoard ever crashes with the internal keyboard disabled, Windows will re-enable it on the next boot so you can log in. Disable from the tray menu if you don't want this.";

/// The notice after a start-up crash check: only an elevated run, which has
/// just re-enabled the keyboard, tells the user about a crash.
pub fn crash_notice(running_lock_existed: bool, elevated: bool) -> (n: Option<&'static str>)
    ensures
        n is Some <==> running_lock_existed && elevated,
        n matches Some(t) ==> t@ == CRASH_RECOVERED_NOTICE@,
{
    if running_lock_existed && elevated {
        Some(CRASH_RECOVERED_NOTICE)
    } else {
        None
    }
}

/// What the first elevated launch does about lockout protection (the boot
/// recovery task).
#[derive(Debug, Clone, Copy, PartialEq, Eq, Structural)]
pub enum LockoutPlan {
    /// The marker exists: it was offered before; respect the user's choice.
    Nothing,
    /// The task is already there: write the marker `previously-installed`.
    RecordInstalled,
    /// Install the task; on success write the marker `auto-installed` and
    /// tell the user, on failure try again next launch.
    Install,
}

/// The lockout-protection plan from whether its marker file exists and
/// whether the task is installed.
pub fn lockout_plan(marker_exists: bool, task_installed: bool) -> (p: LockoutPlan)
    ensures
        p == (if marker_exists {
            LockoutPlan::Nothing
        } else if task_installed {
            LockoutPlan::RecordInstalled
        } else {
            LockoutPlan::Install
        }),
{
    if marker_exists {
        LockoutPlan::Nothing
    } else if task_installed {
        LockoutPlan::RecordInstalled
    } else {
        LockoutPlan::Install
    }
}

/// The outcome of the start-up enable and the notice it calls for: `None`
/// when not elevated (no enable was tried: the keyboard counts as enabled,
/// and the user is told to run as administrator); a failed enable also
/// counts as enabled, and is reported.
pub fn cold_start_outcome(enabled: Option<Result<EnableOutcome, DeviceError>>) -> (r: (
    EnableOutcome,
    Option<&'static str>,
))
    ensures
        match enabled {
            None => r.0 == EnableOutcome::WasAlreadyEnabled && (r.1 matches Some(n) && n@
                == NEEDS_ADMIN_NOTICE@),
            Some(Ok(o)) => r.0 == o && r.1 is None,
            Some(Err(_)) => r.0 == EnableOutcome::WasAlreadyEnabled && (r.1 matches Some(n) && n@
                == RECOVERY_FAILED_NOTICE@),
        },
{
    match enabled {
        None => (EnableOutcome::WasAlreadyEnabled, Some(NEEDS_ADMIN_NOTICE)),
        Some(Ok(o)) => (o, None),
        Some(Err(_)) => (EnableOutcome::WasAlreadyEnabled, Some(RECOVERY_FAILED_NOTICE)),
    }
}

/// What the start-up verify means for the rest of the start: `None` when no
/// verify ran (not elevated), else the state read back. Only a keyboard
/// that did not read back `Enabled` counts as a failed recovery: then the
/// BLE subscription is refused (the keyboard stays enabled for the session)
/// and the user is told.
pub fn cold_start_verified(verified: Option<Result<KeyboardState, DeviceError>>) -> (r: (
    bool,
    Option<&'static str>,
))
    ensures
        r.0 == (match verified {
            None => true,
            Some(Ok(KeyboardState::Enabled)) => true,
            _ => false,
        }),
        r.0 ==> r.1 is None,
        !r.0 ==> (r.1 matches Some(n) && n@ == RECOVERY_FAILED_NOTICE@),
{
    match verified {
        None => (true, None),
        Some(Ok(KeyboardState::Enabled)) => (true, None),
        _ => (false, Some(RECOVERY_FAILED_NOTICE)),
    }
}

// ---------------------------------------------------------------------------
// Single instance and elevation
// ---------------------------------------------------------------------------

/// Name of the mutex that keeps one instance per session.
pub const SINGLETON_MUTEX_NAME: &'static str = "Local\\switchboard-singleton-v1";

/// `ERROR_ALREADY_EXISTS`.
pub const ERROR_ALREADY_EXISTS: u32 = 183;

/// Told when another instance already runs.
pub const ALREADY_RUNNING_NOTICE: &'static str = "SwitchBoard is already running — check the tray.";

/// The outcome of creating the single-instance mutex.
#[derive(Debug, Clone, Copy, PartialEq, Eq, Structural)]
pub enum InstanceCheck {
    /// This process owns the mutex (fresh, or abandoned by a dead owner).
    Owned,
    /// Another instance owns it: this handle is closed and the process exits.
    AlreadyRunning,
    /// The mutex could not be created.
    Failed,
}

/// What creating the mutex means: `created` tells whether a handle came
/// back, `last_error` is the thread's last error right after.
pub fn instance_check(created: bool, last_error: u32) -> (c: InstanceCheck)
    ensures
        c == (if !created {
            InstanceCheck::Failed
        } else if last_error == ERROR_ALREADY_EXISTS {
            InstanceCheck::AlreadyRunning
        } else {
            InstanceCheck::Owned
        }),
{
    if !created {
        InstanceCheck::Failed
    } else if last_error == ERROR_ALREADY_EXISTS {
        InstanceCheck::AlreadyRunning
    } else {
        InstanceCheck::Owned
    }
}

/// Whether the process token is elevated: the token opened, its elevation
/// was read, and it says elevated.
pub fn token_elevated(opened: bool, read_ok: bool, token_is_elevated: u32) -> (r: bool)
    ensures
        r == (opened && read_ok && token_is_elevated != 0),
{
    opened && read_ok && token_is_elevated != 0
}

// ---------------------------------------------------------------------------
// State files
// ---------------------------------------------------------------------------

/// The directory `LOCALAPPDATA` names, or `C:\Users\Public` without it.
pub open spec fn app_data_root(local_app_data: Option<Seq<char>>) -> Seq<char> {
    match local_app_data {
        Some(d) => d,
        None => "C:\\Users\\Public"@,
    }
}

/// The path of the file `name` in this program's state directory.
pub open spec fn state_file_path(local_app_data: Option<Seq<char>>, name: Seq<char>) -> Seq<char> {
    app_data_root(local_app_data) + "\\switchboard\\"@ + name
}

/// `%LOCALAPPDATA%\switchboard\<name>`.
pub fn state_file(local_app_data: Option<&str>, name: &str) -> (p: String)
    ensures
        p@ == state_file_path(
            match local_app_data {
                Some(d) => Some(d@),
                None => None,
            },
            name@,
        ),
{
    let mut v = match local_app_data {
        Some(d) => chars_of(d),
        None => chars_of("C:\\Users\\Public"),
    };
    extend_str(&mut v, "\\switchboard\\");
    extend_str(&mut v, name);
    string_of(&v)
}

/// Name of the file that marks a running instance (crash detection).
pub const RUNNING_LOCK_FILE: &'static str = "running.lock";
/// Name of the file that records lockout protection was offered.
pub const LOCKOUT_OFFERED_FILE: &'static str = "lockout-protection-offered";
/// Name of the log file.
pub const LOG_FILE: &'static str = "switchboard.log";

/// A line of the start-up phase log.
pub open spec fn phase_line_text(unix_secs: u64, phase: Seq<char>) -> Seq<char> {
    "[UNIX:"@ + decimal(unix_secs as nat) + "] "@ + phase + "\n"@
}

/// The phase-log line for `phase` at `unix_secs` seconds since the epoch.
pub fn phase_line(unix_secs: u64, phase: &str) -> (s: String)
    ensures
        s@ == phase_line_text(unix_secs, phase@),
{
    let mut v = chars_of("[UNIX:");
    let d = decimal_chars(unix_secs);
    extend(&mut v, &d);
    extend_str(&mut v, "] ");
    extend_str(&mut v, phase);
    extend_str(&mut v, "\n");
    string_of(&v)
}

} // verus!
