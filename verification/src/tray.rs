//! The tray: its texts, and what the autostart and lockout-protection
//! items do when chosen.

use vstd::prelude::*;
use crate::text::{chars_of, decimal, decimal_chars, extend, extend_str, same_text, string_of};

verus! {

broadcast use vstd::string::group_string_axioms;

/// Label of the Active item.
pub const ACTIVE_LABEL: &'static str = "Active";
/// Label of the autostart item.
pub const AUTOSTART_LABEL: &'static str = "Auto-start SwitchBoard at login";
/// Label of the lockout-protection (boot recovery task) item.
pub const BOOT_TASK_LABEL: &'static str = "Lockout protection (recommended)";
/// Label of the Quit item.
pub const QUIT_LABEL: &'static str = "Quit";
/// Labels of the disabled items of a tray without administrator rights.
pub const ACTIVE_NEEDS_ADMIN_LABEL: &'static str = "Active (needs admin)";
pub const AUTOSTART_NEEDS_ADMIN_LABEL: &'static str = "Auto-start SwitchBoard at login (needs admin)";
pub const BOOT_TASK_NEEDS_ADMIN_LABEL: &'static str = "Lockout protection (needs admin)";
/// Tooltips before the state is known.
pub const INITIAL_TOOLTIP: &'static str = "SwitchBoard | initializing…";
pub const NEEDS_ADMIN_TOOLTIP: &'static str = "SwitchBoard | Needs administrator privileges";
pub const ERROR_TOOLTIP: &'static str = "SwitchBoard (error state)";
/// Title of the stale-path warning.
pub const STALE_WARNING_TITLE: &'static str = "SwitchBoard — stale autostart path";

// ---------------------------------------------------------------------------
// Tooltip
// ---------------------------------------------------------------------------

/// The tooltip: Active on or off, the Nuphy connected or not, and, during
/// the grace period before the first policy application, the arming notice.
pub open spec fn tooltip_text(active: bool, connected: bool, arming: bool) -> Seq<char> {
    "SwitchBoard | Active: "@ + (if active {
        "On"@
    } else {
        "Off"@
    }) + " | Nuphy: "@ + (if connected {
        "Connected"@
    } else {
        "Disconnected"@
    }) + (if arming {
        " — Arming in 3s…"@
    } else {
        ""@
    })
}

/// The tooltip text.
pub fn tooltip(active: bool, connected: bool, arming: bool) -> (s: String)
    ensures
        s@ == tooltip_text(active, connected, arming),
{
    let mut v = chars_of("SwitchBoard | Active: ");
    if active {
        extend_str(&mut v, "On");
    } else {
        extend_str(&mut v, "Off");
    }
    extend_str(&mut v, " | Nuphy: ");
    if connected {
        extend_str(&mut v, "Connected");
    } else {
        extend_str(&mut v, "Disconnected");
    }
    if arming {
        extend_str(&mut v, " — Arming in 3s…");
    } else {
        extend_str(&mut v, "");
    }
    string_of(&v)
}

// ---------------------------------------------------------------------------
// Autostart item
// ---------------------------------------------------------------------------

/// What choosing the autostart item does.
#[derive(Debug, Clone, Copy, PartialEq, Eq, Structural)]
pub enum AutostartAction {
    /// Register the logon task.
    Enable,
    /// Delete the logon task.
    Disable,
}

/// The item flips the current state.
pub fn autostart_toggle(currently_enabled: bool) -> (a: AutostartAction)
    ensures
        a == (if currently_enabled {
            AutostartAction::Disable
        } else {
            AutostartAction::Enable
        }),
{
    if currently_enabled {
        AutostartAction::Disable
    } else {
        AutostartAction::Enable
    }
}

/// The autostart checkmark after the action: what it set when it succeeded;
/// `None` when it failed, and the state is to be read again.
pub fn autostart_checkmark(action: AutostartAction, succeeded: bool) -> (c: Option<bool>)
    ensures
        c == (if succeeded {
            Some(action == AutostartAction::Enable)
        } else {
            None
        }),
{
    if succeeded {
        match action {
            AutostartAction::Enable => Some(true),
            AutostartAction::Disable => Some(false),
        }
    } else {
        None
    }
}

// ---------------------------------------------------------------------------
// Lockout-protection item
// ---------------------------------------------------------------------------

/// Argument that installs the boot recovery task in an elevated child.
pub const INSTALL_BOOT_TASK_ARG: &'static str = "--install-boot-task";
/// Argument that removes it.
pub const UNINSTALL_BOOT_TASK_ARG: &'static str = "--uninstall-boot-task";

/// What choosing the lockout-protection item does.
#[derive(Debug, Clone, Copy, PartialEq, Eq, Structural)]
pub enum BootTaskAction {
    /// Register the task here (elevated).
    Install,
    /// Delete the task here (elevated).
    Uninstall,
    /// Run this program again elevated with the install argument.
    RelaunchInstall,
    /// Run this program again elevated with the uninstall argument.
    RelaunchUninstall,
}

/// The item flips whether the task is installed, directly when elevated,
/// else through an elevated child.
pub open spec fn boot_task_action_of(currently_installed: bool, elevated: bool) -> BootTaskAction {
    if elevated {
        if currently_installed {
            BootTaskAction::Uninstall
        } else {
            BootTaskAction::Install
        }
    } else if currently_installed {
        BootTaskAction::RelaunchUninstall
    } else {
        BootTaskAction::RelaunchInstall
    }
}

/// What the lockout-protection item does.
pub fn boot_task_toggle(currently_installed: bool, elevated: bool) -> (a: BootTaskAction)
    ensures
        a == boot_task_action_of(currently_installed, elevated),
{
    if elevated {
        if currently_installed {
            BootTaskAction::Uninstall
        } else {
            BootTaskAction::Install
        }
    } else if currently_installed {
        BootTaskAction::RelaunchUninstall
    } else {
        BootTaskAction::RelaunchInstall
    }
}

/// The argument an elevated child is started with for a relaunch action.
pub fn relaunch_arg(a: BootTaskAction) -> (arg: Option<&'static str>)
    ensures
        match a {
            BootTaskAction::RelaunchInstall => arg matches Some(s) && s@
                == INSTALL_BOOT_TASK_ARG@,
            BootTaskAction::RelaunchUninstall => arg matches Some(s) && s@
                == UNINSTALL_BOOT_TASK_ARG@,
            _ => arg is None,
        },
{
    match a {
        BootTaskAction::RelaunchInstall => Some(INSTALL_BOOT_TASK_ARG),
        BootTaskAction::RelaunchUninstall => Some(UNINSTALL_BOOT_TASK_ARG),
        _ => None,
    }
}

/// The error of an elevated child that exited with `code`.
pub open spec fn child_exit_text(code: u32) -> Seq<char> {
    "elevated child exited with code "@ + decimal(code as nat)
}

/// The outcome of an elevated child: success only for exit code 0.
pub fn relaunch_outcome(exit_code: u32) -> (r: Result<(), String>)
    ensures
        r is Ok <==> exit_code == 0,
        r matches Err(e) ==> e@ == child_exit_text(exit_code),
{
    if exit_code == 0 {
        Ok(())
    } else {
        let mut v = chars_of("elevated child exited with code ");
        let d = decimal_chars(exit_code as u64);
        extend(&mut v, &d);
        Err(string_of(&v))
    }
}

/// What a finished toggle of the lockout-protection item reports.
#[derive(Debug, Clone, Copy, PartialEq, Eq, Structural)]
pub enum BootTaskChange {
    Removed,
    Installed,
    /// Nothing changed (elevation declined, say).
    Unchanged,
}

/// The change from the state before the toggle to the state read after it.
pub fn boot_task_change(was_installed: bool, now_installed: bool) -> (c: BootTaskChange)
    ensures
        c == (if was_installed && !now_installed {
            BootTaskChange::Removed
        } else if !was_installed && now_installed {
            BootTaskChange::Installed
        } else {
            BootTaskChange::Unchanged
        }),
{
    if was_installed && !now_installed {
        BootTaskChange::Removed
    } else if !was_installed && now_installed {
        BootTaskChange::Installed
    } else {
        BootTaskChange::Unchanged
    }
}

// ---------------------------------------------------------------------------
// Stale registrations
// ---------------------------------------------------------------------------

/// What `str::to_lowercase` returns for `s` (Unicode lower-case mapping).
pub uninterp spec fn unicode_lowercase(s: Seq<char>) -> Seq<char>;

/// `str::to_lowercase`: the string's Unicode lower-case mapping.
#[verifier::external_body]
fn to_lowercase(s: &str) -> (r: String)
    ensures
        r@ == unicode_lowercase(s@),
{
    s.to_lowercase()
}

/// Two paths name the same file: their canonical forms agree ignoring case
/// when both could be canonicalized (`a_canonical`, `b_canonical`), and
/// otherwise their texts (`a`, `b`) agree ignoring case.
pub open spec fn same_path(
    a_canonical: Option<Seq<char>>,
    b_canonical: Option<Seq<char>>,
    a: Seq<char>,
    b: Seq<char>,
) -> bool {
    match (a_canonical, b_canonical) {
        (Some(x), Some(y)) => unicode_lowercase(x) == unicode_lowercase(y),
        _ => unicode_lowercase(a) == unicode_lowercase(b),
    }
}

/// Whether two paths name the same file, compared case-insensitively.
pub fn paths_equal(a_canonical: Option<&str>, b_canonical: Option<&str>, a: &str, b: &str) -> (r:
    bool)
    ensures
        r == same_path(
            match a_canonical {
                Some(x) => Some(x@),
                None => None,
            },
            match b_canonical {
                Some(y) => Some(y@),
                None => None,
            },
            a@,
            b@,
        ),
{
    let (x, y) = match (a_canonical, b_canonical) {
        (Some(x), Some(y)) => (to_lowercase(x), to_lowercase(y)),
        _ => (to_lowercase(a), to_lowercase(b)),
    };
    same_text(x.as_str(), y.as_str())
}

/// A registration is stale when it names a path other than the running
/// executable; `matches_current` is `None` when nothing is registered.
pub fn is_stale(matches_current: Option<bool>) -> (r: bool)
    ensures
        r == (matches_current == Some(false)),
{
    match matches_current {
        Some(m) => !m,
        None => false,
    }
}

/// An item's label, with ` ⚠` when its registration is stale.
pub open spec fn marked_label(label: Seq<char>, stale: bool) -> Seq<char> {
    if stale {
        label + " ⚠"@
    } else {
        label
    }
}

/// The autostart item's label.
pub fn autostart_label(stale: bool) -> (s: &'static str)
    ensures
        s@ == marked_label(AUTOSTART_LABEL@, stale),
{
    proof {
        reveal_strlit("Auto-start SwitchBoard at login");
        reveal_strlit("Auto-start SwitchBoard at login ⚠");
        reveal_strlit(" ⚠");
    }
    if stale {
        "Auto-start SwitchBoard at login ⚠"
    } else {
        AUTOSTART_LABEL
    }
}

/// The lockout-protection item's label.
pub fn boot_task_label(stale: bool) -> (s: &'static str)
    ensures
        s@ == marked_label(BOOT_TASK_LABEL@, stale),
{
    proof {
        reveal_strlit("Lockout protection (recommended)");
        reveal_strlit("Lockout protection (recommended) ⚠");
        reveal_strlit(" ⚠");
    }
    if stale {
        "Lockout protection (recommended) ⚠"
    } else {
        BOOT_TASK_LABEL
    }
}

/// The body of the stale-path warning: one line per stale item, then how to
/// refresh the stored path to `current`.
pub open spec fn stale_warning_text(autostart_stale: bool, boot_task_stale: bool, current: Seq<
    char,
>) -> Seq<char> {
    let a = "• \"Auto-start SwitchBoard at login\" points to an old SwitchBoard location."@;
    let b = "• \"Lockout protection (recommended)\" points to an old SwitchBoard location."@;
    let lines = if autostart_stale && boot_task_stale {
        a + "\n"@ + b
    } else if autostart_stale {
        a
    } else {
        b
    };
    lines
        + "\n\nRight-click the tray icon, then uncheck and re-check the marked item(s) to refresh the stored path to:\n"@
        + current
}

/// The stale-path warning to show, if any registration is stale.
pub fn stale_warning(autostart_stale: bool, boot_task_stale: bool, current: &str) -> (r: Option<
    String,
>)
    ensures
        r is Some <==> autostart_stale || boot_task_stale,
        r matches Some(s) ==> s@ == stale_warning_text(autostart_stale, boot_task_stale, current@),
{
    if !autostart_stale && !boot_task_stale {
        return None;
    }
    let mut v: Vec<char> = Vec::new();
    if autostart_stale && boot_task_stale {
        extend_str(
            &mut v,
            "• \"Auto-start SwitchBoard at login\" points to an old SwitchBoard location.",
        );
        extend_str(&mut v, "\n");
        extend_str(
            &mut v,
            "• \"Lockout protection (recommended)\" points to an old SwitchBoard location.",
        );
    } else if autostart_stale {
        extend_str(
            &mut v,
            "• \"Auto-start SwitchBoard at login\" points to an old SwitchBoard location.",
        );
    } else {
        extend_str(
            &mut v,
            "• \"Lockout protection (recommended)\" points to an old SwitchBoard location.",
        );
    }
    extend_str(
        &mut v,
        "\n\nRight-click the tray icon, then uncheck and re-check the marked item(s) to refresh the stored path to:\n",
    );
    extend_str(&mut v, current);
    assert(v@ =~= stale_warning_text(autostart_stale, boot_task_stale, current@));
    Some(string_of(&v))
}

} // verus!
