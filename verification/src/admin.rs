//! The command line: `--recover`, and the administrator subcommands that
//! install or remove the boot recovery task (run elevated, or relaunched
//! elevated), with what they print and exit with.

use vstd::prelude::*;
use crate::boot_task::TASK_NAME;
use crate::text::{chars_of, extend_str, same_chars, string_of};

verus! {

broadcast use vstd::string::group_string_axioms;

/// Argument that selects the recovery mode.
pub const RECOVER_ARG: &'static str = "--recover";

/// An administrator subcommand.
#[derive(Debug, Clone, Copy, PartialEq, Eq, Structural)]
pub enum AdminSubcommand {
    InstallBootTask,
    UninstallBootTask,
}

/// What the process was started for.
#[derive(Debug, Clone, Copy, PartialEq, Eq, Structural)]
pub enum LaunchMode {
    /// Re-enable the keyboard and exit.
    Recover,
    /// Run an administrator subcommand and exit.
    Admin(AdminSubcommand),
    /// Run the tray application.
    Tray,
}

/// The argument naming a subcommand.
pub open spec fn subcommand_arg(sub: AdminSubcommand) -> Seq<char> {
    match sub {
        AdminSubcommand::InstallBootTask => "--install-boot-task"@,
        AdminSubcommand::UninstallBootTask => "--uninstall-boot-task"@,
    }
}

impl AdminSubcommand {
    /// The argument naming this subcommand.
    pub fn arg(self) -> (s: &'static str)
        ensures
            s@ == subcommand_arg(self),
    {
        match self {
            AdminSubcommand::InstallBootTask => "--install-boot-task",
            AdminSubcommand::UninstallBootTask => "--uninstall-boot-task",
        }
    }
}

/// The subcommand the argument `a` names, if any.
pub open spec fn subcommand_named(a: Seq<char>) -> Option<AdminSubcommand> {
    if a == subcommand_arg(AdminSubcommand::InstallBootTask) {
        Some(AdminSubcommand::InstallBootTask)
    } else if a == subcommand_arg(AdminSubcommand::UninstallBootTask) {
        Some(AdminSubcommand::UninstallBootTask)
    } else {
        None
    }
}

/// The first subcommand among `args`.
pub open spec fn first_subcommand(args: Seq<Seq<char>>) -> Option<AdminSubcommand>
    decreases args.len(),
{
    if args.len() == 0 {
        None
    } else {
        match subcommand_named(args[0]) {
            Some(s) => Some(s),
            None => first_subcommand(args.drop_first()),
        }
    }
}

/// The launch mode for the full argument list `args` (program name first):
/// `--recover` anywhere wins; else the first subcommand after the program
/// name; else the tray.
pub open spec fn launch_mode_of(args: Seq<Seq<char>>) -> LaunchMode {
    if args.contains(RECOVER_ARG@) {
        LaunchMode::Recover
    } else if args.len() > 0 {
        match first_subcommand(args.drop_first()) {
            Some(s) => LaunchMode::Admin(s),
            None => LaunchMode::Tray,
        }
    } else {
        LaunchMode::Tray
    }
}

/// The launch mode for the command line `args` (program name first).
pub fn launch_mode(args: &Vec<String>) -> (m: LaunchMode)
    ensures
        m == launch_mode_of(args.deep_view()),
{
    let recover = chars_of(RECOVER_ARG);
    let install = chars_of("--install-boot-task");
    let uninstall = chars_of("--uninstall-boot-task");
    let ghost view = args.deep_view();
    let mut i: usize = 0;
    while i < args.len()
        invariant
            i <= args.len(),
            view == args.deep_view(),
            recover@ == RECOVER_ARG@,
            forall|j: int| 0 <= j < i ==> view[j] != RECOVER_ARG@,
        decreases args.len() - i,
    {
        let a = chars_of(args[i].as_str());
        if same_chars(&a, &recover) {
            assert(view[i as int] == RECOVER_ARG@);
            return LaunchMode::Recover;
        }
        i += 1;
    }
    assert(!view.contains(RECOVER_ARG@));
    if args.len() == 0 {
        return LaunchMode::Tray;
    }
    let ghost rest = view.drop_first();
    let mut k: usize = 1;
    assert(view.skip(1) =~= rest);
    while k < args.len()
        invariant
            1 <= k <= args.len(),
            view == args.deep_view(),
            rest == view.drop_first(),
            !view.contains(RECOVER_ARG@),
            install@ == subcommand_arg(AdminSubcommand::InstallBootTask),
            uninstall@ == subcommand_arg(AdminSubcommand::UninstallBootTask),
            first_subcommand(rest) == first_subcommand(view.skip(k as int)),
        decreases args.len() - k,
    {
        let a = chars_of(args[k].as_str());
        let ghost tail = view.skip(k as int);
        assert(tail[0] == view[k as int]);
        if same_chars(&a, &install) {
            assert(first_subcommand(tail) == Some(AdminSubcommand::InstallBootTask));
            return LaunchMode::Admin(AdminSubcommand::InstallBootTask);
        }
        if same_chars(&a, &uninstall) {
            assert(first_subcommand(tail) == Some(AdminSubcommand::UninstallBootTask));
            return LaunchMode::Admin(AdminSubcommand::UninstallBootTask);
        }
        assert(tail.drop_first() =~= view.skip(k + 1));
        k += 1;
    }
    assert(view.skip(k as int).len() == 0);
    LaunchMode::Tray
}

// ---------------------------------------------------------------------------
// Running a subcommand
// ---------------------------------------------------------------------------

/// What a subcommand prints and exits with.
#[derive(Debug)]
pub struct AdminReport {
    /// Lines for standard output.
    pub out: Vec<String>,
    /// Lines for standard error.
    pub err: Vec<String>,
    /// The exit code.
    pub exit_code: i32,
}

/// The exit code of a non-elevated invocation whose elevated child exited
/// with `code`: the child's code, reinterpreted as signed.
pub fn relayed_exit_code(code: u32) -> (c: i32)
    ensures
        c == code as i32,
{
    code as i32
}

/// The lines an installed task is described with.
pub open spec fn install_lines(path: Seq<char>) -> Seq<Seq<char>> {
    seq![
        Seq::<char>::empty(),
        "Task name:   "@ + TASK_NAME@,
        "Trigger:     At system startup (boot)"@,
        "Principal:   NT AUTHORITY\\SYSTEM (Highest)"@,
        "Action:      \""@ + path + "\" --recover"@,
        Seq::<char>::empty(),
        "[OK] Task registered successfully"@,
    ]
}

/// The report of `--install-boot-task` after the install returned `result`
/// (the registered path, or the error).
pub fn install_report(result: &Result<String, String>) -> (r: AdminReport)
    ensures
        match result {
            Ok(path) => r.exit_code == 0 && r.out.deep_view() == install_lines(path@)
                && r.err.len() == 0,
            Err(e) => r.exit_code == 1 && r.out.len() == 0 && r.err.deep_view() == seq![
                Seq::<char>::empty(),
                "[FAIL] "@ + e@,
            ],
        },
{
    match result {
        Ok(path) => {
            let mut out: Vec<String> = Vec::new();
            out.push(String::new());
            let mut l1 = chars_of("Task name:   ");
            extend_str(&mut l1, TASK_NAME);
            out.push(string_of(&l1));
            out.push(String::from_str("Trigger:     At system startup (boot)"));
            out.push(String::from_str("Principal:   NT AUTHORITY\\SYSTEM (Highest)"));
            let mut l4 = chars_of("Action:      \"");
            extend_str(&mut l4, path.as_str());
            extend_str(&mut l4, "\" --recover");
            out.push(string_of(&l4));
            out.push(String::new());
            out.push(String::from_str("[OK] Task registered successfully"));
            assert(out.deep_view() =~= install_lines(path@));
            AdminReport { out, err: Vec::new(), exit_code: 0 }
        },
        Err(e) => {
            let mut err: Vec<String> = Vec::new();
            err.push(String::new());
            let mut l = chars_of("[FAIL] ");
            extend_str(&mut l, e.as_str());
            err.push(string_of(&l));
            assert(err.deep_view() =~= seq![Seq::<char>::empty(), "[FAIL] "@ + e@]);
            AdminReport { out: Vec::new(), err, exit_code: 1 }
        },
    }
}

/// The report of `--uninstall-boot-task` after the uninstall returned
/// `result` (whether a task was removed, or the error). Finding no task is
/// a success.
pub fn uninstall_report(result: &Result<bool, String>) -> (r: AdminReport)
    ensures
        match result {
            Ok(true) => r.exit_code == 0 && r.out.deep_view() == seq![
                Seq::<char>::empty(),
                "[OK] Task '"@ + TASK_NAME@ + "' removed"@,
            ] && r.err.len() == 0,
            Ok(false) => r.exit_code == 0 && r.out.deep_view() == seq![
                Seq::<char>::empty(),
                "Task '"@ + TASK_NAME@ + "' not registered (nothing to remove)"@,
            ] && r.err.len() == 0,
            Err(e) => r.exit_code == 1 && r.out.len() == 0 && r.err.deep_view() == seq![
                Seq::<char>::empty(),
                "[FAIL] "@ + e@,
            ],
        },
{
    match result {
        Ok(removed) => {
            let mut out: Vec<String> = Vec::new();
            out.push(String::new());
            let mut l = chars_of("");
            if *removed {
                extend_str(&mut l, "[OK] Task '");
                extend_str(&mut l, TASK_NAME);
                extend_str(&mut l, "' removed");
            } else {
                extend_str(&mut l, "Task '");
                extend_str(&mut l, TASK_NAME);
                extend_str(&mut l, "' not registered (nothing to remove)");
            }
            out.push(string_of(&l));
            proof {
                reveal_strlit("");
            }
            if *removed {
                assert(out.deep_view() =~= seq![
                    Seq::<char>::empty(),
                    "[OK] Task '"@ + TASK_NAME@ + "' removed"@,
                ]);
            } else {
                assert(out.deep_view() =~= seq![
                    Seq::<char>::empty(),
                    "Task '"@ + TASK_NAME@ + "' not registered (nothing to remove)"@,
                ]);
            }
            AdminReport { out, err: Vec::new(), exit_code: 0 }
        },
        Err(e) => {
            let mut err: Vec<String> = Vec::new();
            err.push(String::new());
            let mut l = chars_of("[FAIL] ");
            extend_str(&mut l, e.as_str());
            err.push(string_of(&l));
            assert(err.deep_view() =~= seq![Seq::<char>::empty(), "[FAIL] "@ + e@]);
            AdminReport { out: Vec::new(), err, exit_code: 1 }
        },
    }
}

} // verus!
