use switchboard::device::KeyboardState;
use switchboard::recovery::{
    cleanup_start, delete_lock_after_reenable, recover_exit_code, CleanupStart, EnableRun,
    Finish, Next, Procedure, Report,
};

fn run(procedure: Procedure, elevated: bool, reports: &[Report]) -> Vec<Next> {
    let mut r = EnableRun::new(procedure, elevated);
    let mut out = vec![r.step(Report::Begin)];
    for rep in reports {
        out.push(r.step(*rep));
    }
    out
}

#[test]
fn recover_happy_path() {
    let steps = run(
        Procedure::Recover,
        false,
        &[Report::Resolved(true), Report::Enabled(true), Report::Read(Some(KeyboardState::Enabled))],
    );
    assert_eq!(steps, vec![Next::Resolve, Next::Enable, Next::Verify, Next::Stop(Finish::Succeeded)]);
    assert_eq!(recover_exit_code(Finish::Succeeded), 0);
}

#[test]
fn recover_retries_enable_once() {
    let steps = run(
        Procedure::Recover,
        true,
        &[Report::Resolved(true), Report::Enabled(false), Report::Enabled(false)],
    );
    assert_eq!(
        steps,
        vec![Next::Resolve, Next::Enable, Next::PauseThenEnable, Next::Stop(Finish::Failed)]
    );
    assert_eq!(recover_exit_code(Finish::Failed), 1);
}

#[test]
fn recover_reenables_a_still_disabled_keyboard() {
    let steps = run(
        Procedure::Recover,
        true,
        &[
            Report::Resolved(true),
            Report::Enabled(true),
            Report::Read(Some(KeyboardState::Disabled)),
            Report::Enabled(true),
            Report::Read(Some(KeyboardState::Enabled)),
        ],
    );
    assert_eq!(
        steps,
        vec![
            Next::Resolve,
            Next::Enable,
            Next::Verify,
            Next::PauseThenEnable,
            Next::Verify,
            Next::Stop(Finish::Succeeded)
        ]
    );
}

#[test]
fn recover_fails_without_target() {
    let steps = run(Procedure::Recover, true, &[Report::Resolved(false)]);
    assert_eq!(steps, vec![Next::Resolve, Next::Stop(Finish::ResolveFailed)]);
    assert_eq!(recover_exit_code(Finish::ResolveFailed), 1);
}

#[test]
fn quit_retry_skips_when_not_elevated() {
    assert_eq!(run(Procedure::QuitWithRetry, false, &[]), vec![Next::Stop(Finish::Skipped)]);
    assert_eq!(run(Procedure::Inline, false, &[]), vec![Next::Stop(Finish::Skipped)]);
}

#[test]
fn quit_retry_verifies_after_a_failed_last_enable() {
    let steps = run(
        Procedure::QuitWithRetry,
        true,
        &[
            Report::Resolved(true),
            Report::Enabled(true),
            Report::Read(Some(KeyboardState::Disabled)),
            Report::Enabled(false),
            Report::Read(None),
        ],
    );
    assert_eq!(
        steps,
        vec![
            Next::Resolve,
            Next::Enable,
            Next::Verify,
            Next::PauseThenEnable,
            Next::Verify,
            Next::Stop(Finish::Failed)
        ]
    );
}

#[test]
fn inline_enable_never_retries() {
    let steps = run(
        Procedure::Inline,
        true,
        &[Report::Resolved(true), Report::Enabled(false), Report::Read(Some(KeyboardState::Disabled))],
    );
    assert_eq!(steps, vec![Next::Resolve, Next::Enable, Next::Verify, Next::Stop(Finish::Failed)]);
}

#[test]
fn mismatched_report_fails_and_done_stays_done() {
    let mut r = EnableRun::new(Procedure::Recover, true);
    assert_eq!(r.step(Report::Enabled(true)), Next::Stop(Finish::Failed));
    assert_eq!(r.step(Report::Begin), Next::Stop(Finish::Failed));
}

#[test]
fn shutdown_cleanup_decisions() {
    assert_eq!(cleanup_start(true, true), CleanupStart::AlreadyDone);
    assert_eq!(cleanup_start(false, false), CleanupStart::DeleteLock);
    assert_eq!(cleanup_start(false, true), CleanupStart::Reenable);
    assert!(delete_lock_after_reenable(true));
    assert!(!delete_lock_after_reenable(false));
}
