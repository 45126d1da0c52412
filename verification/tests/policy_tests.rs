use switchboard::device::{KeyboardState, ResolveResult, Target};
use switchboard::policy::{
    Controller, DisableResult, Effect, Event, Notice, Pending, Query, Reply,
};

fn target() -> Target {
    Target {
        instance_id: "HID\\X".to_string(),
        hardware_ids: vec![],
        parent: String::new(),
        service: "kbdhid".to_string(),
    }
}

fn armed() -> Controller {
    let mut c = Controller::new(true, true, false);
    let e = c.arm_initial_policy();
    assert!(matches!(e, Effect::UpdateTooltip { active: true, arming: true }));
    c
}

fn disabled_controller() -> Controller {
    let mut c = armed();
    let s = c.handle(Event::InitialPolicyTimer);
    assert!(matches!(s.effects[0], Effect::KillInitialPolicyTimer));
    assert_eq!(s.query, Some(Query::NuphyConnected));
    let s = c.resume(Reply::NuphyConnected(true));
    assert_eq!(s.query, Some(Query::ResolveTarget));
    let s = c.resume(Reply::Resolved(ResolveResult::Matched(target())));
    assert!(matches!(s.effects[0], Effect::PublishShutdownTarget));
    assert_eq!(s.query, Some(Query::SendDisable { op_id: 1 }));
    let s = c.resume(Reply::Sent(true));
    assert_eq!(s.query, None);
    assert_eq!(s.effects.len(), 1);
    assert!(matches!(s.effects[0], Effect::UpdateTooltip { active: true, arming: false }));
    assert_eq!(c.pending, Pending::Idle);
    c
}

#[test]
fn initial_policy_disables_single_target() {
    let c = disabled_controller();
    assert_eq!(c.op_id, 1);
    assert_eq!(c.current_generation, 1);
    assert!(c.cached_target.is_some());
}

#[test]
fn disconnected_keyboard_enables() {
    let mut c = armed();
    c.handle(Event::BleConnectionChanged);
    let s = c.resume(Reply::NuphyConnected(false));
    assert_eq!(s.query, Some(Query::SendEnable { op_id: 1 }));
    let s = c.resume(Reply::Sent(true));
    assert_eq!(s.query, None);
    assert!(!c.initial_policy_pending);
}

#[test]
fn multiple_matches_enable_and_report() {
    let mut c = armed();
    c.handle(Event::BleConnectionChanged);
    c.resume(Reply::NuphyConnected(true));
    let s = c.resume(Reply::Resolved(ResolveResult::MultipleMatches {
        candidates: vec![target(), target()],
        dump: "a\nb\n".to_string(),
    }));
    assert!(matches!(s.effects[0], Effect::ReportResolveFailure(_)));
    assert_eq!(s.query, Some(Query::SendEnable { op_id: 1 }));
}

#[test]
fn stale_worker_result_is_ignored() {
    let mut c = disabled_controller();
    c.handle(Event::TrayActiveToggled);
    c.resume(Reply::Sent(true));
    let gen = c.current_generation;
    let s = c.handle(Event::WorkerResult(DisableResult {
        op_id: gen - 1,
        disable_ok: true,
        verify_state: Some(KeyboardState::Enabled),
        err: None,
    }));
    assert!(s.effects.is_empty());
    assert_eq!(s.query, None);
}

#[test]
fn verify_mismatch_turns_active_off() {
    let mut c = disabled_controller();
    let s = c.handle(Event::WorkerResult(DisableResult {
        op_id: 1,
        disable_ok: true,
        verify_state: Some(KeyboardState::Enabled),
        err: None,
    }));
    assert_eq!(s.query, Some(Query::SendEnable { op_id: 2 }));
    let s = c.resume(Reply::Sent(true));
    assert!(!c.desired_active);
    assert!(matches!(s.effects[0], Effect::SetActiveCheck(false)));
    assert!(matches!(s.effects[1], Effect::Notify(Notice::DisableFailed)));
}

#[test]
fn failed_disable_send_means_worker_dead() {
    let mut c = armed();
    c.handle(Event::BleConnectionChanged);
    c.resume(Reply::NuphyConnected(true));
    c.resume(Reply::Resolved(ResolveResult::Matched(target())));
    let s = c.resume(Reply::Sent(false));
    assert!(c.worker_dead);
    assert!(!c.desired_active);
    assert!(matches!(s.effects[0], Effect::SetActiveCheck(false)));
    assert!(matches!(s.effects[1], Effect::InlineEnable));
    assert!(matches!(s.effects[2], Effect::Notify(Notice::WorkerCrashed)));
}

#[test]
fn suspend_enables_inline_and_gates() {
    let mut c = disabled_controller();
    let s = c.handle(Event::Suspend { now_ms: 1000 });
    assert!(c.resume_pending);
    assert_eq!(s.effects.len(), 1);
    assert!(matches!(s.effects[0], Effect::InlineEnable));
    let s = c.handle(Event::SanityTimer { now_ms: 2000, worker_finished: false });
    assert_eq!(s.query, None);
    let s = c.handle(Event::SessionUnlock);
    assert!(!c.resume_pending);
    assert_eq!(s.query, Some(Query::NuphyConnected));
}

#[test]
fn resume_gate_expires_after_two_minutes() {
    let mut c = disabled_controller();
    c.handle(Event::ResumeAutomatic { now_ms: 0 });
    c.resume(Reply::Sent(true));
    let s = c.handle(Event::SanityTimer { now_ms: 120_001, worker_finished: false });
    assert!(!c.resume_pending);
    assert_eq!(s.query, Some(Query::SessionActive));
}

#[test]
fn quit_sequence() {
    let mut c = Controller::new(true, true, false);
    let s = c.handle(Event::TrayQuit);
    assert!(!c.desired_active);
    assert!(matches!(s.effects[0], Effect::SendShutdown));
    assert!(matches!(s.effects[1], Effect::JoinWorker));
    assert!(matches!(s.effects[2], Effect::ShutdownCleanup));
    assert!(matches!(s.effects[3], Effect::InlineEnableWithRetry));
    assert!(matches!(s.effects[4], Effect::PostQuit));
}

#[test]
fn theme_change_swaps_icon_once() {
    let mut c = Controller::new(true, true, false);
    let s = c.handle(Event::ThemeChanged { light: true });
    assert!(matches!(s.effects[0], Effect::SwapTrayIcon(true)));
    let s = c.handle(Event::ThemeChanged { light: true });
    assert!(s.effects.is_empty());
}

#[test]
fn events_while_waiting_repeat_the_question() {
    let mut c = armed();
    c.handle(Event::BleConnectionChanged);
    let s = c.handle(Event::TrayActiveToggled);
    assert_eq!(s.query, Some(Query::NuphyConnected));
    assert!(c.desired_active);
}
