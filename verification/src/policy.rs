//! The decision core of the tray application: from its state and the event
//! that arrived, the next state and what to do.
//!
//! The message loop owns a `Controller`. It hands every window event to
//! `Controller::handle`, performs the returned effects in order, and answers
//! the returned query (a fresh read of the keyboard's connection, a fresh
//! resolve of the target, the outcome of a send to the worker, the session
//! state) through `Controller::resume`, until no query is left.
//!
//! Every path that does not end in a disable ends in an enable; a disable is
//! only ever requested for a target that was resolved as the single match,
//! while the policy is active, the keyboard connected and the worker alive.

use vstd::prelude::*;
use crate::device::{KeyboardState, ResolveResult, Target};

verus! {

/// How long `resume_pending` may wait for an unlock (2 minutes).
pub const RESUME_TIMEOUT_MS: u64 = 120_000;

/// Minimum time between two re-reads of the externally owned checkmarks.
pub const CHECKMARK_RESYNC_INTERVAL_MS: u64 = 60_000;

/// What the user is told about.
#[derive(Debug, Clone, Copy, PartialEq, Eq, Structural)]
pub enum Notice {
    /// A disable did not take; Active was switched off.
    DisableFailed,
    /// The worker thread is gone; Active was switched off.
    WorkerCrashed,
}

/// What the user is told for a notice.
pub open spec fn notice_text_of(n: Notice) -> Seq<char> {
    match n {
        Notice::DisableFailed => "Keyboard disable failed — toggled Active off. Restart app to retry."@,
        Notice::WorkerCrashed => "Worker crashed — Active toggled off."@,
    }
}

/// The text of a notice.
pub fn notice_text(n: Notice) -> (s: &'static str)
    ensures
        s@ == notice_text_of(n),
{
    match n {
        Notice::DisableFailed => "Keyboard disable failed — toggled Active off. Restart app to retry.",
        Notice::WorkerCrashed => "Worker crashed — Active toggled off.",
    }
}

/// Something the message loop does on the controller's behalf.
#[derive(Debug)]
pub enum Effect {
    /// Stop the initial-policy grace timer.
    KillInitialPolicyTimer,
    /// Set the tray's Active checkmark.
    SetActiveCheck(bool),
    /// Rewrite the tooltip for these values of Active and of arming.
    UpdateTooltip { active: bool, arming: bool },
    /// Enable the keyboard on the loop thread (resolve, enable, verify).
    InlineEnable,
    /// The same, retrying the enable and the verify once each.
    InlineEnableWithRetry,
    /// Make the cached target the one the shutdown cleanup re-enables.
    PublishShutdownTarget,
    /// Log why resolving the target failed.
    ReportResolveFailure(ResolveResult),
    /// Tell the user.
    Notify(Notice),
    /// Show the tray icon for this theme (`true` is light).
    SwapTrayIcon(bool),
    /// Re-read the autostart and boot-task states into their checkmarks.
    ResyncCheckmarks,
    /// Ask the worker to stop.
    SendShutdown,
    /// Wait (bounded) for the worker to stop.
    JoinWorker,
    /// Re-enable the shutdown target and clear the crash marker.
    ShutdownCleanup,
    /// Leave the message loop.
    PostQuit,
}

/// A question the message loop has to answer before the controller goes on.
#[derive(Debug, Clone, Copy, PartialEq, Eq, Structural)]
pub enum Query {
    /// Is the keyboard connected right now?
    NuphyConnected,
    /// Resolve the target afresh.
    ResolveTarget,
    /// Send the worker a disable of the cached target; did the send work?
    SendDisable { op_id: u64 },
    /// Send the worker an enable; did the send work?
    SendEnable { op_id: u64 },
    /// Is the console session active?
    SessionActive,
}

/// The answer to a `Query`.
#[derive(Debug)]
pub enum Reply {
    NuphyConnected(bool),
    Resolved(ResolveResult),
    Sent(bool),
    SessionActive(bool),
}

/// What the worker reports after a disable-and-verify.
#[derive(Debug)]
pub struct DisableResult {
    pub op_id: u64,
    pub disable_ok: bool,
    pub verify_state: Option<KeyboardState>,
    pub err: Option<String>,
}

/// The events the message loop hands to the controller. Times are
/// milliseconds of a monotonic clock.
#[derive(Debug)]
pub enum Event {
    /// The keyboard's BLE connection changed.
    BleConnectionChanged,
    /// The user toggled Active in the tray.
    TrayActiveToggled,
    /// The user chose Quit in the tray.
    TrayQuit,
    /// The worker finished a disable-and-verify.
    WorkerResult(DisableResult),
    /// The system is suspending.
    Suspend { now_ms: u64 },
    /// The system resumed.
    ResumeAutomatic { now_ms: u64 },
    /// The lid was closed.
    LidClosed { now_ms: u64 },
    /// The display went off.
    DisplayOff { now_ms: u64 },
    /// The session was locked.
    SessionLock { now_ms: u64 },
    /// The session was unlocked.
    SessionUnlock,
    /// The sanity timer fired; `worker_finished` tells whether the worker thread has exited.
    SanityTimer { now_ms: u64, worker_finished: bool },
    /// The initial-policy grace period is over.
    InitialPolicyTimer,
    /// The taskbar theme was read after a theme change (`true` is light).
    ThemeChanged { light: bool },
}

/// What follows an enable sent to the worker.
#[derive(Debug, Clone, Copy, PartialEq, Eq, Structural)]
pub enum AfterEnable {
    /// The end of a policy application; `then_tooltip` adds the caller's
    /// trailing tooltip update.
    PolicyReturn { then_tooltip: bool },
    /// The worker read the keyboard still enabled after a disable.
    VerifyMismatch,
    /// The worker could not read the keyboard's state after a disable.
    VerifyError,
    /// Nothing.
    Nothing,
}

/// Where the controller is waiting.
#[derive(Debug, Clone, Copy, PartialEq, Eq, Structural)]
pub enum Pending {
    Idle,
    AwaitNuphy { then_tooltip: bool },
    AwaitResolve { then_tooltip: bool },
    AwaitDisableSent { then_tooltip: bool },
    AwaitEnableSent { after: AfterEnable },
    AwaitSessionActive,
}

/// The state of the message loop that decisions depend on.
#[derive(Debug)]
pub struct Controller {
    /// The user wants the internal keyboard disabled while the Nuphy is connected.
    pub desired_active: bool,
    /// Bumped by every state-changing event; older worker results are stale.
    pub current_generation: u64,
    /// Id of the last command sent to the worker.
    pub op_id: u64,
    /// A suspend or lock happened and no unlock yet.
    pub resume_pending: bool,
    /// When `resume_pending` was set.
    pub resume_timestamp: Option<u64>,
    /// The worker is gone: enables run inline, disables are refused.
    pub worker_dead: bool,
    /// The last target resolved for a disable.
    pub cached_target: Option<Target>,
    /// The initial-policy grace timer is running.
    pub initial_policy_pending: bool,
    /// The process runs elevated (device control needs it).
    pub is_elevated: bool,
    /// The taskbar theme last seen (`true` is light).
    pub current_theme_light: bool,
    /// When the external checkmarks were last re-read.
    pub last_checkmark_resync: Option<u64>,
    /// Where the controller is waiting for an answer.
    pub pending: Pending,
}

/// One step's output: effects to perform in order, and the question to
/// answer next, if any.
#[derive(Debug)]
pub struct Step {
    pub effects: Vec<Effect>,
    pub query: Option<Query>,
}

/// The result of a transition: next state, effects, next question.
pub type Transition = (Controller, Seq<Effect>, Option<Query>);

/// The tooltip update for `s`.
pub open spec fn tooltip(s: Controller) -> Effect {
    Effect::UpdateTooltip { active: s.desired_active, arming: s.initial_policy_pending }
}

/// An inline enable, which only an elevated process can perform.
pub open spec fn inline_enable(s: Controller) -> Seq<Effect> {
    if s.is_elevated {
        seq![Effect::InlineEnable]
    } else {
        Seq::empty()
    }
}

/// `s` waiting at `p`.
pub open spec fn waiting(s: Controller, p: Pending) -> Controller {
    Controller { pending: p, ..s }
}

/// The question asked while waiting at `s.pending`.
pub open spec fn pending_query(s: Controller) -> Option<Query> {
    match s.pending {
        Pending::Idle => None,
        Pending::AwaitNuphy { .. } => Some(Query::NuphyConnected),
        Pending::AwaitResolve { .. } => Some(Query::ResolveTarget),
        Pending::AwaitDisableSent { .. } => Some(Query::SendDisable { op_id: s.op_id }),
        Pending::AwaitEnableSent { .. } => Some(Query::SendEnable { op_id: s.op_id }),
        Pending::AwaitSessionActive => Some(Query::SessionActive),
    }
}

/// Effects `e` in front of a transition.
pub open spec fn prefixed(e: Seq<Effect>, t: Transition) -> Transition {
    (t.0, e + t.1, t.2)
}

/// What follows an enable.
pub open spec fn after_enable(s: Controller, after: AfterEnable) -> Transition {
    let s = waiting(s, Pending::Idle);
    match after {
        AfterEnable::PolicyReturn { then_tooltip } => (
            s,
            if then_tooltip {
                seq![tooltip(s), tooltip(s)]
            } else {
                seq![tooltip(s)]
            },
            None,
        ),
        AfterEnable::VerifyMismatch => {
            let s2 = Controller {
                desired_active: false,
                current_generation: (s.current_generation + 1) as u64,
                ..s
            };
            (
                s2,
                seq![
                    Effect::SetActiveCheck(false),
                    Effect::Notify(Notice::DisableFailed),
                    tooltip(s2),
                ],
                None,
            )
        },
        AfterEnable::VerifyError => (s, seq![tooltip(s)], None),
        AfterEnable::Nothing => (s, Seq::empty(), None),
    }
}

/// Enable through the worker, or inline once the worker is dead.
pub open spec fn enable_via_worker(s: Controller, after: AfterEnable) -> Transition {
    if s.worker_dead {
        prefixed(inline_enable(s), after_enable(s, after))
    } else {
        let s2 = Controller {
            op_id: (s.op_id + 1) as u64,
            pending: Pending::AwaitEnableSent { after },
            ..s
        };
        (s2, Seq::empty(), Some(Query::SendEnable { op_id: s2.op_id }))
    }
}

/// The end of a policy application.
pub open spec fn policy_end(s: Controller, then_tooltip: bool) -> Transition {
    let s = waiting(s, Pending::Idle);
    (
        s,
        if then_tooltip {
            seq![tooltip(s)]
        } else {
            Seq::empty()
        },
        None,
    )
}

/// The start of a policy application: an inactive policy enables, an
/// active one asks whether the keyboard is connected.
pub open spec fn apply_policy(s: Controller, then_tooltip: bool) -> Transition {
    if !s.desired_active {
        enable_via_worker(waiting(s, Pending::Idle), AfterEnable::PolicyReturn { then_tooltip })
    } else {
        (waiting(s, Pending::AwaitNuphy { then_tooltip }), Seq::empty(), Some(Query::NuphyConnected))
    }
}

/// `s` with the initial-policy timer stopped if it was running.
pub open spec fn cancel_initial_timer(s: Controller) -> (Controller, Seq<Effect>) {
    if s.initial_policy_pending {
        (Controller { initial_policy_pending: false, ..s }, seq![Effect::KillInitialPolicyTimer])
    } else {
        (s, Seq::empty())
    }
}

/// Enter resume gating at `now` and enable inline.
pub open spec fn enter_resume_gate(s: Controller, now: u64) -> Transition {
    let s2 = Controller { resume_pending: true, resume_timestamp: Some(now), ..s };
    (s2, inline_enable(s2), None)
}

/// Time from `earlier` to `now`, zero if the clock went backwards.
pub open spec fn elapsed(now: u64, earlier: u64) -> int {
    if now >= earlier {
        now - earlier
    } else {
        0
    }
}

/// The checkmarks are due for a re-read.
pub open spec fn resync_due(s: Controller, now: u64) -> bool {
    match s.last_checkmark_resync {
        None => true,
        Some(last) => elapsed(now, last) >= CHECKMARK_RESYNC_INTERVAL_MS,
    }
}

/// Re-read the external checkmarks when they are due.
pub open spec fn resync_checkmarks(s: Controller, now: u64) -> (Controller, Seq<Effect>) {
    if resync_due(s, now) {
        (Controller { last_checkmark_resync: Some(now), ..s }, seq![Effect::ResyncCheckmarks])
    } else {
        (s, Seq::empty())
    }
}

/// A finished worker thread is dead: the policy goes inactive and the
/// keyboard is enabled inline.
pub open spec fn check_worker(s: Controller, worker_finished: bool) -> (Controller, Seq<Effect>) {
    if worker_finished {
        let t = Controller { worker_dead: true, desired_active: false, ..s };
        (t, seq![Effect::SetActiveCheck(false), tooltip(t)] + inline_enable(t))
    } else {
        (s, Seq::empty())
    }
}

/// Resume gating ends after `RESUME_TIMEOUT_MS` without an unlock.
pub open spec fn expire_resume_gate(s: Controller, now: u64) -> Controller {
    match s.resume_timestamp {
        Some(ts) => if s.resume_pending && elapsed(now, ts) > RESUME_TIMEOUT_MS {
            Controller { resume_pending: false, resume_timestamp: None, ..s }
        } else {
            s
        },
        None => s,
    }
}

/// The sanity timer: re-read the checkmarks, check the worker, expire the
/// resume hold, and, unless still held, ask whether the session is active so
/// that the policy is applied again.
pub open spec fn sanity_timer(s: Controller, now: u64, worker_finished: bool) -> Transition {
    let (s1, e1) = resync_checkmarks(s, now);
    let (s2, e2) = check_worker(s1, worker_finished);
    let s3 = expire_resume_gate(s2, now);
    if !s3.resume_pending {
        (waiting(s3, Pending::AwaitSessionActive), e1 + e2, Some(Query::SessionActive))
    } else {
        (s3, e1 + e2, None)
    }
}

/// The transition for an event that arrives while the controller waits for
/// nothing; while it waits, events change nothing and the question is asked again.
pub open spec fn handle_spec(s: Controller, e: Event) -> Transition {
    if s.pending != Pending::Idle {
        (s, Seq::empty(), pending_query(s))
    } else {
        match e {
            Event::BleConnectionChanged => {
                let (s1, e1) = cancel_initial_timer(s);
                prefixed(e1, apply_policy(s1, false))
            },
            Event::TrayActiveToggled => {
                let (s1, e1) = cancel_initial_timer(s);
                let s2 = Controller {
                    desired_active: !s1.desired_active,
                    current_generation: (s1.current_generation + 1) as u64,
                    ..s1
                };
                prefixed(
                    e1 + seq![Effect::SetActiveCheck(s2.desired_active), tooltip(s2)],
                    apply_policy(s2, false),
                )
            },
            Event::TrayQuit => {
                let s1 = Controller { desired_active: false, ..s };
                let retry = if s1.cached_target is None && s1.is_elevated {
                    seq![Effect::InlineEnableWithRetry]
                } else {
                    Seq::empty()
                };
                (
                    s1,
                    seq![Effect::SendShutdown, Effect::JoinWorker, Effect::ShutdownCleanup] + retry
                        + seq![Effect::PostQuit],
                    None,
                )
            },
            Event::WorkerResult(r) => {
                if r.op_id < s.current_generation {
                    (s, Seq::empty(), None)
                } else {
                    match r.verify_state {
                        Some(KeyboardState::Disabled) => (s, seq![tooltip(s)], None),
                        Some(KeyboardState::Enabled) => enable_via_worker(
                            s,
                            AfterEnable::VerifyMismatch,
                        ),
                        None => enable_via_worker(s, AfterEnable::VerifyError),
                    }
                }
            },
            Event::Suspend { now_ms } => enter_resume_gate(s, now_ms),
            Event::LidClosed { now_ms } => enter_resume_gate(s, now_ms),
            Event::DisplayOff { now_ms } => enter_resume_gate(s, now_ms),
            Event::SessionLock { now_ms } => enter_resume_gate(s, now_ms),
            Event::ResumeAutomatic { now_ms } => {
                let s1 = Controller { resume_pending: true, resume_timestamp: Some(now_ms), ..s };
                enable_via_worker(s1, AfterEnable::Nothing)
            },
            Event::SessionUnlock => {
                if s.resume_pending {
                    let s1 = Controller { resume_pending: false, resume_timestamp: None, ..s };
                    apply_policy(s1, false)
                } else {
                    (s, Seq::empty(), None)
                }
            },
            Event::SanityTimer { now_ms, worker_finished } => sanity_timer(
                s,
                now_ms,
                worker_finished,
            ),
            Event::InitialPolicyTimer => {
                let s1 = Controller { initial_policy_pending: false, ..s };
                prefixed(seq![Effect::KillInitialPolicyTimer], apply_policy(s1, true))
            },
            Event::ThemeChanged { light } => {
                if light == s.current_theme_light {
                    (s, Seq::empty(), None)
                } else {
                    (
                        Controller { current_theme_light: light, ..s },
                        seq![Effect::SwapTrayIcon(light)],
                        None,
                    )
                }
            },
        }
    }
}

/// Connected or not, answered while waiting at `AwaitNuphy`.
pub open spec fn on_nuphy(s: Controller, then_tooltip: bool, connected: bool) -> Transition {
    if !connected {
        enable_via_worker(waiting(s, Pending::Idle), AfterEnable::PolicyReturn { then_tooltip })
    } else {
        (
            waiting(s, Pending::AwaitResolve { then_tooltip }),
            Seq::empty(),
            Some(Query::ResolveTarget),
        )
    }
}

/// The resolve result, answered while waiting at `AwaitResolve`: only a
/// single match leads to a disable, and only while the worker lives.
pub open spec fn on_resolved(s: Controller, then_tooltip: bool, res: ResolveResult) -> Transition {
    match res {
        ResolveResult::Matched(target) => {
            let s1 = Controller {
                cached_target: Some(target),
                op_id: (s.op_id + 1) as u64,
                current_generation: (s.current_generation + 1) as u64,
                pending: Pending::Idle,
                ..s
            };
            if s1.worker_dead {
                prefixed(
                    seq![Effect::PublishShutdownTarget] + inline_enable(s1),
                    policy_end(s1, then_tooltip),
                )
            } else {
                (
                    waiting(s1, Pending::AwaitDisableSent { then_tooltip }),
                    seq![Effect::PublishShutdownTarget],
                    Some(Query::SendDisable { op_id: s1.op_id }),
                )
            }
        },
        other => prefixed(
            seq![Effect::ReportResolveFailure(other)],
            enable_via_worker(waiting(s, Pending::Idle), AfterEnable::PolicyReturn { then_tooltip }),
        ),
    }
}

/// The outcome of sending a disable: a failed send means the worker is
/// dead, the policy goes inactive and the keyboard is enabled inline.
pub open spec fn on_disable_sent(s: Controller, then_tooltip: bool, ok: bool) -> Transition {
    if ok {
        policy_end(s, then_tooltip)
    } else {
        let s1 = Controller { worker_dead: true, desired_active: false, ..s };
        prefixed(
            seq![Effect::SetActiveCheck(false)] + inline_enable(s1) + seq![
                Effect::Notify(Notice::WorkerCrashed),
            ],
            policy_end(s1, then_tooltip),
        )
    }
}

/// The outcome of sending an enable: a failed send means the worker is dead
/// and the keyboard is enabled inline.
pub open spec fn on_enable_sent(s: Controller, after: AfterEnable, ok: bool) -> Transition {
    if ok {
        after_enable(s, after)
    } else {
        let s1 = Controller { worker_dead: true, ..s };
        prefixed(inline_enable(s1), after_enable(s1, after))
    }
}

/// Whether the session is active, answered after the sanity timer.
pub open spec fn on_session(s: Controller, active: bool) -> Transition {
    if active {
        apply_policy(waiting(s, Pending::Idle), false)
    } else {
        (waiting(s, Pending::Idle), Seq::empty(), None)
    }
}

/// The transition for the answer to the pending question; an answer that
/// does not fit the question changes nothing and the question is asked again.
pub open spec fn resume_spec(s: Controller, r: Reply) -> Transition {
    match (s.pending, r) {
        (Pending::AwaitNuphy { then_tooltip }, Reply::NuphyConnected(c)) => on_nuphy(
            s,
            then_tooltip,
            c,
        ),
        (Pending::AwaitResolve { then_tooltip }, Reply::Resolved(res)) => on_resolved(
            s,
            then_tooltip,
            res,
        ),
        (Pending::AwaitDisableSent { then_tooltip }, Reply::Sent(ok)) => on_disable_sent(
            s,
            then_tooltip,
            ok,
        ),
        (Pending::AwaitEnableSent { after }, Reply::Sent(ok)) => on_enable_sent(s, after, ok),
        (Pending::AwaitSessionActive, Reply::SessionActive(a)) => on_session(s, a),
        _ => (s, Seq::empty(), pending_query(s)),
    }
}

/// Both counters can still be incremented twice.
pub open spec fn counters_fit(s: Controller) -> bool {
    s.op_id < u64::MAX - 1 && s.current_generation < u64::MAX - 1
}

impl Controller {
    /// The state at start-up, before the initial-policy timer runs.
    pub fn new(is_elevated: bool, desired_active: bool, theme_light: bool) -> (c: Controller)
        ensures
            c.desired_active == desired_active,
            c.current_generation == 0,
            c.op_id == 0,
            !c.resume_pending,
            c.resume_timestamp is None,
            !c.worker_dead,
            c.cached_target is None,
            !c.initial_policy_pending,
            c.is_elevated == is_elevated,
            c.current_theme_light == theme_light,
            c.last_checkmark_resync is None,
            c.pending == Pending::Idle,
    {
        Controller {
            desired_active,
            current_generation: 0,
            op_id: 0,
            resume_pending: false,
            resume_timestamp: None,
            worker_dead: false,
            cached_target: None,
            initial_policy_pending: false,
            is_elevated,
            current_theme_light: theme_light,
            last_checkmark_resync: None,
            pending: Pending::Idle,
        }
    }

    /// Start the grace period before the first policy application (its
    /// timer has just been set): the tooltip shows the arming notice until
    /// the timer fires or an event cancels it.
    pub fn arm_initial_policy(&mut self) -> (e: Effect)
        ensures
            *final(self) == (Controller { initial_policy_pending: true, ..*old(self) }),
            e == tooltip(*final(self)),
    {
        self.initial_policy_pending = true;
        self.tooltip_effect()
    }

    fn tooltip_effect(&self) -> (e: Effect)
        ensures
            e == tooltip(*self),
    {
        Effect::UpdateTooltip { active: self.desired_active, arming: self.initial_policy_pending }
    }

    fn push_inline_enable(&self, effects: &mut Vec<Effect>)
        ensures
            final(effects)@ == old(effects)@ + inline_enable(*self),
    {
        if self.is_elevated {
            effects.push(Effect::InlineEnable);
        }
        assert(effects@ =~= old(effects)@ + inline_enable(*self));
    }

    fn query_for_pending(&self) -> (q: Option<Query>)
        ensures
            q == pending_query(*self),
    {
        match self.pending {
            Pending::Idle => None,
            Pending::AwaitNuphy { .. } => Some(Query::NuphyConnected),
            Pending::AwaitResolve { .. } => Some(Query::ResolveTarget),
            Pending::AwaitDisableSent { .. } => Some(Query::SendDisable { op_id: self.op_id }),
            Pending::AwaitEnableSent { .. } => Some(Query::SendEnable { op_id: self.op_id }),
            Pending::AwaitSessionActive => Some(Query::SessionActive),
        }
    }

    fn finish_enable(&mut self, after: AfterEnable, effects: &mut Vec<Effect>) -> (q: Option<
        Query,
    >)
        requires
            old(self).current_generation < u64::MAX,
        ensures
            ({
                let t = after_enable(*old(self), after);
                *final(self) == t.0 && final(effects)@ == old(effects)@ + t.1 && q == t.2
            }),
    {
        self.pending = Pending::Idle;
        match after {
            AfterEnable::PolicyReturn { then_tooltip } => {
                effects.push(self.tooltip_effect());
                if then_tooltip {
                    effects.push(self.tooltip_effect());
                }
            },
            AfterEnable::VerifyMismatch => {
                self.desired_active = false;
                self.current_generation = self.current_generation + 1;
                effects.push(Effect::SetActiveCheck(false));
                effects.push(Effect::Notify(Notice::DisableFailed));
                effects.push(self.tooltip_effect());
            },
            AfterEnable::VerifyError => {
                effects.push(self.tooltip_effect());
            },
            AfterEnable::Nothing => {},
        }
        assert(effects@ =~= old(effects)@ + after_enable(*old(self), after).1);
        None
    }

    fn enable_via_worker(&mut self, after: AfterEnable, effects: &mut Vec<Effect>) -> (q: Option<
        Query,
    >)
        requires
            old(self).op_id < u64::MAX,
            old(self).current_generation < u64::MAX,
        ensures
            ({
                let t = enable_via_worker(*old(self), after);
                *final(self) == t.0 && final(effects)@ == old(effects)@ + t.1 && q == t.2
            }),
    {
        if self.worker_dead {
            self.push_inline_enable(effects);
            let q = self.finish_enable(after, effects);
            assert(effects@ =~= old(effects)@ + enable_via_worker(*old(self), after).1);
            q
        } else {
            self.op_id = self.op_id + 1;
            self.pending = Pending::AwaitEnableSent { after };
            assert(effects@ =~= old(effects)@ + Seq::<Effect>::empty());
            Some(Query::SendEnable { op_id: self.op_id })
        }
    }

    fn policy_end(&mut self, then_tooltip: bool, effects: &mut Vec<Effect>) -> (q: Option<Query>)
        ensures
            ({
                let t = policy_end(*old(self), then_tooltip);
                *final(self) == t.0 && final(effects)@ == old(effects)@ + t.1 && q == t.2
            }),
    {
        self.pending = Pending::Idle;
        if then_tooltip {
            effects.push(self.tooltip_effect());
        }
        assert(effects@ =~= old(effects)@ + policy_end(*old(self), then_tooltip).1);
        None
    }

    fn apply_policy(&mut self, then_tooltip: bool, effects: &mut Vec<Effect>) -> (q: Option<Query>)
        requires
            old(self).op_id < u64::MAX,
            old(self).current_generation < u64::MAX,
        ensures
            ({
                let t = apply_policy(*old(self), then_tooltip);
                *final(self) == t.0 && final(effects)@ == old(effects)@ + t.1 && q == t.2
            }),
    {
        if !self.desired_active {
            self.pending = Pending::Idle;
            self.enable_via_worker(AfterEnable::PolicyReturn { then_tooltip }, effects)
        } else {
            self.pending = Pending::AwaitNuphy { then_tooltip };
            assert(effects@ =~= old(effects)@ + Seq::<Effect>::empty());
            Some(Query::NuphyConnected)
        }
    }

    fn cancel_initial_timer(&mut self, effects: &mut Vec<Effect>)
        ensures
            ({
                let t = cancel_initial_timer(*old(self));
                *final(self) == t.0 && final(effects)@ == old(effects)@ + t.1
            }),
    {
        if self.initial_policy_pending {
            self.initial_policy_pending = false;
            effects.push(Effect::KillInitialPolicyTimer);
        }
        assert(effects@ =~= old(effects)@ + cancel_initial_timer(*old(self)).1);
    }

    fn enter_resume_gate(&mut self, now: u64, effects: &mut Vec<Effect>)
        ensures
            ({
                let t = enter_resume_gate(*old(self), now);
                *final(self) == t.0 && final(effects)@ == old(effects)@ + t.1 && t.2 is None
            }),
    {
        self.resume_pending = true;
        self.resume_timestamp = Some(now);
        self.push_inline_enable(effects);
    }

    fn resync_checkmarks(&mut self, now: u64, effects: &mut Vec<Effect>)
        ensures
            ({
                let t = resync_checkmarks(*old(self), now);
                *final(self) == t.0 && final(effects)@ == old(effects)@ + t.1
            }),
    {
        let due = match self.last_checkmark_resync {
            None => true,
            Some(last) => {
                let gone = if now >= last {
                    now - last
                } else {
                    0
                };
                gone >= CHECKMARK_RESYNC_INTERVAL_MS
            },
        };
        if due {
            self.last_checkmark_resync = Some(now);
            effects.push(Effect::ResyncCheckmarks);
        }
        assert(effects@ =~= old(effects)@ + resync_checkmarks(*old(self), now).1);
    }

    fn check_worker(&mut self, worker_finished: bool, effects: &mut Vec<Effect>)
        ensures
            ({
                let t = check_worker(*old(self), worker_finished);
                *final(self) == t.0 && final(effects)@ == old(effects)@ + t.1
            }),
    {
        if worker_finished {
            self.worker_dead = true;
            self.desired_active = false;
            effects.push(Effect::SetActiveCheck(false));
            effects.push(self.tooltip_effect());
            self.push_inline_enable(effects);
        }
        assert(effects@ =~= old(effects)@ + check_worker(*old(self), worker_finished).1);
    }

    fn expire_resume_gate(&mut self, now: u64)
        ensures
            *final(self) == expire_resume_gate(*old(self), now),
    {
        if self.resume_pending {
            if let Some(ts) = self.resume_timestamp {
                let gone = if now >= ts {
                    now - ts
                } else {
                    0
                };
                if gone > RESUME_TIMEOUT_MS {
                    self.resume_pending = false;
                    self.resume_timestamp = None;
                }
            }
        }
    }

    fn sanity_timer(&mut self, now: u64, worker_finished: bool, effects: &mut Vec<Effect>) -> (q:
        Option<Query>)
        ensures
            ({
                let t = sanity_timer(*old(self), now, worker_finished);
                *final(self) == t.0 && final(effects)@ == old(effects)@ + t.1 && q == t.2
            }),
    {
        let ghost e0 = effects@;
        self.resync_checkmarks(now, effects);
        let ghost e1 = effects@;
        self.check_worker(worker_finished, effects);
        self.expire_resume_gate(now);
        assert(effects@ =~= old(effects)@ + sanity_timer(*old(self), now, worker_finished).1);
        if !self.resume_pending {
            self.pending = Pending::AwaitSessionActive;
            Some(Query::SessionActive)
        } else {
            None
        }
    }

    /// Decide what an event means; see `handle_spec`.
    #[verifier::rlimit(100)]
    pub fn handle(&mut self, event: Event) -> (step: Step)
        requires
            counters_fit(*old(self)),
        ensures
            ({
                let t = handle_spec(*old(self), event);
                *final(self) == t.0 && step.effects@ == t.1 && step.query == t.2
            }),
    {
        let mut effects: Vec<Effect> = Vec::new();
        if self.pending != Pending::Idle {
            let query = self.query_for_pending();
            return Step { effects, query };
        }
        let query = match event {
            Event::BleConnectionChanged => {
                self.cancel_initial_timer(&mut effects);
                self.apply_policy(false, &mut effects)
            },
            Event::TrayActiveToggled => {
                self.cancel_initial_timer(&mut effects);
                self.desired_active = !self.desired_active;
                self.current_generation = self.current_generation + 1;
                effects.push(Effect::SetActiveCheck(self.desired_active));
                effects.push(self.tooltip_effect());
                self.apply_policy(false, &mut effects)
            },
            Event::TrayQuit => {
                self.desired_active = false;
                effects.push(Effect::SendShutdown);
                effects.push(Effect::JoinWorker);
                effects.push(Effect::ShutdownCleanup);
                if self.cached_target.is_none() && self.is_elevated {
                    effects.push(Effect::InlineEnableWithRetry);
                }
                effects.push(Effect::PostQuit);
                None
            },
            Event::WorkerResult(r) => {
                if r.op_id < self.current_generation {
                    None
                } else {
                    match r.verify_state {
                        Some(KeyboardState::Disabled) => {
                            effects.push(self.tooltip_effect());
                            None
                        },
                        Some(KeyboardState::Enabled) => {
                            self.enable_via_worker(AfterEnable::VerifyMismatch, &mut effects)
                        },
                        None => self.enable_via_worker(AfterEnable::VerifyError, &mut effects),
                    }
                }
            },
            Event::Suspend { now_ms } => {
                self.enter_resume_gate(now_ms, &mut effects);
                None
            },
            Event::LidClosed { now_ms } => {
                self.enter_resume_gate(now_ms, &mut effects);
                None
            },
            Event::DisplayOff { now_ms } => {
                self.enter_resume_gate(now_ms, &mut effects);
                None
            },
            Event::SessionLock { now_ms } => {
                self.enter_resume_gate(now_ms, &mut effects);
                None
            },
            Event::ResumeAutomatic { now_ms } => {
                self.resume_pending = true;
                self.resume_timestamp = Some(now_ms);
                self.enable_via_worker(AfterEnable::Nothing, &mut effects)
            },
            Event::SessionUnlock => {
                if self.resume_pending {
                    self.resume_pending = false;
                    self.resume_timestamp = None;
                    self.apply_policy(false, &mut effects)
                } else {
                    None
                }
            },
            Event::SanityTimer { now_ms, worker_finished } => {
                self.sanity_timer(now_ms, worker_finished, &mut effects)
            },
            Event::InitialPolicyTimer => {
                effects.push(Effect::KillInitialPolicyTimer);
                self.initial_policy_pending = false;
                self.apply_policy(true, &mut effects)
            },
            Event::ThemeChanged { light } => {
                if light != self.current_theme_light {
                    self.current_theme_light = light;
                    effects.push(Effect::SwapTrayIcon(light));
                }
                None
            },
        };
        Step { effects, query }
    }

    fn on_nuphy(&mut self, then_tooltip: bool, connected: bool, effects: &mut Vec<Effect>) -> (q:
        Option<Query>)
        requires
            counters_fit(*old(self)),
        ensures
            ({
                let t = on_nuphy(*old(self), then_tooltip, connected);
                *final(self) == t.0 && final(effects)@ == old(effects)@ + t.1 && q == t.2
            }),
    {
        if !connected {
            self.pending = Pending::Idle;
            self.enable_via_worker(AfterEnable::PolicyReturn { then_tooltip }, effects)
        } else {
            self.pending = Pending::AwaitResolve { then_tooltip };
            assert(effects@ =~= old(effects)@ + Seq::<Effect>::empty());
            Some(Query::ResolveTarget)
        }
    }

    fn on_resolved(&mut self, then_tooltip: bool, res: ResolveResult, effects: &mut Vec<Effect>) -> (q:
        Option<Query>)
        requires
            counters_fit(*old(self)),
        ensures
            ({
                let t = on_resolved(*old(self), then_tooltip, res);
                *final(self) == t.0 && final(effects)@ == old(effects)@ + t.1 && q == t.2
            }),
    {
        match res {
            ResolveResult::Matched(target) => {
                self.cached_target = Some(target);
                self.op_id = self.op_id + 1;
                self.current_generation = self.current_generation + 1;
                self.pending = Pending::Idle;
                effects.push(Effect::PublishShutdownTarget);
                if self.worker_dead {
                    self.push_inline_enable(effects);
                    let q = self.policy_end(then_tooltip, effects);
                    assert(effects@ =~= old(effects)@ + on_resolved(*old(self), then_tooltip, res).1);
                    q
                } else {
                    self.pending = Pending::AwaitDisableSent { then_tooltip };
                    Some(Query::SendDisable { op_id: self.op_id })
                }
            },
            other => {
                effects.push(Effect::ReportResolveFailure(other));
                self.pending = Pending::Idle;
                let q = self.enable_via_worker(AfterEnable::PolicyReturn { then_tooltip }, effects);
                assert(effects@ =~= old(effects)@ + on_resolved(*old(self), then_tooltip, res).1);
                q
            },
        }
    }

    fn on_disable_sent(&mut self, then_tooltip: bool, ok: bool, effects: &mut Vec<Effect>) -> (q:
        Option<Query>)
        ensures
            ({
                let t = on_disable_sent(*old(self), then_tooltip, ok);
                *final(self) == t.0 && final(effects)@ == old(effects)@ + t.1 && q == t.2
            }),
    {
        if ok {
            self.policy_end(then_tooltip, effects)
        } else {
            self.worker_dead = true;
            self.desired_active = false;
            effects.push(Effect::SetActiveCheck(false));
            self.push_inline_enable(effects);
            effects.push(Effect::Notify(Notice::WorkerCrashed));
            let q = self.policy_end(then_tooltip, effects);
            assert(effects@ =~= old(effects)@ + on_disable_sent(*old(self), then_tooltip, ok).1);
            q
        }
    }

    fn on_enable_sent(&mut self, after: AfterEnable, ok: bool, effects: &mut Vec<Effect>) -> (q:
        Option<Query>)
        requires
            counters_fit(*old(self)),
        ensures
            ({
                let t = on_enable_sent(*old(self), after, ok);
                *final(self) == t.0 && final(effects)@ == old(effects)@ + t.1 && q == t.2
            }),
    {
        if ok {
            self.finish_enable(after, effects)
        } else {
            self.worker_dead = true;
            self.push_inline_enable(effects);
            let q = self.finish_enable(after, effects);
            assert(effects@ =~= old(effects)@ + on_enable_sent(*old(self), after, ok).1);
            q
        }
    }

    fn on_session(&mut self, active: bool, effects: &mut Vec<Effect>) -> (q: Option<Query>)
        requires
            counters_fit(*old(self)),
        ensures
            ({
                let t = on_session(*old(self), active);
                *final(self) == t.0 && final(effects)@ == old(effects)@ + t.1 && q == t.2
            }),
    {
        self.pending = Pending::Idle;
        if active {
            self.apply_policy(false, effects)
        } else {
            assert(effects@ =~= old(effects)@ + Seq::<Effect>::empty());
            None
        }
    }

    /// Go on with the answer to the pending question; see `resume_spec`.
    pub fn resume(&mut self, reply: Reply) -> (step: Step)
        requires
            counters_fit(*old(self)),
        ensures
            ({
                let t = resume_spec(*old(self), reply);
                *final(self) == t.0 && step.effects@ == t.1 && step.query == t.2
            }),
    {
        let mut effects: Vec<Effect> = Vec::new();
        let query = match (self.pending, reply) {
            (Pending::AwaitNuphy { then_tooltip }, Reply::NuphyConnected(c)) => {
                self.on_nuphy(then_tooltip, c, &mut effects)
            },
            (Pending::AwaitResolve { then_tooltip }, Reply::Resolved(res)) => {
                self.on_resolved(then_tooltip, res, &mut effects)
            },
            (Pending::AwaitDisableSent { then_tooltip }, Reply::Sent(ok)) => {
                self.on_disable_sent(then_tooltip, ok, &mut effects)
            },
            (Pending::AwaitEnableSent { after }, Reply::Sent(ok)) => {
                self.on_enable_sent(after, ok, &mut effects)
            },
            (Pending::AwaitSessionActive, Reply::SessionActive(a)) => {
                self.on_session(a, &mut effects)
            },
            _ => self.query_for_pending(),
        };
        assert(effects@ =~= resume_spec(*old(self), reply).1);
        Step { effects, query }
    }
}

} // verus!
