//! What every step of the decision core keeps, and how the safety rules of
//! the application follow from its transitions.

use vstd::prelude::*;
use crate::device::{KeyboardState, ResolveResult};
use crate::policy::{
    counters_fit, elapsed, handle_spec, inline_enable, resume_spec, Controller,
    DisableResult, Effect, Event, Pending, Query, Reply, RESUME_TIMEOUT_MS,
};

verus! {

/// While the controller waits on a step of a policy application that can
/// still end in a disable, the policy is active; while the worker is dead,
/// nothing waits on a send to it.
pub open spec fn controller_inv(s: Controller) -> bool {
    &&& (s.pending matches Pending::AwaitNuphy { .. } ==> s.desired_active)
    &&& (s.pending matches Pending::AwaitResolve { .. } ==> s.desired_active)
    &&& (s.pending matches Pending::AwaitDisableSent { .. } ==> s.desired_active
        && !s.worker_dead)
    &&& (s.pending matches Pending::AwaitEnableSent { .. } ==> !s.worker_dead)
}

/// The transition enables the keyboard: through the worker when it lives,
/// inline (when elevated) when it is dead.
pub open spec fn enables(s: Controller, t: (Controller, Seq<Effect>, Option<Query>)) -> bool {
    if s.worker_dead {
        t.2 is None && (s.is_elevated ==> t.1.contains(Effect::InlineEnable))
    } else {
        t.2 == Some(Query::SendEnable { op_id: (s.op_id + 1) as u64 })
    }
}

/// A controller at start-up satisfies the invariant.
pub proof fn lemma_new_controller_inv(s: Controller)
    requires
        s.pending == Pending::Idle,
    ensures
        controller_inv(s),
{
}

/// Every event keeps the invariant.
pub proof fn lemma_handle_keeps_inv(s: Controller, e: Event)
    requires
        controller_inv(s),
    ensures
        controller_inv(handle_spec(s, e).0),
{
}

/// Every answer keeps the invariant.
pub proof fn lemma_resume_keeps_inv(s: Controller, r: Reply)
    requires
        controller_inv(s),
    ensures
        controller_inv(resume_spec(s, r).0),
{
}

/// No event turns the counters back.
pub proof fn lemma_handle_counters_monotonic(s: Controller, e: Event)
    requires
        counters_fit(s),
    ensures
        handle_spec(s, e).0.op_id >= s.op_id,
        handle_spec(s, e).0.current_generation >= s.current_generation,
{
}

/// No answer turns the counters back.
pub proof fn lemma_resume_counters_monotonic(s: Controller, r: Reply)
    requires
        counters_fit(s),
    ensures
        resume_spec(s, r).0.op_id >= s.op_id,
        resume_spec(s, r).0.current_generation >= s.current_generation,
{
}

/// A worker result older than the current generation changes nothing and
/// causes nothing.
pub proof fn lemma_stale_result_ignored(s: Controller, r: DisableResult)
    requires
        s.pending == Pending::Idle,
        r.op_id < s.current_generation,
    ensures
        handle_spec(s, Event::WorkerResult(r)) == (s, Seq::<Effect>::empty(), None::<Query>),
{
}

/// No event requests a disable: only the answer to a resolve does, unless
/// the disable was already pending and is asked for again.
pub proof fn lemma_events_never_request_disable(s: Controller, e: Event)
    ensures
        handle_spec(s, e).2 matches Some(Query::SendDisable { .. }) ==> s.pending
            matches Pending::AwaitDisableSent { .. },
{
}

/// A disable is requested only for the single match of a fresh resolve,
/// while the policy is active and the worker alive; the target is cached for
/// the shutdown cleanup and the disable carries a fresh operation id and
/// generation.
pub proof fn lemma_disable_only_for_single_match(s: Controller, r: Reply)
    requires
        controller_inv(s),
        counters_fit(s),
        !(s.pending matches Pending::AwaitDisableSent { .. }),
    ensures
        resume_spec(s, r).2 matches Some(Query::SendDisable { op_id }) ==> {
            &&& s.pending matches Pending::AwaitResolve { .. }
            &&& s.desired_active
            &&& !s.worker_dead
            &&& r matches Reply::Resolved(ResolveResult::Matched(t))
            &&& resume_spec(s, r).0.cached_target == Some(t)
            &&& op_id == s.op_id + 1
            &&& op_id == resume_spec(s, r).0.op_id
            &&& resume_spec(s, r).0.current_generation == s.current_generation + 1
        },
{
}

/// A resolve is only asked for after the keyboard was reported connected.
pub proof fn lemma_resolve_only_when_connected(s: Controller, e: Event, r: Reply)
    ensures
        handle_spec(s, e).0.pending matches Pending::AwaitResolve { .. } ==> s.pending
            matches Pending::AwaitResolve { .. },
        resume_spec(s, r).0.pending matches Pending::AwaitResolve { .. } ==> (s.pending
            matches Pending::AwaitResolve { .. } || (s.pending matches Pending::AwaitNuphy { .. }
            && r == Reply::NuphyConnected(true))),
{
}

/// Once the worker is dead it stays dead, and no event sends it anything.
pub proof fn lemma_worker_dead_lockdown_events(s: Controller, e: Event)
    requires
        controller_inv(s),
        s.worker_dead,
    ensures
        handle_spec(s, e).0.worker_dead,
        !(handle_spec(s, e).2 matches Some(Query::SendDisable { .. })),
        !(handle_spec(s, e).2 matches Some(Query::SendEnable { .. })),
{
}

/// Once the worker is dead it stays dead, and no answer sends it anything.
pub proof fn lemma_worker_dead_lockdown_answers(s: Controller, r: Reply)
    requires
        controller_inv(s),
        s.worker_dead,
    ensures
        resume_spec(s, r).0.worker_dead,
        !(resume_spec(s, r).2 matches Some(Query::SendDisable { .. })),
        !(resume_spec(s, r).2 matches Some(Query::SendEnable { .. })),
{
}

/// An inactive policy, applied on a connection change, enables.
pub proof fn lemma_inactive_policy_enables(s: Controller)
    requires
        s.pending == Pending::Idle,
        !s.desired_active,
    ensures
        enables(s, handle_spec(s, Event::BleConnectionChanged)),
{
    let t = handle_spec(s, Event::BleConnectionChanged);
    if s.worker_dead && s.is_elevated {
        assert(t.1[if s.initial_policy_pending { 1int } else { 0int }] == Effect::InlineEnable);
    }
}

/// A keyboard reported disconnected makes the policy enable.
pub proof fn lemma_disconnected_enables(s: Controller, then_tooltip: bool)
    requires
        s.pending == (Pending::AwaitNuphy { then_tooltip }),
    ensures
        enables(s, resume_spec(s, Reply::NuphyConnected(false))),
{
    let t = resume_spec(s, Reply::NuphyConnected(false));
    if s.worker_dead && s.is_elevated {
        assert(t.1[0] == Effect::InlineEnable);
    }
}

/// A resolve without a single match makes the policy enable (fail closed).
pub proof fn lemma_unresolved_enables(s: Controller, then_tooltip: bool, res: ResolveResult)
    requires
        s.pending == (Pending::AwaitResolve { then_tooltip }),
        !(res matches ResolveResult::Matched(_)),
    ensures
        enables(s, resume_spec(s, Reply::Resolved(res))),
{
    let t = resume_spec(s, Reply::Resolved(res));
    if s.worker_dead && s.is_elevated {
        assert(t.1[1] == Effect::InlineEnable);
    }
}

/// Suspend, lid close, display off and lock enable inline at once and gate
/// the policy until an unlock.
pub proof fn lemma_sleep_events_enable(s: Controller, now: u64)
    requires
        s.pending == Pending::Idle,
    ensures
        ({
            let t = handle_spec(s, Event::Suspend { now_ms: now });
            t.0.resume_pending && t.0.resume_timestamp == Some(now) && t.1 == inline_enable(s)
                && t.2 is None
        }),
        ({
            let t = handle_spec(s, Event::LidClosed { now_ms: now });
            t.0.resume_pending && t.0.resume_timestamp == Some(now) && t.1 == inline_enable(s)
                && t.2 is None
        }),
        ({
            let t = handle_spec(s, Event::DisplayOff { now_ms: now });
            t.0.resume_pending && t.0.resume_timestamp == Some(now) && t.1 == inline_enable(s)
                && t.2 is None
        }),
        ({
            let t = handle_spec(s, Event::SessionLock { now_ms: now });
            t.0.resume_pending && t.0.resume_timestamp == Some(now) && t.1 == inline_enable(s)
                && t.2 is None
        }),
{
}

/// A wake enables and gates the policy instead of applying it.
pub proof fn lemma_resume_enables_without_policy(s: Controller, now: u64)
    requires
        s.pending == Pending::Idle,
    ensures
        handle_spec(s, Event::ResumeAutomatic { now_ms: now }).0.resume_pending,
        enables(s, handle_spec(s, Event::ResumeAutomatic { now_ms: now })),
{
    let t = handle_spec(s, Event::ResumeAutomatic { now_ms: now });
    if s.worker_dead && s.is_elevated {
        assert(t.1[0] == Effect::InlineEnable);
    }
}

/// While the policy is held after a wake and the hold has not expired, the sanity timer
/// does not apply the policy.
pub proof fn lemma_gate_holds_policy(s: Controller, now: u64, ts: u64, worker_finished: bool)
    requires
        s.pending == Pending::Idle,
        s.resume_pending,
        s.resume_timestamp == Some(ts),
        elapsed(now, ts) <= RESUME_TIMEOUT_MS,
    ensures
        handle_spec(s, Event::SanityTimer { now_ms: now, worker_finished }).2 is None,
        handle_spec(s, Event::SanityTimer { now_ms: now, worker_finished }).0.resume_pending,
{
}

/// An unlock after a gate lifts it and applies the policy again.
pub proof fn lemma_unlock_reapplies_policy(s: Controller)
    requires
        s.pending == Pending::Idle,
        s.resume_pending,
    ensures
        !handle_spec(s, Event::SessionUnlock).0.resume_pending,
        s.desired_active ==> handle_spec(s, Event::SessionUnlock).2 == Some(Query::NuphyConnected),
        !s.desired_active ==> enables(s, handle_spec(s, Event::SessionUnlock)),
{
    let t = handle_spec(s, Event::SessionUnlock);
    if !s.desired_active && s.worker_dead && s.is_elevated {
        assert(t.1[0] == Effect::InlineEnable);
    }
}

/// A disable that did not take turns the policy off, whether the enable that
/// follows goes through the worker or inline.
pub proof fn lemma_verify_mismatch_deactivates(s: Controller, r: DisableResult, ok: bool)
    requires
        s.pending == Pending::Idle,
        controller_inv(s),
        counters_fit(s),
        r.op_id >= s.current_generation,
        r.verify_state == Some(KeyboardState::Enabled),
    ensures
        ({
            let t = handle_spec(s, Event::WorkerResult(r));
            &&& enables(s, t)
            &&& t.2 is None ==> !t.0.desired_active
            &&& t.2 is Some ==> !resume_spec(t.0, Reply::Sent(ok)).0.desired_active
        }),
{
    let t = handle_spec(s, Event::WorkerResult(r));
    if s.worker_dead && s.is_elevated {
        assert(t.1[0] == Effect::InlineEnable);
    }
}

/// Toggling Active flips the policy and starts a new generation.
pub proof fn lemma_toggle_flips_policy(s: Controller)
    requires
        s.pending == Pending::Idle,
        counters_fit(s),
    ensures
        handle_spec(s, Event::TrayActiveToggled).0.desired_active == !s.desired_active,
        handle_spec(s, Event::TrayActiveToggled).0.current_generation == s.current_generation + 1,
{
}

/// Quit turns the policy off and always runs the shutdown cleanup before
/// leaving the loop.
pub proof fn lemma_quit_recovers(s: Controller)
    requires
        s.pending == Pending::Idle,
    ensures
        ({
            let t = handle_spec(s, Event::TrayQuit);
            &&& !t.0.desired_active
            &&& t.1.contains(Effect::ShutdownCleanup)
            &&& t.1.last() == Effect::PostQuit
            &&& t.2 is None
            &&& (s.cached_target is None && s.is_elevated) ==> t.1.contains(
                Effect::InlineEnableWithRetry,
            )
        }),
{
    let t = handle_spec(s, Event::TrayQuit);
    assert(t.1[2] == Effect::ShutdownCleanup);
    if s.cached_target is None && s.is_elevated {
        assert(t.1[3] == Effect::InlineEnableWithRetry);
    }
}

/// Switching Active off from the tray re-enables the keyboard (through the
/// worker, or inline once it is dead); switching it on applies the policy,
/// starting with a fresh read of the keyboard's connection.
pub proof fn lemma_toggle_off_enables_on_applies(s: Controller)
    requires
        s.pending == Pending::Idle,
        counters_fit(s),
    ensures
        ({
            let t = handle_spec(s, Event::TrayActiveToggled);
            &&& s.desired_active ==> !t.0.desired_active && enables(s, t)
            &&& !s.desired_active ==> t.0.desired_active && t.2 == Some(Query::NuphyConnected)
                && t.0.pending == (Pending::AwaitNuphy { then_tooltip: false })
        }),
{
    let t = handle_spec(s, Event::TrayActiveToggled);
    if s.desired_active && s.worker_dead && s.is_elevated {
        let k: int = if s.initial_policy_pending {
            3
        } else {
            2
        };
        assert(t.1[k] == Effect::InlineEnable);
    }
}

/// A fresh worker report that the disable took and the keyboard reads back
/// disabled keeps the keyboard disabled: the state stays as it is, nothing
/// is enabled, no question follows; only the tooltip is refreshed.
pub proof fn lemma_verified_disable_is_kept(s: Controller, r: DisableResult)
    requires
        s.pending == Pending::Idle,
        r.op_id >= s.current_generation,
        r.verify_state == Some(KeyboardState::Disabled),
    ensures
        ({
            let t = handle_spec(s, Event::WorkerResult(r));
            &&& t.0 == s
            &&& t.2 is None
            &&& t.1 == seq![
                Effect::UpdateTooltip {
                    active: s.desired_active,
                    arming: s.initial_policy_pending,
                },
            ]
            &&& !t.1.contains(Effect::InlineEnable)
        }),
{
    let t = handle_spec(s, Event::WorkerResult(r));
    assert(t.1[0] != Effect::InlineEnable);
}

/// The sanity timer's question answered: an active session applies the
/// policy again (a fresh connection read when Active is on, an enable when
/// it is off); an inactive one does nothing further.
pub proof fn lemma_active_session_reapplies_policy(s: Controller)
    requires
        s.pending == Pending::AwaitSessionActive,
    ensures
        ({
            let t = resume_spec(s, Reply::SessionActive(true));
            &&& s.desired_active ==> t.2 == Some(Query::NuphyConnected) && t.0.pending == (
            Pending::AwaitNuphy { then_tooltip: false })
            &&& !s.desired_active ==> enables(s, t)
        }),
        ({
            let t = resume_spec(s, Reply::SessionActive(false));
            &&& t.2 is None
            &&& t.1.len() == 0
            &&& t.0.pending == Pending::Idle
            &&& t.0.desired_active == s.desired_active
        }),
{
    let t = resume_spec(s, Reply::SessionActive(true));
    if !s.desired_active && s.worker_dead && s.is_elevated {
        assert(t.1[0] == Effect::InlineEnable);
    }
}

} // verus!
