//! Re-enabling the internal keyboard outside the worker: the `--recover`
//! command, the enable on Quit (with retries) and the plain inline enable;
//! and the cleanup that runs when the process ends.
//!
//! Each procedure is a run of steps. The caller performs the step the run
//! asks for (resolve the target, enable it, wait half a second and enable
//! it, read its state) and reports the outcome, until the run stops.

use vstd::prelude::*;
use crate::device::KeyboardState;

verus! {

/// Pause before each retried enable.
pub const RETRY_PAUSE_MS: u64 = 500;

/// Which enable procedure runs.
#[derive(Debug, Clone, Copy, PartialEq, Eq, Structural)]
pub enum Procedure {
    /// `--recover`: enable with one retry, verify, and on a still-disabled
    /// keyboard enable and verify once more; its end is the exit code.
    Recover,
    /// Quit: like `Recover`, but only when elevated, and a failed last
    /// enable still gets its verify.
    QuitWithRetry,
    /// Suspend, lock, worker loss: when elevated, one enable and one verify.
    Inline,
}

/// Where a run stands.
#[derive(Debug, Clone, Copy, PartialEq, Eq, Structural)]
pub enum Stage {
    Start,
    Resolving,
    Enabling,
    Reenabling,
    Verifying,
    RetryEnabling,
    Reverifying,
    Done,
}

/// The outcome of the step last asked for.
#[derive(Debug, Clone, Copy, PartialEq, Eq, Structural)]
pub enum Report {
    /// Nothing yet: the run starts.
    Begin,
    /// The resolve found the single target (`true`) or not.
    Resolved(bool),
    /// The enable succeeded (`true`) or failed.
    Enabled(bool),
    /// The state read back; `None` if reading it failed.
    Read(Option<KeyboardState>),
}

/// How a run ended.
#[derive(Debug, Clone, Copy, PartialEq, Eq, Structural)]
pub enum Finish {
    /// Not elevated: nothing was tried.
    Skipped,
    /// No single target was found; the resolve result is to be logged.
    ResolveFailed,
    /// The keyboard could not be shown enabled.
    Failed,
    /// The keyboard read back enabled.
    Succeeded,
}

/// The step a run asks for.
#[derive(Debug, Clone, Copy, PartialEq, Eq, Structural)]
pub enum Next {
    /// Resolve the target.
    Resolve,
    /// Enable the target.
    Enable,
    /// Wait `RETRY_PAUSE_MS`, then enable the target.
    PauseThenEnable,
    /// Read the target's state.
    Verify,
    /// Stop.
    Stop(Finish),
}

/// A run of one enable procedure.
#[derive(Debug, Clone, Copy, PartialEq, Eq, Structural)]
pub struct EnableRun {
    pub procedure: Procedure,
    pub elevated: bool,
    pub stage: Stage,
}

/// Position of a stage in a run; every step moves forward.
pub open spec fn stage_rank(s: Stage) -> int {
    match s {
        Stage::Start => 0,
        Stage::Resolving => 1,
        Stage::Enabling => 2,
        Stage::Reenabling => 3,
        Stage::Verifying => 4,
        Stage::RetryEnabling => 5,
        Stage::Reverifying => 6,
        Stage::Done => 7,
    }
}

/// The end of a run.
pub open spec fn stop(f: Finish) -> (Stage, Next) {
    (Stage::Done, Next::Stop(f))
}

/// The next stage and step of procedure `p` (run elevated or not) at stage
/// `s` on report `r`. A report that does not answer the last step asked for
/// ends the run as failed.
pub open spec fn next_of(p: Procedure, elevated: bool, s: Stage, r: Report) -> (Stage, Next) {
    match (s, r) {
        (Stage::Start, Report::Begin) => if p == Procedure::Recover || elevated {
            (Stage::Resolving, Next::Resolve)
        } else {
            stop(Finish::Skipped)
        },
        (Stage::Resolving, Report::Resolved(found)) => if found {
            (Stage::Enabling, Next::Enable)
        } else {
            stop(Finish::ResolveFailed)
        },
        (Stage::Enabling, Report::Enabled(ok)) => if ok || p == Procedure::Inline {
            (Stage::Verifying, Next::Verify)
        } else {
            (Stage::Reenabling, Next::PauseThenEnable)
        },
        (Stage::Reenabling, Report::Enabled(ok)) => if ok {
            (Stage::Verifying, Next::Verify)
        } else {
            stop(Finish::Failed)
        },
        (Stage::Verifying, Report::Read(state)) => match state {
            Some(KeyboardState::Enabled) => stop(Finish::Succeeded),
            Some(KeyboardState::Disabled) => if p == Procedure::Inline {
                stop(Finish::Failed)
            } else {
                (Stage::RetryEnabling, Next::PauseThenEnable)
            },
            None => stop(Finish::Failed),
        },
        (Stage::RetryEnabling, Report::Enabled(ok)) => if ok || p == Procedure::QuitWithRetry {
            (Stage::Reverifying, Next::Verify)
        } else {
            stop(Finish::Failed)
        },
        (Stage::Reverifying, Report::Read(state)) => if state == Some(KeyboardState::Enabled) {
            stop(Finish::Succeeded)
        } else {
            stop(Finish::Failed)
        },
        _ => stop(Finish::Failed),
    }
}

impl EnableRun {
    /// A run of procedure `procedure` that has not started.
    pub fn new(procedure: Procedure, elevated: bool) -> (r: EnableRun)
        ensures
            r == (EnableRun { procedure, elevated, stage: Stage::Start }),
    {
        EnableRun { procedure, elevated, stage: Stage::Start }
    }

    /// Take the outcome of the last step and give the next one. The run
    /// only moves forward, so it stops after at most seven steps; it
    /// succeeds only on a read of `Enabled`, and the inline procedure never
    /// retries.
    pub fn step(&mut self, report: Report) -> (next: Next)
        ensures
            (final(self).stage, next) == next_of(
                old(self).procedure,
                old(self).elevated,
                old(self).stage,
                report,
            ),
            final(self).procedure == old(self).procedure,
            final(self).elevated == old(self).elevated,
            next is Stop <==> final(self).stage == Stage::Done,
            stage_rank(final(self).stage) > stage_rank(old(self).stage) || old(self).stage
                == Stage::Done,
            next == Next::Stop(Finish::Succeeded) ==> report == Report::Read(
                Some(KeyboardState::Enabled),
            ),
            old(self).procedure == Procedure::Inline ==> next != Next::PauseThenEnable,
    {
        let p = self.procedure;
        let (stage, next) = match (self.stage, report) {
            (Stage::Start, Report::Begin) => {
                if p == Procedure::Recover || self.elevated {
                    (Stage::Resolving, Next::Resolve)
                } else {
                    (Stage::Done, Next::Stop(Finish::Skipped))
                }
            },
            (Stage::Resolving, Report::Resolved(found)) => {
                if found {
                    (Stage::Enabling, Next::Enable)
                } else {
                    (Stage::Done, Next::Stop(Finish::ResolveFailed))
                }
            },
            (Stage::Enabling, Report::Enabled(ok)) => {
                if ok || p == Procedure::Inline {
                    (Stage::Verifying, Next::Verify)
                } else {
                    (Stage::Reenabling, Next::PauseThenEnable)
                }
            },
            (Stage::Reenabling, Report::Enabled(ok)) => {
                if ok {
                    (Stage::Verifying, Next::Verify)
                } else {
                    (Stage::Done, Next::Stop(Finish::Failed))
                }
            },
            (Stage::Verifying, Report::Read(state)) => match state {
                Some(KeyboardState::Enabled) => (Stage::Done, Next::Stop(Finish::Succeeded)),
                Some(KeyboardState::Disabled) => {
                    if p == Procedure::Inline {
                        (Stage::Done, Next::Stop(Finish::Failed))
                    } else {
                        (Stage::RetryEnabling, Next::PauseThenEnable)
                    }
                },
                None => (Stage::Done, Next::Stop(Finish::Failed)),
            },
            (Stage::RetryEnabling, Report::Enabled(ok)) => {
                if ok || p == Procedure::QuitWithRetry {
                    (Stage::Reverifying, Next::Verify)
                } else {
                    (Stage::Done, Next::Stop(Finish::Failed))
                }
            },
            (Stage::Reverifying, Report::Read(state)) => match state {
                Some(KeyboardState::Enabled) => (Stage::Done, Next::Stop(Finish::Succeeded)),
                _ => (Stage::Done, Next::Stop(Finish::Failed)),
            },
            _ => (Stage::Done, Next::Stop(Finish::Failed)),
        };
        self.stage = stage;
        next
    }
}

/// The exit code of `--recover`: 0 only when the keyboard read back enabled.
pub fn recover_exit_code(f: Finish) -> (code: i32)
    ensures
        code == (if f == Finish::Succeeded {
            0i32
        } else {
            1i32
        }),
{
    match f {
        Finish::Succeeded => 0,
        _ => 1,
    }
}

// ---------------------------------------------------------------------------
// Shutdown cleanup
// ---------------------------------------------------------------------------

/// What the shutdown cleanup does first.
#[derive(Debug, Clone, Copy, PartialEq, Eq, Structural)]
pub enum CleanupStart {
    /// It already ran: nothing.
    AlreadyDone,
    /// No target was ever cached (or it cannot be read): nothing was
    /// disabled, so the running lock is deleted.
    DeleteLock,
    /// Re-enable the cached target first.
    Reenable,
}

/// The first move of the shutdown cleanup, which runs at most once per
/// process: `already_done` is the previous value of its once-flag,
/// `target_known` whether a cached target could be read.
pub open spec fn cleanup_start_of(already_done: bool, target_known: bool) -> CleanupStart {
    if already_done {
        CleanupStart::AlreadyDone
    } else if target_known {
        CleanupStart::Reenable
    } else {
        CleanupStart::DeleteLock
    }
}

/// The first move of the shutdown cleanup.
pub fn cleanup_start(already_done: bool, target_known: bool) -> (c: CleanupStart)
    ensures
        c == cleanup_start_of(already_done, target_known),
{
    if already_done {
        CleanupStart::AlreadyDone
    } else if target_known {
        CleanupStart::Reenable
    } else {
        CleanupStart::DeleteLock
    }
}

/// Whether the running lock is deleted after the cleanup's re-enable: only
/// a confirmed re-enable marks the exit as clean; otherwise the lock stays
/// and the next launch sees the crash.
pub fn delete_lock_after_reenable(reenabled: bool) -> (delete: bool)
    ensures
        delete == reenabled,
{
    reenabled
}

/// Whether a cleanup deletes the running lock, from its once-flag, whether
/// a target was cached, and whether its re-enable succeeded.
pub open spec fn cleanup_deletes_lock(already_done: bool, target_known: bool, reenabled: bool) -> bool {
    match cleanup_start_of(already_done, target_known) {
        CleanupStart::AlreadyDone => false,
        CleanupStart::DeleteLock => true,
        CleanupStart::Reenable => reenabled,
    }
}

/// The running lock goes away only when nothing can be left disabled: the
/// cleanup re-enabled the cached target, or no target was ever cached. A
/// second cleanup in the same process does nothing.
pub proof fn lemma_lock_kept_unless_safe(already_done: bool, target_known: bool, reenabled: bool)
    ensures
        cleanup_deletes_lock(already_done, target_known, reenabled) ==> !target_known
            || reenabled,
        already_done ==> !cleanup_deletes_lock(already_done, target_known, reenabled),
{
}

} // verus!
