//! The device worker: the commands it takes, what it does with each, and
//! the report it sends back after a disable.

use vstd::prelude::*;
use crate::device::{device_error_text, DeviceError, KeyboardState, ResolveResult, Target};
use crate::policy::DisableResult;
use crate::text::{chars_of, extend, string_of};

verus! {

broadcast use vstd::string::group_string_axioms;

/// A command from the message loop to the worker.
#[derive(Debug)]
pub enum Cmd {
    /// Enable the target (fire and forget).
    Enable { op_id: u64 },
    /// Disable `target`, then read its state back.
    Disable { target: Target, op_id: u64 },
    /// Stop the worker.
    Shutdown,
}

/// What the worker does next.
#[derive(Debug)]
pub enum WorkerAction {
    /// Resolve the target afresh and enable it.
    Enable { op_id: u64 },
    /// Disable this target and verify.
    DisableAndVerify { target: Target, op_id: u64 },
    /// Leave the loop.
    Exit,
}

/// The worker's next action for the command it received; `None` stands for
/// a closed channel, which ends the worker like `Shutdown`.
pub fn worker_action(cmd: Option<Cmd>) -> (a: WorkerAction)
    ensures
        match cmd {
            Some(Cmd::Enable { op_id }) => a == (WorkerAction::Enable { op_id }),
            Some(Cmd::Disable { target, op_id }) => a == (WorkerAction::DisableAndVerify {
                target,
                op_id,
            }),
            Some(Cmd::Shutdown) | None => a is Exit,
        },
{
    match cmd {
        Some(Cmd::Enable { op_id }) => WorkerAction::Enable { op_id },
        Some(Cmd::Disable { target, op_id }) => WorkerAction::DisableAndVerify { target, op_id },
        Some(Cmd::Shutdown) => WorkerAction::Exit,
        None => WorkerAction::Exit,
    }
}

/// The target an enable acts on: only a single match is enabled; otherwise
/// the enable is skipped.
pub fn enable_target(resolved: ResolveResult) -> (t: Option<Target>)
    ensures
        match resolved {
            ResolveResult::Matched(target) => t == Some(target),
            _ => t is None,
        },
{
    match resolved {
        ResolveResult::Matched(target) => Some(target),
        _ => None,
    }
}

/// The error text a disable report carries: the disable's error if it
/// failed, else the verify's error prefixed with `verify failed: `.
pub open spec fn report_error_text(
    disabled: Result<(), DeviceError>,
    verified: Result<KeyboardState, DeviceError>,
) -> Option<Seq<char>> {
    match disabled {
        Err(e) => Some(device_error_text(e)),
        Ok(()) => match verified {
            Ok(_) => None,
            Err(e) => Some("verify failed: "@ + device_error_text(e)),
        },
    }
}

/// The report of a disable-and-verify numbered `op_id`, and whether the
/// stuck modifiers are to be released (only after a disable that succeeded
/// and read back `Disabled`). A failed disable reports no state.
pub fn disable_report(
    op_id: u64,
    disabled: &Result<(), DeviceError>,
    verified: &Result<KeyboardState, DeviceError>,
) -> (r: (DisableResult, bool))
    ensures
        r.0.op_id == op_id,
        r.0.disable_ok == (*disabled is Ok),
        r.0.verify_state == (match (*disabled, *verified) {
            (Ok(()), Ok(s)) => Some(s),
            _ => None,
        }),
        match (r.0.err, report_error_text(*disabled, *verified)) {
            (Some(s), Some(t)) => s@ == t,
            (None, None) => true,
            _ => false,
        },
        r.1 == (*disabled is Ok && *verified == Ok::<KeyboardState, DeviceError>(
            KeyboardState::Disabled,
        )),
{
    match disabled {
        Err(e) => {
            let msg = e.message();
            (DisableResult { op_id, disable_ok: false, verify_state: None, err: Some(msg) }, false)
        },
        Ok(()) => match verified {
            Ok(s) => {
                let release = match s {
                    KeyboardState::Disabled => true,
                    KeyboardState::Enabled => false,
                };
                (DisableResult { op_id, disable_ok: true, verify_state: Some(*s), err: None }, release)
            },
            Err(e) => {
                let mut v = chars_of("verify failed: ");
                proof {
                    reveal_strlit("verify failed: ");
                }
                let m = e.message();
                let w = chars_of(m.as_str());
                extend(&mut v, &w);
                let text = string_of(&v);
                (
                    DisableResult { op_id, disable_ok: true, verify_state: None, err: Some(text) },
                    false,
                )
            },
        },
    }
}

// ---------------------------------------------------------------------------
// Stuck modifiers
// ---------------------------------------------------------------------------

/// Marker in `dwExtraInfo` of the key-ups this program injects ("STB").
pub const SYNTHETIC_SENTINEL: usize = 0x5357_5442;

/// `KEYEVENTF_KEYUP`.
pub const KEYEVENTF_KEYUP: u32 = 2;

/// One synthetic keyboard event.
#[derive(Debug, Clone, Copy, PartialEq, Eq, Structural)]
pub struct KeyUp {
    /// Virtual-key code.
    pub vk: u16,
    /// `KEYBDINPUT::dwFlags`.
    pub flags: u32,
    /// `KEYBDINPUT::dwExtraInfo`.
    pub extra_info: usize,
}

/// The eight modifiers a disable can leave held, in injection order:
/// left and right Shift, Ctrl, Alt, Windows.
pub open spec fn modifier_keys() -> Seq<u16> {
    seq![0xA0u16, 0xA1, 0xA2, 0xA3, 0xA4, 0xA5, 0x5B, 0x5C]
}

/// The key-up events that release every modifier: one per key of
/// `modifier_keys`, in that order, each tagged with the sentinel.
pub fn modifier_key_ups() -> (v: Vec<KeyUp>)
    ensures
        v.len() == 8,
        forall|i: int|
            0 <= i < 8 ==> (#[trigger] v@[i]).vk == modifier_keys()[i] && v@[i].flags
                == KEYEVENTF_KEYUP && v@[i].extra_info == SYNTHETIC_SENTINEL,
{
    let keys: [u16; 8] = [0xA0, 0xA1, 0xA2, 0xA3, 0xA4, 0xA5, 0x5B, 0x5C];
    assert(keys@ =~= modifier_keys());
    let mut v: Vec<KeyUp> = Vec::new();
    let mut i: usize = 0;
    while i < 8
        invariant
            i <= 8,
            keys@ == modifier_keys(),
            v.len() == i,
            forall|j: int|
                0 <= j < i ==> (#[trigger] v@[j]).vk == modifier_keys()[j] && v@[j].flags
                    == KEYEVENTF_KEYUP && v@[j].extra_info == SYNTHETIC_SENTINEL,
        decreases 8 - i,
    {
        v.push(KeyUp { vk: keys[i], flags: KEYEVENTF_KEYUP, extra_info: SYNTHETIC_SENTINEL });
        i += 1;
    }
    v
}

} // verus!
