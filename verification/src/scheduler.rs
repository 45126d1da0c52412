//! What the Task Scheduler's answers mean for the autostart and boot
//! recovery tasks: COM initialisation, lookups and deletions.

use vstd::prelude::*;

verus! {

/// `S_OK`.
pub const S_OK: i32 = 0;
/// `S_FALSE`: COM was already initialised in this apartment.
pub const S_FALSE: i32 = 1;
/// `RPC_E_CHANGED_MODE` (`0x80010106`): COM was initialised in another apartment.
pub const RPC_E_CHANGED_MODE: i32 = -2147417850;
/// `HRESULT_FROM_WIN32(ERROR_FILE_NOT_FOUND)` (`0x80070002`): no such task.
pub const HRESULT_FILE_NOT_FOUND: i32 = -2147024894;

/// What `CoInitializeEx` returning `hr` means: `Ok(true)` when this call
/// initialised COM (`S_OK`) or added a reference (`S_FALSE`), either way
/// owing a `CoUninitialize`; `Ok(false)` when COM runs in another apartment
/// and must not be uninitialised here; the error otherwise.
pub open spec fn com_init_of(hr: i32) -> Result<bool, i32> {
    if hr == S_OK || hr == S_FALSE {
        Ok(true)
    } else if hr == RPC_E_CHANGED_MODE {
        Ok(false)
    } else {
        Err(hr)
    }
}

/// Whether a successful `CoInitializeEx` is to be balanced, or its error.
pub fn com_init(hr: i32) -> (r: Result<bool, i32>)
    ensures
        r == com_init_of(hr),
{
    if hr == S_OK || hr == S_FALSE {
        Ok(true)
    } else if hr == RPC_E_CHANGED_MODE {
        Ok(false)
    } else {
        Err(hr)
    }
}

/// Whether the logon task counts as enabled, from the lookup: `Ok(Some(e))`
/// when the task was found and its `Enabled` read as `e`, `Ok(None)` when it
/// was found but `Enabled` could not be read (assumed enabled), and
/// `Err(hr)` when the folder or the task could not be had.
pub fn task_enabled(lookup: Result<Option<bool>, i32>) -> (r: bool)
    ensures
        r == (match lookup {
            Ok(Some(e)) => e,
            Ok(None) => true,
            Err(_) => false,
        }),
{
    match lookup {
        Ok(Some(e)) => e,
        Ok(None) => true,
        Err(_) => false,
    }
}

/// Whether the boot task is installed, from the lookup: only a task that
/// was found is; any failure, missing task included, reads as not installed.
pub fn task_installed(lookup: Result<(), i32>) -> (r: bool)
    ensures
        r == (lookup is Ok),
{
    match lookup {
        Ok(()) => true,
        Err(_) => false,
    }
}

/// The outcome of deleting a task: `Ok(true)` when one was deleted,
/// `Ok(false)` when none was registered, else the error.
pub fn task_deleted(result: Result<(), i32>) -> (r: Result<bool, i32>)
    ensures
        r == (match result {
            Ok(()) => Ok(true),
            Err(hr) => if hr == HRESULT_FILE_NOT_FOUND {
                Ok(false)
            } else {
                Err(hr)
            },
        }),
{
    match result {
        Ok(()) => Ok(true),
        Err(hr) => if hr == HRESULT_FILE_NOT_FOUND {
            Ok(false)
        } else {
            Err(hr)
        },
    }
}

} // verus!
