use vstd::prelude::*;

pub mod text;
pub mod wide;
pub mod task_xml;
pub mod autostart;
pub mod boot_task;
pub mod device;
pub mod policy;
pub mod policy_laws;
pub mod ble;
pub mod theme;
pub mod messages;
pub mod worker;
pub mod recovery;
pub mod tray;
pub mod admin;
pub mod scheduler;
pub mod startup;

verus! {

} // verus!
