//! Verified core of the MV7 mute toolkit: the HID text protocol spoken with a
//! Shure MV7, the unlock / act / re-lock session that every invocation runs,
//! and the pure decisions of the tray front end.
pub mod command;
pub mod icon;
pub mod laws;
pub mod merge;
pub mod protocol;
pub mod report;
pub mod session;
pub mod startup;
pub mod text;
pub mod tray;

pub use command::{Command, DeviceState};
pub use merge::{merge_results, merge_value_results};
pub use session::{
    query_state, run, toggle_lock_state, toggle_mute_state, Action, Event, Operation, Report,
    Session,
};
