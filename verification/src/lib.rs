//! A device presence monitor: decides, from the names of the currently
//! connected Bluetooth Low Energy devices, whether a watched peripheral is
//! present, and maps that state to an indicator update and a state-dependent
//! poll interval.
//!
//! The OS enumeration call, the tray shell and the sleeps live outside this
//! crate; the decisions they are driven by are verified here.

pub mod enumeration;
pub mod indicator;
pub mod monitor;
pub mod presence;
