//! Firmware core of a battery-powered seven-segment clock: a monotonic time
//! base, a cooperative task scheduler, a NiMH charger state machine and a
//! display multiplexer, together with the seven-segment character codec they
//! render through.

pub mod common;
pub mod task;
pub mod scheduler;
pub mod state;
pub mod action;
pub mod charger;
pub mod char7dp;
pub mod char7dp_seq;
pub mod disp;
pub mod display;
pub mod uptime;
