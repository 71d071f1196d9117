//! The application state that all tasks share, one task at a time.
use vstd::prelude::*;
use crate::charger::BatteryState;

verus! {

/// Wall-clock time of day.
#[derive(PartialEq, Eq, Structural, Copy, Clone, Debug)]
pub struct RTC {
    pub hour: u8,
    pub minute: u8,
    pub second: u8,
}

impl Default for RTC {
    /// Midnight.
    fn default() -> (r: Self)
        ensures
            r == (RTC { hour: 0, minute: 0, second: 0 }),
    {
        RTC { hour: 0, minute: 0, second: 0 }
    }
}

/// What the sampling side last wrote and what the tasks derived from it.
#[derive(Copy, Clone, Debug)]
pub struct State {
    /// The time of day.
    pub rtc: RTC,
    /// Whether external power is present.
    pub ext_power: bool,
    /// The two cell voltages, in microvolts.
    pub bat_voltage: (u32, u32),
    /// The battery level that the charger derived.
    pub bat_level: BatteryState,
}

impl Default for State {
    /// Midnight, no external power, empty cells, level above nominal.
    fn default() -> (r: Self)
        ensures
            r == (State {
                rtc: RTC { hour: 0, minute: 0, second: 0 },
                ext_power: false,
                bat_voltage: (0, 0),
                bat_level: BatteryState::AboveNominal,
            }),
    {
        State {
            rtc: RTC::default(),
            ext_power: false,
            bat_voltage: (0, 0),
            bat_level: BatteryState::AboveNominal,
        }
    }
}

} // verus!
