//! The NiMH charger: a hysteresis state machine over two sampled cell
//! voltages and the presence of external power, ending a charge on a voltage
//! drop after the peak (negative delta-V) or on a saturated reading.
use vstd::prelude::*;
use crate::action::Action;
use crate::common::Duration;
use crate::state::State;
use crate::task::{NextRun, Task};

verus! {

/// Do not start charging where a cell is at or above this voltage (µV).
pub const NIMH_HIGH: u32 = 1_350_000;

/// End the charge where a cell falls this far below its peak, or further (µV).
pub const NIMH_NDV: i64 = -2_000;

/// The NiMH mid-point voltage (µV).
pub const NIMH_MPV: u32 = 1_250_000;

/// The NiMH end-of-discharge voltage (µV).
pub const NIMH_EODV: u32 = 900_000;

/// Where the two cells together read this much, the reading is saturated (µV).
pub const ADC_SATURATED: u64 = 2_990_000;

/// How long the charger waits between runs, in ticks.
pub const CHARGER_PERIOD: u64 = 5_000_000;

/// The command for the charging switch.
#[derive(PartialEq, Eq, Structural, Copy, Clone, Debug)]
pub enum ChargerAction {
    Hold,
    Charge,
}

/// The battery level shown to the user.
#[derive(PartialEq, Eq, Structural, Copy, Clone, Debug)]
pub enum BatteryState {
    /// Battery voltage is too low. Stop discharge.
    Critical,
    BelowNominal,
    AboveNominal,
    /// Charging is in progress.
    Charging,
    /// Charging has been completed.
    Charged,
}

/// The charger's mode.
#[derive(PartialEq, Eq, Structural, Copy, Clone, Debug)]
pub enum ChargerState {
    /// Not charging.
    Hold,
    /// Charging.
    Charge,
    /// The charge is complete; watching for the cells to sag.
    Charged,
}

/// The level of a pair of cell voltages: above nominal where both are at or
/// above the mid-point voltage, else below nominal where both are at or above
/// the end-of-discharge voltage, else critical.
pub open spec fn bat_level_of(v: (u32, u32)) -> BatteryState {
    if v.0 >= NIMH_MPV && v.1 >= NIMH_MPV {
        BatteryState::AboveNominal
    } else if v.0 >= NIMH_EODV && v.1 >= NIMH_EODV {
        BatteryState::BelowNominal
    } else {
        BatteryState::Critical
    }
}

/// Whether a cell has fallen to `NIMH_NDV` or more below its peak.
pub open spec fn dropped(v: u32, peak: u32) -> bool {
    v as int - peak as int <= NIMH_NDV as int
}

/// The mode after one run in `mode`, with `peak` the voltages the charger
/// kept, on the sampled state `s`.
pub open spec fn next_mode(mode: ChargerState, peak: (u32, u32), s: State) -> ChargerState {
    let v = s.bat_voltage;
    match mode {
        ChargerState::Hold => if s.ext_power && v.0 < NIMH_HIGH && v.1 < NIMH_HIGH {
            ChargerState::Charge
        } else {
            ChargerState::Hold
        },
        ChargerState::Charge => if !s.ext_power {
            ChargerState::Hold
        } else if dropped(v.0, peak.0) || dropped(v.1, peak.1) || v.0 + v.1 >= ADC_SATURATED {
            ChargerState::Charged
        } else {
            ChargerState::Charge
        },
        ChargerState::Charged => if !s.ext_power {
            ChargerState::Hold
        } else if v.0 < NIMH_HIGH || v.1 < NIMH_HIGH {
            ChargerState::Charge
        } else {
            ChargerState::Charged
        },
    }
}

/// The voltages kept after one run: while charging, the peak of each cell so
/// far; otherwise the latest sample.
pub open spec fn next_peak(mode: ChargerState, peak: (u32, u32), v: (u32, u32)) -> (u32, u32) {
    match mode {
        ChargerState::Charge => (
            if v.0 >= peak.0 {
                v.0
            } else {
                peak.0
            },
            if v.1 >= peak.1 {
                v.1
            } else {
                peak.1
            },
        ),
        _ => v,
    }
}

/// The level one run in `mode` writes: the level of the sample in `Hold`,
/// `Charging` in `Charge`, `Charged` in `Charged`.
pub open spec fn level_in(mode: ChargerState, v: (u32, u32)) -> BatteryState {
    match mode {
        ChargerState::Hold => bat_level_of(v),
        ChargerState::Charge => BatteryState::Charging,
        ChargerState::Charged => BatteryState::Charged,
    }
}

/// The command on entering a mode: `Charge` for `Charge`, `Hold` otherwise.
pub open spec fn entry_command(mode: ChargerState) -> ChargerAction {
    match mode {
        ChargerState::Charge => ChargerAction::Charge,
        _ => ChargerAction::Hold,
    }
}

/// The command that a run from `from` to `to` emits: the entry command of
/// `to` where the mode changed, none where it stayed.
pub open spec fn command(from: ChargerState, to: ChargerState) -> Option<Action> {
    if from == to {
        None
    } else {
        Some(Action::Battery(entry_command(to)))
    }
}

/// The charger: its mode and the cell voltages it keeps to measure a drop.
pub struct Charger {
    bat_voltage: (u32, u32),
    state: ChargerState,
}

impl Default for Charger {
    /// Holding, with no voltages seen.
    fn default() -> (r: Self)
        ensures
            r.mode() == ChargerState::Hold,
            r.peak() == (0u32, 0u32),
    {
        Charger { bat_voltage: (0, 0), state: ChargerState::Hold }
    }
}

impl Charger {
    /// The mode.
    pub closed spec fn mode(&self) -> ChargerState {
        self.state
    }

    /// The voltages kept: the peak while charging, else the latest sample.
    pub closed spec fn peak(&self) -> (u32, u32) {
        self.bat_voltage
    }

    /// The mode.
    pub fn state(&self) -> (r: ChargerState)
        ensures
            r == self.mode(),
    {
        self.state
    }

    fn enter(&mut self, state: ChargerState) -> (r: Option<ChargerAction>)
        ensures
            final(self).mode() == state,
            final(self).peak() == old(self).peak(),
            r == Some(entry_command(state)),
    {
        match state {
            ChargerState::Hold => {
                self.state = ChargerState::Hold;
                Some(ChargerAction::Hold)
            },
            ChargerState::Charge => {
                self.state = ChargerState::Charge;
                Some(ChargerAction::Charge)
            },
            ChargerState::Charged => {
                self.state = ChargerState::Charged;
                Some(ChargerAction::Hold)
            },
        }
    }

    fn bat_level(bat_voltage: (u32, u32)) -> (r: BatteryState)
        ensures
            r == bat_level_of(bat_voltage),
    {
        let (v1, v2) = bat_voltage;
        if v1 >= NIMH_MPV && v2 >= NIMH_MPV {
            BatteryState::AboveNominal
        } else if v1 >= NIMH_EODV && v2 >= NIMH_EODV {
            BatteryState::BelowNominal
        } else {
            BatteryState::Critical
        }
    }

    fn run_hold(&mut self, state: &mut State) -> (r: Option<ChargerAction>)
        requires
            old(self).mode() == ChargerState::Hold,
        ensures
            final(self).mode() == next_mode(old(self).mode(), old(self).peak(), *old(state)),
            final(self).peak() == next_peak(old(self).mode(), old(self).peak(), old(state).bat_voltage),
            *final(state) == (State { bat_level: level_in(old(self).mode(), old(state).bat_voltage), ..*old(state) }),
            r == if final(self).mode() == old(self).mode() {
                None
            } else {
                Some(entry_command(final(self).mode()))
            },
    {
        self.bat_voltage = state.bat_voltage;
        state.bat_level = Self::bat_level(state.bat_voltage);
        let (v1, v2) = state.bat_voltage;
        if state.ext_power && v1 < NIMH_HIGH && v2 < NIMH_HIGH {
            self.enter(ChargerState::Charge)
        } else {
            None
        }
    }

    fn run_charge(&mut self, state: &mut State) -> (r: Option<ChargerAction>)
        requires
            old(self).mode() == ChargerState::Charge,
        ensures
            final(self).mode() == next_mode(old(self).mode(), old(self).peak(), *old(state)),
            final(self).peak() == next_peak(old(self).mode(), old(self).peak(), old(state).bat_voltage),
            *final(state) == (State { bat_level: level_in(old(self).mode(), old(state).bat_voltage), ..*old(state) }),
            r == if final(self).mode() == old(self).mode() {
                None
            } else {
                Some(entry_command(final(self).mode()))
            },
    {
        let (v1, v2) = state.bat_voltage;
        let (p1, p2) = self.bat_voltage;
        let d1 = v1 as i64 - p1 as i64;
        let d2 = v2 as i64 - p2 as i64;
        self.bat_voltage = (if v1 >= p1 { v1 } else { p1 }, if v2 >= p2 { v2 } else { p2 });
        state.bat_level = BatteryState::Charging;
        if !state.ext_power {
            self.enter(ChargerState::Hold)
        } else {
            let is_adc_saturated = v1 as u64 + v2 as u64 >= ADC_SATURATED;
            if d1 <= NIMH_NDV || d2 <= NIMH_NDV || is_adc_saturated {
                self.enter(ChargerState::Charged)
            } else {
                None
            }
        }
    }

    fn run_charged(&mut self, state: &mut State) -> (r: Option<ChargerAction>)
        requires
            old(self).mode() == ChargerState::Charged,
        ensures
            final(self).mode() == next_mode(old(self).mode(), old(self).peak(), *old(state)),
            final(self).peak() == next_peak(old(self).mode(), old(self).peak(), old(state).bat_voltage),
            *final(state) == (State { bat_level: level_in(old(self).mode(), old(state).bat_voltage), ..*old(state) }),
            r == if final(self).mode() == old(self).mode() {
                None
            } else {
                Some(entry_command(final(self).mode()))
            },
    {
        self.bat_voltage = state.bat_voltage;
        state.bat_level = BatteryState::Charged;
        let (v1, v2) = state.bat_voltage;
        if !state.ext_power {
            self.enter(ChargerState::Hold)
        } else if v1 < NIMH_HIGH || v2 < NIMH_HIGH {
            self.enter(ChargerState::Charge)
        } else {
            None
        }
    }

    /// One run of the charger on the sampled state: moves to `next_mode`,
    /// keeps `next_peak`, writes the level `level_in` the old mode into the
    /// state, emits the entry command of the new mode where the mode changed,
    /// and asks to run again after `CHARGER_PERIOD`.
    pub fn step(&mut self, state: &mut State) -> (r: (Option<Action>, NextRun))
        ensures
            final(self).mode() == next_mode(old(self).mode(), old(self).peak(), *old(state)),
            final(self).peak() == next_peak(old(self).mode(), old(self).peak(), old(state).bat_voltage),
            *final(state) == (State { bat_level: level_in(old(self).mode(), old(state).bat_voltage), ..*old(state) }),
            r.0 == command(old(self).mode(), final(self).mode()),
            r.1 matches NextRun::After(d) && d@ == CHARGER_PERIOD,
    {
        let action = match self.state {
            ChargerState::Hold => self.run_hold(state),
            ChargerState::Charge => self.run_charge(state),
            ChargerState::Charged => self.run_charged(state),
        };
        let action = match action {
            Some(a) => Some(Action::Battery(a)),
            None => None,
        };
        (action, NextRun::After(Duration::from_ticks(CHARGER_PERIOD)))
    }
}

impl Task<State, Action> for Charger {
    /// As `Charger::step`.
    open spec fn ran(
        &self,
        state: State,
        after: &Self,
        state_after: State,
        out: (Option<Action>, NextRun),
    ) -> bool {
        &&& after.mode() == next_mode(self.mode(), self.peak(), state)
        &&& after.peak() == next_peak(self.mode(), self.peak(), state.bat_voltage)
        &&& state_after == (State { bat_level: level_in(self.mode(), state.bat_voltage), ..state })
        &&& out.0 == command(self.mode(), after.mode())
        &&& out.1 matches NextRun::After(d) && d@ == CHARGER_PERIOD
    }

    fn run(&mut self, state: &mut State) -> (r: (Option<Action>, NextRun)) {
        self.step(state)
    }
}

/// The charge cycle. Holding, with external power and both cells below
/// `NIMH_HIGH`, a run starts the charge. Charging with external power, a
/// sample that rises on both cells (short of saturation) keeps charging and
/// becomes the new peak, and one with a cell `NIMH_NDV` or more below its
/// peak completes the charge. Without external power a run in any mode holds.
pub proof fn lemma_charge_cycle(peak: (u32, u32), s: State)
    ensures
        s.ext_power && s.bat_voltage.0 < NIMH_HIGH && s.bat_voltage.1 < NIMH_HIGH ==> next_mode(
            ChargerState::Hold,
            peak,
            s,
        ) == ChargerState::Charge,
        s.ext_power && s.bat_voltage.0 >= peak.0 && s.bat_voltage.1 >= peak.1
            && s.bat_voltage.0 + s.bat_voltage.1 < ADC_SATURATED ==> next_mode(
            ChargerState::Charge,
            peak,
            s,
        ) == ChargerState::Charge && next_peak(ChargerState::Charge, peak, s.bat_voltage)
            == s.bat_voltage,
        s.ext_power && (dropped(s.bat_voltage.0, peak.0) || dropped(s.bat_voltage.1, peak.1))
            ==> next_mode(ChargerState::Charge, peak, s) == ChargerState::Charged,
        !s.ext_power ==> forall|m: ChargerState| #[trigger] next_mode(m, peak, s) == ChargerState::Hold,
{
}

} // verus!
