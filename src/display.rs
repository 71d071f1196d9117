//! The display task: shows the time of day, and the battery level through the
//! decimal points, on four multiplexed positions.
use vstd::prelude::*;
use crate::action::Action;
use crate::char7dp::{Char7DP, bits_of};
use crate::char7dp_seq::{Char7DPSeq, decimal_bits};
use crate::charger::BatteryState;
use crate::common::Duration;
use crate::disp::{self, Disp, DUTY_FULL, next_index, phase_delay};
use crate::state::{RTC, State};
use crate::task::{NextRun, Task};

verus! {

/// The display's update period in ticks.
pub const DISPLAY_PERIOD: u64 = 2_000;

/// `b` with its decimal point lit (`on`) or cleared.
pub open spec fn with_point(b: u8, on: bool) -> u8 {
    if on {
        b | 0x80
    } else {
        b & 0x7f
    }
}

/// The four positions, least significant first: minutes with a leading zero,
/// then hours without one.
pub open spec fn time_digits(rtc: RTC) -> Seq<u8> {
    decimal_bits(rtc.minute as nat, true, 2) + decimal_bits(rtc.hour as nat, false, 2)
}

/// What the four positions show. Critical level: all blank but for the first
/// position's point, lit on even seconds. Charging: the time, with the point
/// of position `second mod 4` lit. Otherwise: the time, with the point between
/// hours and minutes lit on even seconds.
pub open spec fn clock_face(rtc: RTC, level: BatteryState) -> Seq<u8> {
    match level {
        BatteryState::Critical => seq![with_point(0, rtc.second % 2 == 0), 0u8, 0u8, 0u8],
        BatteryState::Charging => {
            let t = time_digits(rtc);
            let k = rtc.second % 4;
            t.update(k as int, with_point(t[k as int], true))
        },
        _ => {
            let t = time_digits(rtc);
            t.update(2, with_point(t[2], rtc.second % 2 == 0))
        },
    }
}

/// The display task over four positions.
pub struct Display {
    disp: Disp<4>,
}

impl Default for Display {
    /// A full duty cycle over `DISPLAY_PERIOD`, from the lit phase of the first position.
    fn default() -> (r: Self)
        ensures
            r.wf(),
            r.period() == DISPLAY_PERIOD,
            r.duty() == DUTY_FULL,
            r.index() == 0,
            r.lit_phase(),
    {
        Display { disp: Disp::new(Duration::from_ticks(DISPLAY_PERIOD), DUTY_FULL) }
    }
}

fn decimal(n: u8, leading_zeros: bool) -> (r: Char7DPSeq)
    ensures
        r@ == decimal_bits(n as nat, leading_zeros, 2),
{
    let mut s = Char7DPSeq::new(vec![Char7DP::space(), Char7DP::space()]);
    s.set_dec(n as usize, leading_zeros);
    s
}

impl Display {
    /// The update period in ticks.
    pub closed spec fn period(&self) -> u64 {
        self.disp.period()
    }

    /// The duty cycle in thousandths.
    pub closed spec fn duty(&self) -> u16 {
        self.disp.duty()
    }

    /// The position the next run drives.
    pub closed spec fn index(&self) -> int {
        self.disp.index()
    }

    /// Whether the next run is in the lit phase of its position.
    pub closed spec fn lit_phase(&self) -> bool {
        self.disp.lit_phase()
    }

    /// The multiplexer is well formed.
    pub closed spec fn wf(&self) -> bool {
        self.disp.wf()
    }

    #[verifier::type_invariant]
    spec fn inv(&self) -> bool {
        self.disp.wf()
    }

    fn face(state: &State) -> (r: [Char7DP; 4])
        ensures
            bits_of(r@) == clock_face(state.rtc, state.bat_level),
    {
        let mut time = [Char7DP::space();4];
        let rtc = state.rtc;
        match state.bat_level {
            BatteryState::Critical => {
                let mut c = time[0];
                c.set_dp(rtc.second & 1 == 0);
                time[0] = c;
            },
            _ => {
                let minute = decimal(rtc.minute, true);
                let hour = decimal(rtc.hour, false);
                time[0] = minute.get(0);
                time[1] = minute.get(1);
                time[2] = hour.get(0);
                time[3] = hour.get(1);
                let (k, on) = match state.bat_level {
                    BatteryState::Charging => ((rtc.second % 4) as usize, true),
                    _ => (2, rtc.second & 1 == 0),
                };
                let mut c = time[k];
                c.set_dp(on);
                time[k] = c;
            },
        }
        proof {
            let sec = rtc.second;
            assert(sec & 1 == 0 <==> sec % 2 == 0) by (bit_vector);
            assert(bits_of(time@) =~= clock_face(state.rtc, state.bat_level));
        }
        time
    }

    /// One run: shows the face of the current state (see `clock_face`) and
    /// drives one position for one phase, as `Disp::run` does; the state is
    /// left as it was.
    pub fn step(&mut self, state: &mut State) -> (r: (Option<Action>, NextRun))
        ensures
            final(self).wf(),
            *final(state) == *old(state),
            final(self).period() == old(self).period(),
            final(self).duty() == old(self).duty(),
            r.0 matches Some(Action::Display(disp::Action::Render(c, i))) && i == old(self).index()
                && c@ == if old(self).lit_phase() {
                clock_face(old(state).rtc, old(state).bat_level)[i as int]
            } else {
                0u8
            },
            r.1 matches NextRun::After(d) && d@ == phase_delay(
                old(self).period(),
                old(self).duty(),
                old(self).lit_phase(),
            ),
            old(self).lit_phase() ==> final(self).index() == old(self).index()
                && !final(self).lit_phase(),
            !old(self).lit_phase() ==> final(self).index() == next_index(old(self).index(), 4)
                && final(self).lit_phase(),
    {
        proof {
            use_type_invariant(&*self);
        }
        let time = Self::face(state);
        self.disp.set_chars(time);
        let (action, delay) = self.disp.run();
        (Some(Action::Display(action)), NextRun::After(delay))
    }
}

impl Task<State, Action> for Display {
    /// As `Display::step`.
    open spec fn ran(
        &self,
        state: State,
        after: &Self,
        state_after: State,
        out: (Option<Action>, NextRun),
    ) -> bool {
        &&& after.wf()
        &&& state_after == state
        &&& after.period() == self.period()
        &&& after.duty() == self.duty()
        &&& out.0 matches Some(Action::Display(disp::Action::Render(c, i))) && i == self.index()
            && c@ == if self.lit_phase() {
            clock_face(state.rtc, state.bat_level)[i as int]
        } else {
            0u8
        }
        &&& out.1 matches NextRun::After(d) && d@ == phase_delay(
            self.period(),
            self.duty(),
            self.lit_phase(),
        )
        &&& self.lit_phase() ==> after.index() == self.index() && !after.lit_phase()
        &&& !self.lit_phase() ==> after.index() == next_index(self.index(), 4)
            && after.lit_phase()
    }

    fn run(&mut self, state: &mut State) -> (r: (Option<Action>, NextRun)) {
        self.step(state)
    }
}

} // verus!
