//! Time-multiplexed driving of `N` character positions over one set of
//! segment lines: each position is lit for a share of the update period and
//! blanked for the rest, one position after another.
use vstd::prelude::*;
use crate::char7dp::{Char7DP, bits_of};
use crate::common::Duration;

verus! {

/// The whole of a duty cycle: duty cycles are given in thousandths.
pub const DUTY_FULL: u16 = 1000;

/// What to drive now.
#[derive(PartialEq, Eq, Structural, Copy, Clone, Debug)]
pub enum Action {
    /// Drive this pattern on the position with this index, and no other position.
    Render(Char7DP, usize),
}

/// The first position after `i` on a ring of `n`.
pub open spec fn next_index(i: int, n: int) -> int {
    if i + 1 < n {
        i + 1
    } else {
        0
    }
}

/// `period` scaled by `k` thousandths, rounded down.
pub open spec fn scaled(period: u64, k: u64) -> int {
    (period as int * k as int) / 1000
}

/// How long a call asks to wait in the lit phase (`lit`) or the blank phase.
pub open spec fn phase_delay(period: u64, duty: u16, lit: bool) -> int {
    if lit {
        scaled(period, duty as u64)
    } else {
        scaled(period, (DUTY_FULL - duty) as u64)
    }
}

/// `period * k / 1000` without overflow.
fn scale(period: u64, k: u64) -> (r: u64)
    requires
        k <= 1000,
    ensures
        r == scaled(period, k),
    no_unwind
{
    let q = period / 1000;
    let m = period % 1000;
    proof {
        assert(q * k <= period) by (nonlinear_arith)
            requires
                q == period / 1000,
                k <= 1000,
        ;
        assert(m * k < 1_000_000) by (nonlinear_arith)
            requires
                m < 1000,
                k <= 1000,
        ;
        assert((period as int * k as int) / 1000 == q * k + (m * k) / 1000) by (nonlinear_arith)
            requires
                period == 1000 * q + m,
                0 <= m < 1000,
        ;
        assert(q * k + (m * k) / 1000 <= period) by (nonlinear_arith)
            requires
                period == 1000 * q + m,
                0 <= m < 1000,
                k <= 1000,
                q >= 0,
        ;
    }
    q * k + (m * k) / 1000
}

struct Phase<const N: usize> {
    char_index: usize,
    is_char_active: bool,
}

impl<const N: usize> Phase<N> {
    fn next(&self) -> (r: Self)
        requires
            self.char_index < N,
        ensures
            self.is_char_active ==> r.char_index == self.char_index && !r.is_char_active,
            !self.is_char_active ==> r.char_index == next_index(self.char_index as int, N as int)
                && r.is_char_active,
        no_unwind
    {
        if self.is_char_active {
            Self { char_index: self.char_index, is_char_active: false }
        } else {
            Self { char_index: self.next_char_index(), is_char_active: true }
        }
    }

    fn next_char_index(&self) -> (r: usize)
        requires
            self.char_index < N,
        ensures
            r == next_index(self.char_index as int, N as int),
        no_unwind
    {
        if self.char_index + 1 < N {
            self.char_index + 1
        } else {
            0
        }
    }
}

/// `N` character positions driven one at a time, each lit for `duty_cycle`
/// thousandths of the update period and blank for the rest.
pub struct Disp<const N: usize> {
    chars: [Char7DP; N],
    update_period: Duration,
    duty_cycle: u16,
    state: Phase<N>,
}

impl<const N: usize> Disp<N> {
    /// The state bytes of the characters shown.
    pub closed spec fn chars(&self) -> Seq<u8> {
        bits_of(self.chars@)
    }

    /// The update period in ticks.
    pub closed spec fn period(&self) -> u64 {
        self.update_period@
    }

    /// The duty cycle in thousandths.
    pub closed spec fn duty(&self) -> u16 {
        self.duty_cycle
    }

    /// The position the next call drives.
    pub closed spec fn index(&self) -> int {
        self.state.char_index as int
    }

    /// Whether the next call is in the lit phase of its position.
    pub closed spec fn lit_phase(&self) -> bool {
        self.state.is_char_active
    }

    /// The position is on the display and the duty cycle at most whole.
    pub open spec fn wf(&self) -> bool {
        &&& 0 <= self.index() < N
        &&& self.duty() <= DUTY_FULL
        &&& self.chars().len() == N
    }

    /// Blank positions, starting with the lit phase of the first one.
    pub fn new(update_period: Duration, duty_cycle: u16) -> (r: Self)
        requires
            N > 0,
            duty_cycle <= DUTY_FULL,
        ensures
            r.wf(),
            r.chars() == Seq::new(N as nat, |i: int| 0u8),
            r.period() == update_period@,
            r.duty() == duty_cycle,
            r.index() == 0,
            r.lit_phase(),
    {
        let r = Self {
            chars: [Char7DP::space();N],
            update_period,
            duty_cycle,
            state: Phase { char_index: 0, is_char_active: true },
        };
        assert(r.chars() =~= Seq::new(N as nat, |i: int| 0u8));
        r
    }

    /// Replaces all characters; the phase goes on where it was.
    pub fn set_chars(&mut self, chars: [Char7DP; N])
        requires
            old(self).wf(),
        ensures
            final(self).wf(),
            final(self).chars() == bits_of(chars@),
            final(self).period() == old(self).period(),
            final(self).duty() == old(self).duty(),
            final(self).index() == old(self).index(),
            final(self).lit_phase() == old(self).lit_phase(),
        no_unwind
    {
        self.chars = chars;
    }

    /// Replaces the characters from position `start` on with `chars`.
    pub fn set_chars_at(&mut self, start: usize, chars: &[Char7DP])
        requires
            old(self).wf(),
            start + chars@.len() <= N,
        ensures
            final(self).wf(),
            final(self).chars() == old(self).chars().take(start as int) + bits_of(chars@)
                + old(self).chars().skip(start + chars@.len()),
            final(self).period() == old(self).period(),
            final(self).duty() == old(self).duty(),
            final(self).index() == old(self).index(),
            final(self).lit_phase() == old(self).lit_phase(),
    {
        let ghost before = self.chars();
        let mut i: usize = 0;
        while i < chars.len()
            invariant
                start + chars@.len() <= N,
                i <= chars@.len(),
                self.chars().len() == N,
                before.len() == N,
                forall|j: int|
                    0 <= j < start || start + i <= j < N ==> #[trigger] self.chars()[j]
                        == before[j],
                forall|j: int|
                    start <= j < start + i ==> #[trigger] self.chars()[j] == chars@[j - start]@,
                self.period() == old(self).period(),
                self.duty() == old(self).duty(),
                self.index() == old(self).index(),
                self.lit_phase() == old(self).lit_phase(),
            decreases chars@.len() - i,
        {
            let ghost prev = self.chars();
            self.chars[start + i] = chars[i];
            proof {
                assert(self.chars() =~= prev.update(start + i, chars@[i as int]@));
            }
            i = i + 1;
        }
        proof {
            assert(self.chars() =~= before.take(start as int) + bits_of(chars@) + before.skip(
                start + chars@.len(),
            ));
        }
    }

    /// Drives one position for one phase: the character at the current
    /// position in the lit phase, a blank in the blank phase, and asks to be
    /// called again after the phase's share of the update period. The lit
    /// phase is followed by the blank phase of the same position, the blank
    /// phase by the lit phase of the next.
    pub fn run(&mut self) -> (r: (Action, Duration))
        requires
            old(self).wf(),
        ensures
            final(self).wf(),
            final(self).chars() == old(self).chars(),
            final(self).period() == old(self).period(),
            final(self).duty() == old(self).duty(),
            r.0 matches Action::Render(c, i) && i == old(self).index() && c@ == if old(
                self,
            ).lit_phase() {
                old(self).chars()[old(self).index()]
            } else {
                0u8
            },
            r.1@ == phase_delay(old(self).period(), old(self).duty(), old(self).lit_phase()),
            old(self).lit_phase() ==> final(self).index() == old(self).index()
                && !final(self).lit_phase(),
            !old(self).lit_phase() ==> final(self).index() == next_index(
                old(self).index(),
                N as int,
            ) && final(self).lit_phase(),
        no_unwind
    {
        let i = self.state.char_index;
        let period = self.update_period.ticks();
        let (action, delay) = if self.state.is_char_active {
            let c = self.chars[i];
            (Action::Render(c, i), scale(period, self.duty_cycle as u64))
        } else {
            (Action::Render(Char7DP::space(), i), scale(period, (DUTY_FULL - self.duty_cycle) as u64))
        };
        self.state = self.state.next();
        (action, Duration::from_ticks(delay))
    }
}

/// The position and phase after `k` calls from position `i` in phase `lit`,
/// on a ring of `n` positions, as `Disp::run` moves them.
pub open spec fn phase_after(i: int, lit: bool, n: int, k: nat) -> (int, bool)
    decreases k,
{
    if k == 0 {
        (i, lit)
    } else {
        let (j, l) = phase_after(i, lit, n, (k - 1) as nat);
        if l {
            (j, false)
        } else {
            (next_index(j, n), true)
        }
    }
}

/// Two calls per position, whatever the duty cycle: from the lit phase of
/// position `i`, calls `2m` and `2m + 1` both drive position `(i + m) mod n`,
/// the first in the lit phase (its character) and the second in the blank
/// phase (a blank). With a full duty cycle the lit call asks for the whole
/// update period and the blank one for none; in any case the two together ask
/// for no more than the period.
pub proof fn lemma_two_phases_per_position(i: int, n: int, m: nat, period: u64, duty: u16)
    requires
        0 <= i < n,
        duty <= DUTY_FULL,
    ensures
        phase_after(i, true, n, 2 * m) == ((i + m) % n, true),
        phase_after(i, true, n, 2 * m + 1) == ((i + m) % n, false),
        duty == DUTY_FULL ==> phase_delay(period, duty, true) == period && phase_delay(
            period,
            duty,
            false,
        ) == 0,
        phase_delay(period, duty, true) + phase_delay(period, duty, false) <= period,
    decreases m,
{
    if m == 0 {
        vstd::arithmetic::div_mod::lemma_small_mod(i as nat, n as nat);
        assert(phase_after(i, true, n, 0) == (i, true));
        assert(phase_after(i, true, n, 1) == (i, false));
    } else {
        lemma_two_phases_per_position(i, n, (m - 1) as nat, period, duty);
        let prev = (i + m - 1) % n;
        assert(phase_after(i, true, n, (2 * m - 1) as nat) == (prev, false));
        vstd::arithmetic::div_mod::lemma_add_mod_noop(i + m - 1, 1, n);
        if n > 1 {
            vstd::arithmetic::div_mod::lemma_small_mod(1, n as nat);
        } else {
            vstd::arithmetic::div_mod::lemma_mod_self_0(1);
        }
        if prev + 1 < n {
            vstd::arithmetic::div_mod::lemma_small_mod((prev + 1) as nat, n as nat);
        } else {
            vstd::arithmetic::div_mod::lemma_mod_self_0(n);
        }
        assert(phase_after(i, true, n, 2 * m) == ((i + m) % n, true));
        assert(phase_after(i, true, n, 2 * m + 1) == ((i + m) % n, false));
    }
    if duty == DUTY_FULL {
        assert((period as int * 1000) / 1000 == period) by (nonlinear_arith);
        assert((period as int * 0) / 1000 == 0) by (nonlinear_arith);
    }
    assert(phase_delay(period, duty, true) + phase_delay(period, duty, false) <= period)
        by (nonlinear_arith)
        requires
            phase_delay(period, duty, true) == (period as int * duty as int) / 1000,
            phase_delay(period, duty, false) == (period as int * (1000 - duty) as int) / 1000,
            0 <= duty <= 1000,
            period >= 0,
    ;
}

} // verus!
