//! A run of character positions filled with the decimal form of a number.
use vstd::prelude::*;
use vstd::arithmetic::div_mod::lemma_div_denominator;
use crate::char7dp::{Char7DP, bits_of, digit_bits};

verus! {

/// Ten to the power `i`.
pub open spec fn pow10(i: nat) -> nat
    decreases i,
{
    if i == 0 {
        1
    } else {
        10 * pow10((i - 1) as nat)
    }
}

proof fn lemma_pow10_positive(i: nat)
    ensures
        pow10(i) > 0,
    decreases i,
{
    if i > 0 {
        lemma_pow10_positive((i - 1) as nat);
    }
}

/// The decimal form of `n` over `len` positions, least significant digit
/// first: position `i` shows digit `n / 10^i % 10`; a position whose digit and
/// all more significant ones are zero is blank, unless it is the first
/// position or `leading_zeros` is set. Digits beyond the last position are
/// dropped.
pub open spec fn decimal_bits(n: nat, leading_zeros: bool, len: nat) -> Seq<u8> {
    Seq::new(
        len,
        |i: int|
            if n / pow10(i as nat) > 0 || i == 0 || leading_zeros {
                digit_bits(((n / pow10(i as nat)) % 10) as int)
            } else {
                0u8
            },
    )
}

/// A run of character positions, least significant first.
pub struct Char7DPSeq {
    chars: Vec<Char7DP>,
}

impl View for Char7DPSeq {
    type V = Seq<u8>;

    closed spec fn view(&self) -> Seq<u8> {
        bits_of(self.chars@)
    }
}

impl Char7DPSeq {
    /// Takes the positions to fill.
    pub fn new(chars: Vec<Char7DP>) -> (r: Self)
        ensures
            r@ == bits_of(chars@),
    {
        Self { chars }
    }

    /// The number of positions.
    pub fn len(&self) -> (r: usize)
        ensures
            r == self@.len(),
    {
        self.chars.len()
    }

    /// The character at position `i`.
    pub fn get(&self, i: usize) -> (r: Char7DP)
        requires
            i < self@.len(),
        ensures
            r@ == self@[i as int],
    {
        self.chars[i]
    }

    /// Writes the decimal form of `n` over all positions (see `decimal_bits`).
    pub fn set_dec(&mut self, n: usize, leading_zeros: bool)
        ensures
            final(self)@ == decimal_bits(n as nat, leading_zeros, old(self)@.len()),
    {
        let ghost len = self.chars@.len();
        let mut p: usize = n;
        let mut i: usize = 0;
        proof {
            assert(pow10(0) == 1);
        }
        while i < self.chars.len()
            invariant
                i <= self.chars@.len() == len,
                p as nat == n as nat / pow10(i as nat),
                forall|j: int|
                    0 <= j < i ==> (#[trigger] bits_of(self.chars@)[j]) == decimal_bits(
                        n as nat,
                        leading_zeros,
                        len,
                    )[j],
            decreases len - i,
        {
            let ghost p0 = p;
            let ghost before = self.chars@;
            let c = if p > 0 || i == 0 || leading_zeros {
                let q = (p % 10) as u8;
                p = p / 10;
                match Char7DP::try_from_u8(q) {
                    Ok(c) => c,
                    Err(_) => vstd::pervasive::unreached(),
                }
            } else {
                Char7DP::space()
            };
            proof {
                lemma_pow10_positive(i as nat);
                lemma_div_denominator(n as int, pow10(i as nat) as int, 10);
                assert(pow10(i as nat) * 10 == pow10((i + 1) as nat));
                if !(p > 0 || i == 0 || leading_zeros) {
                    assert(0nat / 10 == 0);
                }
            }
            self.chars.set(i, c);
            proof {
                let want = decimal_bits(n as nat, leading_zeros, len);
                assert(bits_of(self.chars@)[i as int] == c@);
                assert(c@ == want[i as int]);
                assert forall|j: int| 0 <= j < i + 1 implies (#[trigger] bits_of(self.chars@)[j])
                    == want[j] by {
                    if j < i {
                        assert(self.chars@[j] == before[j]);
                        assert(bits_of(before)[j] == want[j]);
                    }
                }
            }
            i = i + 1;
        }
        proof {
            assert(bits_of(self.chars@) =~= decimal_bits(n as nat, leading_zeros, len));
        }
    }
}

} // verus!
