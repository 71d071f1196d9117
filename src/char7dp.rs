//! Seven-segment characters with a decimal point.
//!
//! ```text
//!    -A-
//! F |   | B
//!    -G-
//! E |   | C
//!    -D-  o DP
//! ```
use vstd::prelude::*;

verus! {

/// Individual segments of a seven-segment indicator with a decimal point.
#[derive(PartialEq, Eq, Structural, Copy, Clone, Debug)]
pub enum Segment7DP {
    /// The top segment.
    A,
    /// The top-right segment.
    B,
    /// The bottom-right segment.
    C,
    /// The bottom segment.
    D,
    /// The bottom-left segment.
    E,
    /// The top-left segment.
    F,
    /// The middle segment.
    G,
    /// The decimal point.
    DP,
}

/// The bit of a segment in a character's state byte.
pub open spec fn segment_bit(seg: Segment7DP) -> u8 {
    match seg {
        Segment7DP::A => 0x01,
        Segment7DP::B => 0x02,
        Segment7DP::C => 0x04,
        Segment7DP::D => 0x08,
        Segment7DP::E => 0x10,
        Segment7DP::F => 0x20,
        Segment7DP::G => 0x40,
        Segment7DP::DP => 0x80,
    }
}

impl Segment7DP {
    /// The bit of this segment in a character's state byte.
    pub fn bit(self) -> (r: u8)
        ensures
            r == segment_bit(self),
    {
        match self {
            Segment7DP::A => 0x01,
            Segment7DP::B => 0x02,
            Segment7DP::C => 0x04,
            Segment7DP::D => 0x08,
            Segment7DP::E => 0x10,
            Segment7DP::F => 0x20,
            Segment7DP::G => 0x40,
            Segment7DP::DP => 0x80,
        }
    }
}

/// One character position: the set of lit segments, one bit per segment.
#[derive(PartialEq, Eq, Structural, Copy, Clone, Debug)]
pub struct Char7DP {
    state: u8,
}

impl View for Char7DP {
    type V = u8;

    closed spec fn view(&self) -> u8 {
        self.state
    }
}

/// Whether the segment is lit in the state byte.
pub open spec fn lit(bits: u8, seg: Segment7DP) -> bool {
    bits & segment_bit(seg) == segment_bit(seg)
}

impl Char7DP {
    /// The blank character: no segment lit.
    pub fn space() -> (r: Self)
        ensures
            r@ == 0,
        no_unwind
    {
        Self { state: 0 }
    }

    /// The same character with the decimal point lit.
    pub fn with_dp(&self) -> (r: Self)
        ensures
            r@ == self@ | 0x80,
    {
        Self { state: self.state | 0x80 }
    }

    /// Lights or clears the decimal point, leaving the other segments as they are.
    pub fn set_dp(&mut self, on: bool)
        ensures
            final(self)@ == if on { old(self)@ | 0x80 } else { old(self)@ & 0x7f },
    {
        if on {
            self.state = self.state | 0x80;
        } else {
            self.state = self.state & 0x7f;
        }
    }

    /// The state byte: bit `segment_bit(s)` is set where segment `s` is lit.
    pub fn state(&self) -> (r: u8)
        ensures
            r == self@,
    {
        self.state
    }

    /// Whether the segment is lit.
    pub fn is_set(&self, seg: Segment7DP) -> (r: bool)
        ensures
            r == lit(self@, seg),
    {
        let bit = seg.bit();
        self.state & bit == bit
    }
}

/// The state bytes of a sequence of characters.
pub open spec fn bits_of(value: Seq<Char7DP>) -> Seq<u8> {
    value.map_values(|c: Char7DP| c@)
}

/// A horizontal segment drawn four columns wide.
pub open spec fn bar(on: bool) -> Seq<char> {
    if on {
        " -- "@
    } else {
        "    "@
    }
}

/// A vertical segment drawn one column wide.
pub open spec fn side(on: bool) -> Seq<char> {
    if on {
        "|"@
    } else {
        " "@
    }
}

/// The gap after character `i` of `n`: one column, none after the last.
pub open spec fn gap(i: int, n: int) -> Seq<char> {
    if i + 1 < n {
        " "@
    } else {
        ""@
    }
}

/// What character `i` of `n`, with state byte `b`, contributes to text row `row`.
pub open spec fn cell(row: int, b: u8, i: int, n: int) -> Seq<char> {
    if row == 0 {
        bar(lit(b, Segment7DP::A)) + gap(i, n)
    } else if row == 1 {
        side(lit(b, Segment7DP::F)) + "  "@ + side(lit(b, Segment7DP::B)) + gap(i, n)
    } else if row == 2 {
        bar(lit(b, Segment7DP::G)) + gap(i, n)
    } else if row == 3 {
        side(lit(b, Segment7DP::E)) + "  "@ + side(lit(b, Segment7DP::C)) + gap(i, n)
    } else {
        bar(lit(b, Segment7DP::D)) + if lit(b, Segment7DP::DP) {
            "."@
        } else {
            gap(i, n)
        }
    }
}

/// Text row `row` of the first `k` characters of `v`, without its line break.
pub open spec fn text_row(row: int, v: Seq<u8>, k: int) -> Seq<char>
    decreases k,
{
    if k <= 0 {
        Seq::empty()
    } else {
        text_row(row, v, k - 1) + cell(row, v[k - 1], k - 1, v.len() as int)
    }
}

/// The five text rows that draw the characters side by side, each ended by a line break.
pub open spec fn drawing(v: Seq<u8>) -> Seq<char> {
    let n = v.len() as int;
    text_row(0, v, n) + "\n"@ + text_row(1, v, n) + "\n"@ + text_row(2, v, n) + "\n"@
        + text_row(3, v, n) + "\n"@ + text_row(4, v, n) + "\n"@
}

fn push_bar(s: &mut String, on: bool)
    ensures
        final(s)@ == old(s)@ + bar(on),
{
    if on {
        s.append(" -- ");
    } else {
        s.append("    ");
    }
}

fn push_side(s: &mut String, on: bool)
    ensures
        final(s)@ == old(s)@ + side(on),
{
    if on {
        s.append("|");
    } else {
        s.append(" ");
    }
}

fn push_gap(s: &mut String, i: usize, n: usize)
    ensures
        final(s)@ == old(s)@ + gap(i as int, n as int),
{
    if i < n && n - i > 1 {
        s.append(" ");
    } else {
        s.append("");
    }
}

fn push_cell(s: &mut String, row: usize, c: Char7DP, i: usize, n: usize)
    ensures
        final(s)@ == old(s)@ + cell(row as int, c@, i as int, n as int),
{
    let ghost s0 = s@;
    if row == 0 {
        push_bar(s, c.is_set(Segment7DP::A));
        push_gap(s, i, n);
    } else if row == 1 || row == 3 {
        let (left, right) = if row == 1 {
            (Segment7DP::F, Segment7DP::B)
        } else {
            (Segment7DP::E, Segment7DP::C)
        };
        push_side(s, c.is_set(left));
        s.append("  ");
        push_side(s, c.is_set(right));
        push_gap(s, i, n);
    } else if row == 2 {
        push_bar(s, c.is_set(Segment7DP::G));
        push_gap(s, i, n);
    } else {
        push_bar(s, c.is_set(Segment7DP::D));
        if c.is_set(Segment7DP::DP) {
            s.append(".");
        } else {
            push_gap(s, i, n);
        }
    }
    assert(s@ =~= s0 + cell(row as int, c@, i as int, n as int));
}

fn push_row(s: &mut String, row: usize, value: &[Char7DP])
    ensures
        final(s)@ == old(s)@ + text_row(row as int, bits_of(value@), value@.len() as int),
{
    let ghost s0 = s@;
    let ghost v = bits_of(value@);
    let n = value.len();
    let mut i: usize = 0;
    while i < n
        invariant
            i <= n,
            n == value@.len(),
            v == bits_of(value@),
            s@ == s0 + text_row(row as int, v, i as int),
        decreases n - i,
    {
        push_cell(s, row, value[i], i, n);
        proof {
            assert(v[i as int] == value@[i as int]@);
            assert(s@ =~= s0 + text_row(row as int, v, i + 1));
        }
        i = i + 1;
    }
}

impl Char7DP {
    /// Draws the characters side by side as five rows of text, for inspection
    /// away from the hardware.
    pub fn render(value: &[Self]) -> (r: String)
        ensures
            r@ == drawing(bits_of(value@)),
    {
        let mut s = String::new();
        let mut row: usize = 0;
        while row < 5
            invariant
                row <= 5,
                s@ == if row == 0 {
                    Seq::empty()
                } else if row == 1 {
                    text_row(0, bits_of(value@), value@.len() as int) + "\n"@
                } else if row == 2 {
                    text_row(0, bits_of(value@), value@.len() as int) + "\n"@
                        + text_row(1, bits_of(value@), value@.len() as int) + "\n"@
                } else if row == 3 {
                    text_row(0, bits_of(value@), value@.len() as int) + "\n"@
                        + text_row(1, bits_of(value@), value@.len() as int) + "\n"@
                        + text_row(2, bits_of(value@), value@.len() as int) + "\n"@
                } else if row == 4 {
                    text_row(0, bits_of(value@), value@.len() as int) + "\n"@
                        + text_row(1, bits_of(value@), value@.len() as int) + "\n"@
                        + text_row(2, bits_of(value@), value@.len() as int) + "\n"@
                        + text_row(3, bits_of(value@), value@.len() as int) + "\n"@
                } else {
                    drawing(bits_of(value@))
                },
            decreases 5 - row,
        {
            push_row(&mut s, row, value);
            s.append("\n");
            row = row + 1;
        }
        s
    }
}

/// The error of the conversions into a character.
#[derive(PartialEq, Eq, Structural, Copy, Clone, Debug)]
pub enum Char7DPTryFromError {
    /// The value has no seven-segment form.
    UnsupportedValue,
}

/// The state byte that `segs` light together.
pub open spec fn segments_bits(segs: Seq<Segment7DP>) -> u8
    decreases segs.len(),
{
    if segs.len() == 0 {
        0
    } else {
        segments_bits(segs.drop_last()) | segment_bit(segs.last())
    }
}

/// The state byte of decimal digit `d`, for `d` in 0..=9:
/// 0 ABCDEF, 1 BC, 2 ABGED, 3 ABGCD, 4 FGBC, 5 AFGCD, 6 AFEDCG, 7 ABC, 8 ABCDEFG, 9 GFABCD.
pub open spec fn digit_bits(d: int) -> u8 {
    if d == 0 {
        0x3f
    } else if d == 1 {
        0x06
    } else if d == 2 {
        0x5b
    } else if d == 3 {
        0x4f
    } else if d == 4 {
        0x66
    } else if d == 5 {
        0x6d
    } else if d == 6 {
        0x7d
    } else if d == 7 {
        0x07
    } else if d == 8 {
        0x7f
    } else {
        0x6f
    }
}

/// The state byte of a supported character: the decimal digits, the space,
/// '.' (DP), '-' (G), '_' (D) and '=' (D and G); `None` for any other.
pub open spec fn char_bits(c: char) -> Option<u8> {
    if '0' <= c <= '9' {
        Some(digit_bits(c as int - '0' as int))
    } else if c == ' ' {
        Some(0)
    } else if c == '.' {
        Some(0x80)
    } else if c == '-' {
        Some(0x40)
    } else if c == '_' {
        Some(0x08)
    } else if c == '=' {
        Some(0x48)
    } else {
        None
    }
}

/// The characters of a text, each '.' that follows a supported character
/// merged into it as its decimal point; `None` if one is unsupported.
pub open spec fn text_bits(s: Seq<char>) -> Option<Seq<u8>>
    decreases s.len(),
{
    if s.len() == 0 {
        Some(Seq::empty())
    } else {
        match char_bits(s[0]) {
            None => None,
            Some(b) => if s.len() > 1 && s[1] == '.' {
                match text_bits(s.skip(2)) {
                    Some(t) => Some(seq![b | 0x80] + t),
                    None => None,
                }
            } else {
                match text_bits(s.skip(1)) {
                    Some(t) => Some(seq![b] + t),
                    None => None,
                }
            },
        }
    }
}

/// `prefix` put in front of what `rest` holds, if it holds anything.
pub open spec fn prepend(prefix: Seq<u8>, rest: Option<Seq<u8>>) -> Option<Seq<u8>> {
    match rest {
        Some(t) => Some(prefix + t),
        None => None,
    }
}

/// What is left to convert of a text once its first `i` characters are taken.
pub open spec fn text_bits_from(s: Seq<char>, i: int) -> Option<Seq<u8>> {
    text_bits(s.skip(i))
}

impl Char7DP {
    /// The character that lights exactly the given segments.
    pub fn new(segments: &[Segment7DP]) -> (r: Self)
        ensures
            r@ == segments_bits(segments@),
    {
        let mut state: u8 = 0;
        let mut i: usize = 0;
        while i < segments.len()
            invariant
                i <= segments@.len(),
                state == segments_bits(segments@.subrange(0, i as int)),
            decreases segments@.len() - i,
        {
            let seg = segments[i];
            state = state | seg.bit();
            proof {
                let next = segments@.subrange(0, i + 1);
                assert(next.drop_last() =~= segments@.subrange(0, i as int));
            }
            i = i + 1;
        }
        proof {
            assert(segments@.subrange(0, i as int) =~= segments@);
        }
        Self { state }
    }

    /// The character of a decimal digit.
    pub fn try_from_u8(value: u8) -> (r: Result<Self, Char7DPTryFromError>)
        ensures
            value <= 9 ==> (r matches Ok(c) && c@ == digit_bits(value as int)),
            value > 9 ==> r == Err::<Self, _>(Char7DPTryFromError::UnsupportedValue),
    {
        let state: u8 = match value {
            0 => 0x3f,
            1 => 0x06,
            2 => 0x5b,
            3 => 0x4f,
            4 => 0x66,
            5 => 0x6d,
            6 => 0x7d,
            7 => 0x07,
            8 => 0x7f,
            9 => 0x6f,
            _ => {
                return Err(Char7DPTryFromError::UnsupportedValue);
            },
        };
        Ok(Self { state })
    }

    /// The character of a supported text character (see `char_bits`).
    pub fn try_from_char(value: char) -> (r: Result<Self, Char7DPTryFromError>)
        ensures
            match char_bits(value) {
                Some(b) => (r matches Ok(c) && c@ == b),
                None => r == Err::<Self, _>(Char7DPTryFromError::UnsupportedValue),
            },
    {
        let state: u8 = match value {
            ' ' => 0,
            '0' => 0x3f,
            '1' => 0x06,
            '2' => 0x5b,
            '3' => 0x4f,
            '4' => 0x66,
            '5' => 0x6d,
            '6' => 0x7d,
            '7' => 0x07,
            '8' => 0x7f,
            '9' => 0x6f,
            '.' => 0x80,
            '-' => 0x40,
            '_' => 0x08,
            '=' => 0x48,
            _ => {
                return Err(Char7DPTryFromError::UnsupportedValue);
            },
        };
        Ok(Self { state })
    }

    /// The characters of an array of text characters, position by position;
    /// an error if any of them is unsupported.
    pub fn try_from_chars<const N: usize>(value: &[char; N]) -> (r: Result<
        [Self; N],
        Char7DPTryFromError,
    >)
        ensures
            (forall|i: int| 0 <= i < N ==> char_bits(#[trigger] value@[i]) is Some) ==> (
            r matches Ok(s) && forall|i: int|
                0 <= i < N ==> Some(#[trigger] s@[i]@) == char_bits(value@[i])),
            (exists|i: int| 0 <= i < N && char_bits(#[trigger] value@[i]) is None) ==> r == Err::<
                [Self; N],
                _,
            >(Char7DPTryFromError::UnsupportedValue),
    {
        let mut s: [Self; N] = [Self::space();N];
        let mut i: usize = 0;
        while i < N
            invariant
                i <= N,
                s@.len() == N,
                forall|j: int| 0 <= j < i ==> char_bits(#[trigger] value@[j]) is Some,
                forall|j: int| 0 <= j < i ==> Some(#[trigger] s@[j]@) == char_bits(value@[j]),
            decreases N - i,
        {
            match Self::try_from_char(value[i]) {
                Ok(c) => {
                    s[i] = c;
                },
                Err(_) => {
                    return Err(Char7DPTryFromError::UnsupportedValue);
                },
            }
            i = i + 1;
        }
        Ok(s)
    }

    /// The characters of a text, each '.' that follows a supported character
    /// merged into it as its decimal point; an error if any is unsupported.
    pub fn try_from_str(value: &str) -> (r: Result<Vec<Char7DP>, Char7DPTryFromError>)
        ensures
            match text_bits(value@) {
                Some(t) => (r matches Ok(v) && bits_of(v@) == t),
                None => r == Err::<Vec<Char7DP>, _>(Char7DPTryFromError::UnsupportedValue),
            },
    {
        let n = value.unicode_len();
        let mut s: Vec<Char7DP> = Vec::new();
        let mut i: usize = 0;
        proof {
            assert(value@.skip(0) =~= value@);
            assert(bits_of(s@) =~= Seq::<u8>::empty());
            match text_bits(value@) {
                Some(t) => assert(Seq::<u8>::empty() + t =~= t),
                None => {},
            }
        }
        while i < n
            invariant
                i <= n,
                n == value@.len(),
                text_bits(value@) == prepend(bits_of(s@), text_bits_from(value@, i as int)),
            decreases n - i,
        {
            let ghost rest = value@.skip(i as int);
            let ghost before = bits_of(s@);
            assert(rest[0] == value@[i as int]);
            match Self::try_from_char(value.get_char(i)) {
                Ok(c) => {
                    if n - i > 1 && value.get_char(i + 1) == '.' {
                        s.push(c.with_dp());
                        proof {
                            assert(rest[1] == value@[i + 1]);
                            assert(rest.skip(2) =~= value@.skip(i + 2));
                            assert(bits_of(s@) =~= before + seq![c@ | 0x80]);
                        }
                        i = i + 2;
                    } else {
                        s.push(c);
                        proof {
                            assert(rest.skip(1) =~= value@.skip(i + 1));
                            assert(bits_of(s@) =~= before + seq![c@]);
                        }
                        i = i + 1;
                    }
                },
                Err(_) => {
                    return Err(Char7DPTryFromError::UnsupportedValue);
                },
            }
        }
        proof {
            assert(value@.skip(i as int) =~= Seq::<char>::empty());
        }
        Ok(s)
    }
}

impl TryFrom<u8> for Char7DP {
    type Error = Char7DPTryFromError;

    /// As `try_from_u8`.
    fn try_from(value: u8) -> (r: Result<Self, Self::Error>) {
        Self::try_from_u8(value)
    }
}

impl vstd::std_specs::convert::TryFromSpecImpl<u8> for Char7DP {
    open spec fn obeys_try_from_spec() -> bool {
        true
    }

    closed spec fn try_from_spec(v: u8) -> Result<Self, Self::Error> {
        if v <= 9 {
            Ok(Char7DP { state: digit_bits(v as int) })
        } else {
            Err(Char7DPTryFromError::UnsupportedValue)
        }
    }
}

impl TryFrom<char> for Char7DP {
    type Error = Char7DPTryFromError;

    /// As `try_from_char`.
    fn try_from(value: char) -> (r: Result<Self, Self::Error>) {
        Self::try_from_char(value)
    }
}

impl vstd::std_specs::convert::TryFromSpecImpl<char> for Char7DP {
    open spec fn obeys_try_from_spec() -> bool {
        true
    }

    closed spec fn try_from_spec(v: char) -> Result<Self, Self::Error> {
        match char_bits(v) {
            Some(b) => Ok(Char7DP { state: b }),
            None => Err(Char7DPTryFromError::UnsupportedValue),
        }
    }
}

} // verus!
