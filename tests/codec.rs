use app_core::char7dp::{Char7DP, Char7DPTryFromError, Segment7DP};
use app_core::char7dp_seq::Char7DPSeq;
use app_core::char7dp::Segment7DP::{A, B, C, D, DP, E, F, G};

#[test]
fn render_digits_dp() {
    let seg_chars: Vec<Char7DP> = Char7DP::try_from_str("0.123456789").unwrap();
    let s = Char7DP::render(&seg_chars);

    let s_ref = r#"
 --        --   --        --   --   --   --   -- 
|  |    |    |    | |  | |    |       | |  | |  |
           --   --   --   --   --        --   -- 
|  |    | |       |    |    | |  |    | |  |    |
 -- .      --   --        --   --        --   -- 
"#
    .trim_start_matches('\n');

    assert_eq!(s, s_ref);
}

#[test]
fn digits_have_their_segments() {
    let table: [(u8, &[Segment7DP]); 10] = [
        (0, &[A, B, C, D, E, F]),
        (1, &[B, C]),
        (2, &[A, B, G, E, D]),
        (3, &[A, B, G, C, D]),
        (4, &[F, G, B, C]),
        (5, &[A, F, G, C, D]),
        (6, &[A, F, E, D, C, G]),
        (7, &[A, B, C]),
        (8, &[A, B, C, D, E, F, G]),
        (9, &[G, F, A, B, C, D]),
    ];
    for (d, segs) in table.iter() {
        assert_eq!(Char7DP::try_from_u8(*d).unwrap(), Char7DP::new(segs));
        let c = char::from(b'0' + *d);
        assert_eq!(Char7DP::try_from_char(c).unwrap(), Char7DP::new(segs));
    }
    assert_eq!(Char7DP::try_from_u8(8).unwrap().state(), 0x7f);
    assert_eq!(Char7DP::try_from_u8(1).unwrap().state(), 0x06);
}

#[test]
fn unsupported_values_are_errors() {
    assert_eq!(Char7DP::try_from_u8(10), Err(Char7DPTryFromError::UnsupportedValue));
    assert_eq!(Char7DP::try_from_u8(255), Err(Char7DPTryFromError::UnsupportedValue));
    assert_eq!(Char7DP::try_from_char('a'), Err(Char7DPTryFromError::UnsupportedValue));
    assert_eq!(Char7DP::try_from_str("12a"), Err(Char7DPTryFromError::UnsupportedValue));
    assert_eq!(Char7DP::try_from_chars(&['1', 'x']), Err(Char7DPTryFromError::UnsupportedValue));
}

#[test]
fn symbols_and_space() {
    assert_eq!(Char7DP::try_from_char(' ').unwrap(), Char7DP::space());
    assert_eq!(Char7DP::try_from_char('.').unwrap(), Char7DP::new(&[DP]));
    assert_eq!(Char7DP::try_from_char('-').unwrap(), Char7DP::new(&[G]));
    assert_eq!(Char7DP::try_from_char('_').unwrap(), Char7DP::new(&[D]));
    assert_eq!(Char7DP::try_from_char('=').unwrap().state(), 0x48);
}

#[test]
fn points_merge_into_the_previous_character() {
    let v = Char7DP::try_from_str("1.2..").unwrap();
    assert_eq!(v.len(), 3);
    assert_eq!(v[0], Char7DP::try_from_u8(1).unwrap().with_dp());
    assert_eq!(v[1], Char7DP::try_from_u8(2).unwrap().with_dp());
    assert_eq!(v[2].state(), 0x80);
    assert_eq!(Char7DP::try_from_str("").unwrap(), Vec::new());
    assert_eq!(Char7DP::try_from_str(".").unwrap(), vec![Char7DP::new(&[Segment7DP::DP])]);
}

#[test]
fn chars_convert_position_by_position() {
    let a = Char7DP::try_from_chars(&['0', ' ', '-']).unwrap();
    assert_eq!(a[0].state(), 0x3f);
    assert_eq!(a[1].state(), 0);
    assert_eq!(a[2].state(), 0x40);
}

#[test]
fn segments_and_decimal_point() {
    let mut c = Char7DP::try_from_u8(7).unwrap();
    assert!(c.is_set(Segment7DP::A));
    assert!(!c.is_set(Segment7DP::G));
    assert!(!c.is_set(Segment7DP::DP));
    c.set_dp(true);
    assert!(c.is_set(Segment7DP::DP));
    assert_eq!(c.state(), 0x87);
    c.set_dp(false);
    assert_eq!(c.state(), 0x07);
    assert_eq!(Char7DP::new(&[Segment7DP::A, Segment7DP::A]).state(), 0x01);
}

#[test]
fn render_blank_and_single() {
    assert_eq!(Char7DP::render(&[]), "\n\n\n\n\n");
    let one = [Char7DP::try_from_u8(1).unwrap()];
    assert_eq!(Char7DP::render(&one), "    \n   |\n    \n   |\n    \n");
}

#[test]
fn set_dec_fills_least_significant_first() {
    let d = |n: u8| Char7DP::try_from_u8(n).unwrap();
    let mut s = Char7DPSeq::new(vec![Char7DP::space(); 4]);
    s.set_dec(42, false);
    assert_eq!(s.len(), 4);
    assert_eq!(s.get(0), d(2));
    assert_eq!(s.get(1), d(4));
    assert_eq!(s.get(2), Char7DP::space());
    assert_eq!(s.get(3), Char7DP::space());
    s.set_dec(7, true);
    assert_eq!(s.get(0), d(7));
    assert_eq!(s.get(1), d(0));
    assert_eq!(s.get(3), d(0));
    s.set_dec(0, false);
    assert_eq!(s.get(0), d(0));
    assert_eq!(s.get(1), Char7DP::space());
    s.set_dec(123456, false);
    assert_eq!(s.get(0), d(6));
    assert_eq!(s.get(3), d(3));
}

#[test]
fn try_from_matches_the_named_conversions() {
    assert_eq!(Char7DP::try_from(3u8), Char7DP::try_from_u8(3));
    assert_eq!(Char7DP::try_from(12u8), Err(Char7DPTryFromError::UnsupportedValue));
    assert_eq!(Char7DP::try_from('='), Char7DP::try_from_char('='));
    assert_eq!(Char7DP::try_from('x'), Err(Char7DPTryFromError::UnsupportedValue));
}
