use app_core::action::Action;
use app_core::char7dp::Char7DP;
use app_core::charger::BatteryState;
use app_core::common::Duration;
use app_core::disp::{self, Disp};
use app_core::display::Display;
use app_core::state::{State, RTC};
use app_core::task::NextRun;

fn digit(d: u8) -> Char7DP {
    Char7DP::try_from_u8(d).unwrap()
}

fn run(display: &mut Display, state: &mut State) -> (Char7DP, usize, u64) {
    match display.step(state) {
        (Some(Action::Display(disp::Action::Render(c, i))), NextRun::After(d)) => (c, i, d.ticks()),
        other => panic!("unexpected {:?}", other),
    }
}

fn state_at(hour: u8, minute: u8, second: u8, level: BatteryState) -> State {
    let mut s = State::default();
    s.rtc = RTC { hour, minute, second };
    s.bat_level = level;
    s
}

#[test]
fn full_duty_cycle_shows_time_two_calls_per_position() {
    let mut d = Display::default();
    let mut s = state_at(12, 34, 56, BatteryState::AboveNominal);
    let face = [digit(4), digit(3), digit(2).with_dp(), digit(1)];
    for round in 0..2 {
        for i in 0..4 {
            assert_eq!(run(&mut d, &mut s), (face[i], i, 2_000), "round {round}");
            assert_eq!(run(&mut d, &mut s), (Char7DP::space(), i, 0), "round {round}");
        }
    }
}

#[test]
fn odd_second_clears_the_colon_point_and_hours_drop_leading_zero() {
    let mut d = Display::default();
    let mut s = state_at(7, 5, 3, BatteryState::Charged);
    let face = [digit(5), digit(0), digit(7), Char7DP::space()];
    for i in 0..4 {
        assert_eq!(run(&mut d, &mut s).0, face[i]);
        run(&mut d, &mut s);
    }
}

#[test]
fn critical_level_blanks_all_but_a_blinking_point() {
    let mut d = Display::default();
    let mut s = state_at(12, 34, 10, BatteryState::Critical);
    assert_eq!(run(&mut d, &mut s).0, Char7DP::space().with_dp());
    run(&mut d, &mut s);
    assert_eq!(run(&mut d, &mut s).0, Char7DP::space());
    let mut d = Display::default();
    s.rtc.second = 11;
    assert_eq!(run(&mut d, &mut s).0, Char7DP::space());
}

#[test]
fn charging_runs_the_point_round_the_positions() {
    let mut d = Display::default();
    let mut s = state_at(12, 34, 7, BatteryState::Charging);
    let face = [digit(4), digit(3), digit(2), digit(1).with_dp()];
    for i in 0..4 {
        assert_eq!(run(&mut d, &mut s).0, face[i]);
        run(&mut d, &mut s);
    }
}

#[test]
fn duty_cycle_splits_the_period() {
    let mut m: Disp<3> = Disp::new(Duration::from_ticks(2_000), 250);
    m.set_chars([digit(1), digit(2), digit(3)]);
    m.set_chars_at(1, &[digit(9)]);
    let expected = [digit(1), digit(9), digit(3)];
    for i in 0..3 {
        let (disp::Action::Render(c, p), delay) = m.run();
        assert_eq!((c, p, delay.ticks()), (expected[i], i, 500));
        let (disp::Action::Render(c, p), delay) = m.run();
        assert_eq!((c, p, delay.ticks()), (Char7DP::space(), i, 1_500));
    }
    let mut z: Disp<1> = Disp::new(Duration::from_ticks(u64::MAX), 0);
    let (_, delay) = z.run();
    assert_eq!(delay.ticks(), 0);
    let (_, delay) = z.run();
    assert_eq!(delay.ticks(), u64::MAX);
}
