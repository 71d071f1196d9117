use app_core::action::Action;
use app_core::charger::{BatteryState, Charger, ChargerAction, ChargerState};
use app_core::common::Duration;
use app_core::state::State;
use app_core::task::NextRun;

fn sample(state: &mut State, ext_power: bool, v1: u32, v2: u32) {
    state.ext_power = ext_power;
    state.bat_voltage = (v1, v2);
}

fn period() -> NextRun {
    NextRun::After(Duration::from_ticks(5_000_000))
}

#[test]
fn charge_cycle() {
    let mut c = Charger::default();
    let mut s = State::default();
    assert_eq!(c.state(), ChargerState::Hold);

    sample(&mut s, true, 1_200_000, 1_210_000);
    let (a, next) = c.step(&mut s);
    assert_eq!(a, Some(Action::Battery(ChargerAction::Charge)));
    assert_eq!(next, period());
    assert_eq!(c.state(), ChargerState::Charge);
    assert_eq!(s.bat_level, BatteryState::BelowNominal);

    for v in [1_250_000, 1_300_000, 1_340_000] {
        sample(&mut s, true, v, v);
        assert_eq!(c.step(&mut s).0, None);
        assert_eq!(c.state(), ChargerState::Charge);
        assert_eq!(s.bat_level, BatteryState::Charging);
    }

    // One millivolt below the peak is noise.
    sample(&mut s, true, 1_339_000, 1_340_000);
    assert_eq!(c.step(&mut s).0, None);
    assert_eq!(c.state(), ChargerState::Charge);

    // Two millivolts below the peak ends the charge.
    sample(&mut s, true, 1_340_000, 1_338_000);
    assert_eq!(c.step(&mut s).0, Some(Action::Battery(ChargerAction::Hold)));
    assert_eq!(c.state(), ChargerState::Charged);

    sample(&mut s, true, 1_400_000, 1_400_000);
    assert_eq!(c.step(&mut s).0, None);
    assert_eq!(s.bat_level, BatteryState::Charged);

    sample(&mut s, false, 1_400_000, 1_400_000);
    assert_eq!(c.step(&mut s).0, Some(Action::Battery(ChargerAction::Hold)));
    assert_eq!(c.state(), ChargerState::Hold);
}

#[test]
fn hold_does_not_start_on_high_cells_or_without_power() {
    let mut c = Charger::default();
    let mut s = State::default();
    sample(&mut s, true, 1_350_000, 1_200_000);
    assert_eq!(c.step(&mut s).0, None);
    assert_eq!(c.state(), ChargerState::Hold);
    assert_eq!(s.bat_level, BatteryState::BelowNominal);
    sample(&mut s, false, 1_000_000, 1_000_000);
    assert_eq!(c.step(&mut s), (None, period()));
    assert_eq!(c.state(), ChargerState::Hold);
}

#[test]
fn battery_level_bands() {
    let mut c = Charger::default();
    let mut s = State::default();
    sample(&mut s, false, 1_250_000, 1_250_000);
    c.step(&mut s);
    assert_eq!(s.bat_level, BatteryState::AboveNominal);
    sample(&mut s, false, 1_249_999, 1_300_000);
    c.step(&mut s);
    assert_eq!(s.bat_level, BatteryState::BelowNominal);
    sample(&mut s, false, 900_000, 900_000);
    c.step(&mut s);
    assert_eq!(s.bat_level, BatteryState::BelowNominal);
    sample(&mut s, false, 899_999, 1_300_000);
    c.step(&mut s);
    assert_eq!(s.bat_level, BatteryState::Critical);
}

#[test]
fn saturated_reading_ends_the_charge() {
    let mut c = Charger::default();
    let mut s = State::default();
    sample(&mut s, true, 1_300_000, 1_300_000);
    c.step(&mut s);
    assert_eq!(c.state(), ChargerState::Charge);
    sample(&mut s, true, 1_500_000, 1_490_000);
    assert_eq!(c.step(&mut s).0, Some(Action::Battery(ChargerAction::Hold)));
    assert_eq!(c.state(), ChargerState::Charged);
}

#[test]
fn charged_restarts_on_sag_and_power_loss_holds() {
    let mut c = Charger::default();
    let mut s = State::default();
    sample(&mut s, true, 1_300_000, 1_300_000);
    c.step(&mut s);
    sample(&mut s, true, 1_290_000, 1_300_000);
    c.step(&mut s);
    assert_eq!(c.state(), ChargerState::Charged);
    sample(&mut s, true, 1_349_999, 1_400_000);
    assert_eq!(c.step(&mut s).0, Some(Action::Battery(ChargerAction::Charge)));
    assert_eq!(c.state(), ChargerState::Charge);
    sample(&mut s, false, 1_349_999, 1_400_000);
    assert_eq!(c.step(&mut s).0, Some(Action::Battery(ChargerAction::Hold)));
    assert_eq!(c.state(), ChargerState::Hold);
    // The level stays as charging left it until the next run in Hold.
    assert_eq!(s.bat_level, BatteryState::Charging);
}
