//! What the tasks hand to the hardware.
use vstd::prelude::*;
use crate::charger::ChargerAction;

verus! {

/// One command for the hardware.
#[derive(PartialEq, Eq, Structural, Copy, Clone, Debug)]
pub enum Action {
    /// Drive a display position.
    Display(crate::disp::Action),
    /// Switch the charger.
    Battery(ChargerAction),
}

} // verus!
