//! Plain value types shared by the whole pipeline.

use vstd::prelude::*;

verus! {

/// The operating mode of the headband. Impedance can be read only in
/// `Calibration`, the signal only in `Extraction`.
#[derive(Debug, PartialEq, Eq, Clone, Copy, Structural)]
pub enum WorkMode {
    Initialized,
    Calibration,
    Extraction,
}

/// The two states a bulb can be commanded into.
#[derive(Debug, PartialEq, Eq, Clone, Copy, Structural)]
pub enum BulbState {
    BulbOn,
    BulbOff,
}

/// The bulb state that the flag of a light command stands for.
pub open spec fn spec_bulb_state_for(is_light_on: bool) -> BulbState {
    if is_light_on {
        BulbState::BulbOn
    } else {
        BulbState::BulbOff
    }
}

/// The bulb state that the flag of a light command stands for.
pub fn bulb_state_for(is_light_on: bool) -> (state: BulbState)
    ensures
        state == spec_bulb_state_for(is_light_on),
{
    if is_light_on {
        BulbState::BulbOn
    } else {
        BulbState::BulbOff
    }
}

} // verus!
