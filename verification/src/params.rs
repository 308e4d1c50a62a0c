//! The tunable configuration read by the simulation each tick.

use vstd::prelude::*;
use crate::fixed::{iabs, SCALE};
use crate::constants::{AMOUNT_MAX, FUEL_AMOUNT_MAX, OXYGEN_MAX, SPEED_MAX, WIND_MAX};

verus! {

/// Slider and toggle values, read-only to the simulation. Numeric fields are
/// fixed-point; the configuration layer clamps each slider to its range
/// before the values reach a tick (see [`SimulationParams::valid`]).
#[derive(Clone, Copy)]
pub struct SimulationParams {
    /// How much fuel feeds the fire; drives the heat spawn count.
    pub fuel_amount: i64,
    /// Lifespan budget of a heat particle; longer oxygen, taller flame.
    pub oxygen: i64,
    /// Lateral acceleration applied to heat and embers.
    pub wind: i64,
    /// Scales elapsed time into the effective time step.
    pub simulation_speed: i64,
    pub enable_sparks: bool,
    pub enable_smoke: bool,
    /// Ember intensity slider.
    pub ember_amount: i64,
    /// Smoke intensity slider.
    pub smoke_amount: i64,
    /// Purely cosmetic flicker toggle; the renderer reads it, a tick does not.
    pub flicker: bool,
}

impl SimulationParams {
    /// The ranges the configuration layer guarantees. A zero oxygen budget is
    /// excluded: it would leave the heat size ratio undefined.
    pub open spec fn valid(self) -> bool {
        &&& 0 <= self.fuel_amount <= FUEL_AMOUNT_MAX
        &&& 0 < self.oxygen <= OXYGEN_MAX
        &&& iabs(self.wind as int) <= WIND_MAX
        &&& 0 <= self.simulation_speed <= SPEED_MAX
        &&& 0 <= self.ember_amount <= AMOUNT_MAX
        &&& 0 <= self.smoke_amount <= AMOUNT_MAX
    }
}

impl Default for SimulationParams {
    /// The configuration the application starts from: a medium fire with
    /// sparks and smoke switched on.
    fn default() -> (c: SimulationParams)
        ensures
            c.valid(),
            c.fuel_amount == 50 * SCALE,
            c.oxygen == 10 * SCALE,
            c.wind == 0,
            c.simulation_speed == SCALE,
            c.enable_sparks,
            c.enable_smoke,
            c.ember_amount == 50 * SCALE,
            c.smoke_amount == 50 * SCALE,
            !c.flicker,
    {
        SimulationParams {
            fuel_amount: 50 * SCALE,
            oxygen: 10 * SCALE,
            wind: 0,
            simulation_speed: SCALE,
            enable_sparks: true,
            enable_smoke: true,
            ember_amount: 50 * SCALE,
            smoke_amount: 50 * SCALE,
            flicker: false,
        }
    }
}

} // verus!
