//! Tunable constants of the simulation, all in fixed-point steps
//! (see [`crate::fixed::SCALE`]) unless noted otherwise.

use vstd::prelude::*;
use crate::fixed::SCALE;

verus! {

/// Fuel particles seeded along the base at start-up (a plain count).
pub const INITIAL_FUEL_PARTICLES: usize = 50;

/// Default simulation area.
pub const WINDOW_WIDTH: i64 = 800 * SCALE;
pub const WINDOW_HEIGHT: i64 = 600 * SCALE;

/// Largest simulation area accepted; keeps every position in `i64` range.
pub const MAX_WIDTH: i64 = 10000 * SCALE;
pub const MAX_HEIGHT: i64 = 10000 * SCALE;

/// Life drains at this many life units per second of effective time.
pub const AGE_RATE: i64 = 10;

/// Longest frame interval accepted by a tick: ten seconds.
pub const DT_MAX: i64 = 10 * SCALE;

// Accepted configuration ranges; the configuration layer clamps its
// sliders to these before the values reach the simulation.
pub const FUEL_AMOUNT_MAX: i64 = 1000 * SCALE;
pub const OXYGEN_MAX: i64 = 300 * SCALE;
pub const WIND_MAX: i64 = 100 * SCALE;
pub const SPEED_MAX: i64 = 15 * SCALE;
pub const AMOUNT_MAX: i64 = 100 * SCALE;

/// Largest effective time step: `DT_MAX` scaled by `SPEED_MAX`.
pub const DT_EFF_MAX: i64 = 150 * SCALE;

/// Fuel sits this far above the bottom edge; fresh spawns a little higher.
pub const FUEL_BASE_OFFSET: i64 = 10 * SCALE;
pub const SPAWN_BASE_OFFSET: i64 = 15 * SCALE;

// Fuel particles.
pub const FUEL_LIFE: i64 = 300 * SCALE;
pub const FUEL_TEMP: i64 = 20 * SCALE;
pub const FUEL_SIZE: i64 = 8 * SCALE;

// Heat particles.
pub const HEAT_BASE_SIZE: i64 = 18 * SCALE;
pub const HEAT_MIN_SIZE: i64 = 4 * SCALE;
/// Spawn temperature of heat is the simulation speed times this factor.
pub const HEAT_TEMP_FACTOR: i64 = 100;
pub const HEAT_VX_RANGE: i64 = 10 * SCALE;
pub const HEAT_VY_MIN: i64 = -40 * SCALE;
pub const HEAT_VY_MAX: i64 = -10 * SCALE;
/// One heat particle is spawned per tick for each ten units of fuel.
pub const HEAT_SPAWN_DIVISOR: i64 = 10 * SCALE;

// Smoke particles.
pub const SMOKE_LIFE: i64 = 64 * SCALE;
pub const SMOKE_TEMP: i64 = 50 * SCALE;
pub const SMOKE_SIZE: i64 = 4 * SCALE;
/// Smoke grows by this many size units per second of effective time.
pub const SMOKE_GROWTH_RATE: i64 = 2;
pub const SMOKE_VX_RANGE: i64 = 5 * SCALE;
pub const SMOKE_VY_MIN: i64 = -50 * SCALE;
pub const SMOKE_VY_MAX: i64 = -20 * SCALE;
/// Ambient smoke particles injected per tick while smoke is enabled.
pub const SMOKE_SPAWN_COUNT: usize = 1;

// Ember particles.
pub const EMBER_TEMP: i64 = 120 * SCALE;
pub const EMBER_SIZE: i64 = 3 * SCALE;
pub const EMBER_LIFE_BONUS: i64 = 10 * SCALE;
pub const EMBER_VX_RANGE: i64 = 15 * SCALE;
pub const EMBER_VY_MIN: i64 = -110 * SCALE;
pub const EMBER_VY_MAX: i64 = -40 * SCALE;
/// The ember count is fuel, oxygen and the ember amount multiplied and then
/// brought back to a plain count: the three normalizers of the ember formula
/// (one hundred, fifty and one hundred units) joined with the spawn factor of
/// five make one divisor of one hundred thousand units cubed.
pub const EMBER_SPAWN_DIVISOR: i64 = 21_600_000_000_000;

// Bounds maintained for every live particle; they keep all tick arithmetic
// inside i64. Velocity, position and temperature drift per tick is paid for
// by the life drained in the same tick, so each cap pairs a spawn-time base
// with a drift rate applied to the life already spent.

/// No particle outlives this life budget.
pub const LIFE_CAP: i64 = 300 * SCALE;
/// Largest magnitude of a lateral velocity at spawn time.
pub const VX_SPAWN_CAP: i64 = 15 * SCALE;
/// Seconds of effective time a full life budget lasts: the life cap over
/// the drain per second.
pub const LIFE_SECONDS: i64 = 30;
/// Seconds of effective time covering a full life budget plus the one tick
/// that exhausts it.
pub const LIFE_SLACK_SECONDS: i64 = 180;
/// Lateral velocity cap for a live particle: the spawn cap plus all the wind
/// a full life budget can absorb (`VX_SPAWN_CAP + WIND_MAX * LIFE_SECONDS`).
pub const VEL_CAP: i64 = 1_809_000;
/// Vertical velocity never changes after spawn.
pub const VY_CAP: i64 = 110 * SCALE;
/// Largest magnitude of a temperature at spawn time
/// (`HEAT_TEMP_FACTOR * SPEED_MAX`).
pub const TEMP_BASE_CAP: i64 = 900_000;
/// Temperature of a live particle: the spawn cap plus a full life of cooling
/// (`TEMP_BASE_CAP + SPEED_MAX * LIFE_SECONDS`).
pub const TEMP_ABS_CAP: i64 = 1_170_000;
/// Positions of fuel, heat and embers start inside the simulation area.
pub const Y_SPAWN_BASE: i64 = MAX_HEIGHT + SPAWN_BASE_OFFSET;
/// Smoke is born where a heat particle dies, which may lie as far out as a
/// full heat life of drift; smoke then pays for its own drift as usual.
/// (`MAX_WIDTH + VEL_CAP * LIFE_SLACK_SECONDS`.)
pub const SMOKE_X_BASE: i64 = 331_620_000;
/// (`Y_SPAWN_BASE + VY_CAP * LIFE_SLACK_SECONDS`.)
pub const SMOKE_Y_BASE: i64 = 17_889_000;
/// A heat particle's size is its life over its configured life budget, so a
/// budget lowered to the minimum leaves at most this size
/// (`HEAT_BASE_SIZE * LIFE_CAP`).
pub const HEAT_SIZE_CAP: i64 = 1_944_000_000;

} // verus!
