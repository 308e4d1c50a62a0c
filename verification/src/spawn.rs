//! The spawn policy: how many particles of each kind a tick injects, and the
//! state each one starts from. Counts are deterministic functions of the
//! configuration; positions and velocities take their random draws as
//! arguments, so everything here is exact.

use vstd::prelude::*;
use crate::fixed::{iabs, tdiv, fx_div, lemma_mul_bounds};
use crate::constants::{
    AMOUNT_MAX, EMBER_LIFE_BONUS, EMBER_SIZE, EMBER_SPAWN_DIVISOR, EMBER_TEMP, EMBER_VX_RANGE,
    EMBER_VY_MIN, EMBER_VY_MAX, FUEL_AMOUNT_MAX, FUEL_BASE_OFFSET, FUEL_LIFE, FUEL_SIZE,
    FUEL_TEMP, HEAT_BASE_SIZE, HEAT_SPAWN_DIVISOR, HEAT_TEMP_FACTOR, HEAT_VX_RANGE, HEAT_VY_MIN,
    HEAT_VY_MAX, INITIAL_FUEL_PARTICLES, MAX_HEIGHT, MAX_WIDTH, OXYGEN_MAX,
    SMOKE_LIFE, SMOKE_SIZE, SMOKE_TEMP, SMOKE_VX_RANGE, SMOKE_VY_MIN, SMOKE_VY_MAX,
    SMOKE_X_BASE, SMOKE_Y_BASE, SPAWN_BASE_OFFSET,
};
use crate::params::SimulationParams;
use crate::particle::{Particle, ParticleModel, ParticleType, particle_inv};

verus! {

/// Heat particles injected per tick: the fuel amount floor-divided by the
/// spawn divisor, and never less than one.
pub open spec fn heat_count_spec(c: SimulationParams) -> int {
    let n = tdiv(c.fuel_amount as int, HEAT_SPAWN_DIVISOR as int);
    if n < 1 {
        1
    } else {
        n
    }
}

/// Embers injected per tick while sparks are enabled: fuel, oxygen and the
/// ember amount multiplied, normalized by the spawn divisor, and never less
/// than one. More fuel and more oxygen mean more sparks.
pub open spec fn ember_count_spec(c: SimulationParams) -> int {
    let n = tdiv(
        c.fuel_amount as int * c.oxygen as int * c.ember_amount as int,
        EMBER_SPAWN_DIVISOR as int,
    );
    if n < 1 {
        1
    } else {
        n
    }
}

/// How many heat particles this tick owes the fire.
pub fn heat_spawn_count(c: &SimulationParams) -> (n: usize)
    requires
        c.valid(),
    ensures
        n == heat_count_spec(*c),
        1 <= n <= 100,
{
    let k = fx_div(c.fuel_amount, HEAT_SPAWN_DIVISOR);
    if k < 1 {
        1
    } else {
        k as usize
    }
}

/// How many embers this tick owes the fire while sparks are enabled.
pub fn ember_spawn_count(c: &SimulationParams) -> (n: usize)
    requires
        c.valid(),
    ensures
        n == ember_count_spec(*c),
        1 <= n <= 300,
{
    proof {
        lemma_mul_bounds(
            c.fuel_amount as int,
            FUEL_AMOUNT_MAX as int,
            c.oxygen as int,
            OXYGEN_MAX as int,
        );
        lemma_mul_bounds(
            c.fuel_amount as int * c.oxygen as int,
            FUEL_AMOUNT_MAX as int * OXYGEN_MAX as int,
            c.ember_amount as int,
            AMOUNT_MAX as int,
        );
    }
    let base = c.fuel_amount * c.oxygen;
    let scaled = base * c.ember_amount;
    let k = fx_div(scaled, EMBER_SPAWN_DIVISOR);
    if k < 1 {
        1
    } else {
        k as usize
    }
}

/// The fuel particle seeded at slot `i` of the base row: fuel is spaced
/// evenly across the width, pinned just above the bottom edge, and never
/// moves.
pub open spec fn fuel_at(i: int, width: int, height: int) -> ParticleModel {
    ParticleModel {
        x: tdiv(i * width, INITIAL_FUEL_PARTICLES as int),
        y: height - FUEL_BASE_OFFSET,
        vx: 0,
        vy: 0,
        temp: FUEL_TEMP as int,
        lifetime: FUEL_LIFE as int,
        kind: ParticleType::Fuel,
        size: FUEL_SIZE as int,
    }
}

/// Build the fuel particle for slot `i` of the base row.
pub fn make_fuel(i: usize, width: i64, height: i64) -> (p: Particle)
    requires
        i < INITIAL_FUEL_PARTICLES,
        0 <= width <= MAX_WIDTH,
        0 <= height <= MAX_HEIGHT,
    ensures
        p@ == fuel_at(i as int, width as int, height as int),
        particle_inv(p@, height as int),
{
    proof {
        lemma_mul_bounds(i as int, INITIAL_FUEL_PARTICLES as int, width as int, MAX_WIDTH as int);
    }
    let x = fx_div((i as i64) * width, INITIAL_FUEL_PARTICLES as i64);
    Particle {
        x,
        y: height - FUEL_BASE_OFFSET,
        vx: 0,
        vy: 0,
        temp: FUEL_TEMP,
        lifetime: FUEL_LIFE,
        kind: ParticleType::Fuel,
        size: FUEL_SIZE,
    }
}

/// What every heat particle spawned under configuration `c` looks like: a
/// random column at the spawn base, lateral and upward velocity inside the
/// fixed ranges, a life budget from the oxygen slider and a temperature
/// proportional to the simulation speed.
pub open spec fn is_spawned_heat(
    m: ParticleModel,
    c: SimulationParams,
    width: int,
    height: int,
) -> bool {
    &&& m.kind == ParticleType::Heat
    &&& 0 <= m.x <= width
    &&& m.y == height - SPAWN_BASE_OFFSET
    &&& iabs(m.vx) <= HEAT_VX_RANGE
    &&& HEAT_VY_MIN <= m.vy <= HEAT_VY_MAX
    &&& m.temp == HEAT_TEMP_FACTOR * c.simulation_speed
    &&& m.lifetime == c.oxygen
    &&& m.size == HEAT_BASE_SIZE
}

/// Build a heat particle from its three draws.
pub fn make_heat(
    x: i64,
    vx: i64,
    vy: i64,
    c: &SimulationParams,
    width: i64,
    height: i64,
) -> (p: Particle)
    requires
        c.valid(),
        0 <= width <= MAX_WIDTH,
        0 <= height <= MAX_HEIGHT,
        0 <= x <= width,
        iabs(x as int) <= MAX_WIDTH,
        iabs(vx as int) <= HEAT_VX_RANGE,
        HEAT_VY_MIN <= vy <= HEAT_VY_MAX,
    ensures
        p@ == (ParticleModel {
            x: x as int,
            y: height - SPAWN_BASE_OFFSET,
            vx: vx as int,
            vy: vy as int,
            temp: HEAT_TEMP_FACTOR * c.simulation_speed,
            lifetime: c.oxygen as int,
            kind: ParticleType::Heat,
            size: HEAT_BASE_SIZE as int,
        }),
        is_spawned_heat(p@, *c, width as int, height as int),
        particle_inv(p@, height as int),
{
    Particle {
        x,
        y: height - SPAWN_BASE_OFFSET,
        vx,
        vy,
        temp: HEAT_TEMP_FACTOR * c.simulation_speed,
        lifetime: c.oxygen,
        kind: ParticleType::Heat,
        size: HEAT_BASE_SIZE,
    }
}

/// What every smoke particle looks like at birth, wherever it is born: a
/// slight lateral drift, a steady rise, and a fixed life, temperature and
/// size. Smoke born from a dying heat particle starts at that particle's
/// final position; ambient smoke starts at the spawn base.
pub open spec fn is_spawned_smoke(m: ParticleModel) -> bool {
    &&& m.kind == ParticleType::Smoke
    &&& iabs(m.vx) <= SMOKE_VX_RANGE
    &&& SMOKE_VY_MIN <= m.vy <= SMOKE_VY_MAX
    &&& m.temp == SMOKE_TEMP
    &&& m.lifetime == SMOKE_LIFE
    &&& m.size == SMOKE_SIZE
}

/// Build a smoke particle at the given position from its two velocity draws.
pub fn make_smoke(x: i64, y: i64, vx: i64, vy: i64) -> (p: Particle)
    requires
        iabs(x as int) <= SMOKE_X_BASE,
        iabs(y as int) <= SMOKE_Y_BASE,
        iabs(vx as int) <= SMOKE_VX_RANGE,
        SMOKE_VY_MIN <= vy <= SMOKE_VY_MAX,
    ensures
        p@ == (ParticleModel {
            x: x as int,
            y: y as int,
            vx: vx as int,
            vy: vy as int,
            temp: SMOKE_TEMP as int,
            lifetime: SMOKE_LIFE as int,
            kind: ParticleType::Smoke,
            size: SMOKE_SIZE as int,
        }),
        is_spawned_smoke(p@),
        forall|h: int| particle_inv(p@, h),
{
    Particle {
        x,
        y,
        vx,
        vy,
        temp: SMOKE_TEMP,
        lifetime: SMOKE_LIFE,
        kind: ParticleType::Smoke,
        size: SMOKE_SIZE,
    }
}

/// What every ember spawned under configuration `c` looks like: a wider
/// velocity spread and a higher launch speed than heat, and a life of half
/// the oxygen budget plus a floor, so embers outlive a minimum visible arc.
pub open spec fn is_spawned_ember(
    m: ParticleModel,
    c: SimulationParams,
    width: int,
    height: int,
) -> bool {
    &&& m.kind == ParticleType::Ember
    &&& 0 <= m.x <= width
    &&& m.y == height - SPAWN_BASE_OFFSET
    &&& iabs(m.vx) <= EMBER_VX_RANGE
    &&& EMBER_VY_MIN <= m.vy <= EMBER_VY_MAX
    &&& m.temp == EMBER_TEMP
    &&& m.lifetime == tdiv(c.oxygen as int, 2) + EMBER_LIFE_BONUS
    &&& m.size == EMBER_SIZE
}

/// Build an ember from its three draws.
pub fn make_ember(
    x: i64,
    vx: i64,
    vy: i64,
    c: &SimulationParams,
    width: i64,
    height: i64,
) -> (p: Particle)
    requires
        c.valid(),
        0 <= width <= MAX_WIDTH,
        0 <= height <= MAX_HEIGHT,
        0 <= x <= width,
        iabs(x as int) <= MAX_WIDTH,
        iabs(vx as int) <= EMBER_VX_RANGE,
        EMBER_VY_MIN <= vy <= EMBER_VY_MAX,
    ensures
        p@ == (ParticleModel {
            x: x as int,
            y: height - SPAWN_BASE_OFFSET,
            vx: vx as int,
            vy: vy as int,
            temp: EMBER_TEMP as int,
            lifetime: tdiv(c.oxygen as int, 2) + EMBER_LIFE_BONUS,
            kind: ParticleType::Ember,
            size: EMBER_SIZE as int,
        }),
        is_spawned_ember(p@, *c, width as int, height as int),
        particle_inv(p@, height as int),
{
    let half_life = fx_div(c.oxygen, 2);
    Particle {
        x,
        y: height - SPAWN_BASE_OFFSET,
        vx,
        vy,
        temp: EMBER_TEMP,
        lifetime: half_life + EMBER_LIFE_BONUS,
        kind: ParticleType::Ember,
        size: EMBER_SIZE,
    }
}

} // verus!
