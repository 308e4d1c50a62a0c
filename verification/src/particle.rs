//! The particle data model and the per-particle update rule.
//!
//! A particle is advanced one tick at a time by explicit Euler integration:
//! positions move by velocity times the effective time step, wind accelerates
//! heat and embers laterally, and every kind drains life at a fixed rate. A
//! heat particle whose derived size falls below the minimum retires on the
//! spot and reports that a smoke particle is owed at its final position.

use vstd::prelude::*;
use crate::fixed::{SCALE, iabs, tdiv, fx_mul, fx_div};
use crate::fixed::{lemma_mul_bounds, lemma_drift_budget, lemma_le_self_mul};
use crate::constants::{
    AGE_RATE, DT_EFF_MAX, FUEL_BASE_OFFSET, FUEL_SIZE, FUEL_TEMP, HEAT_BASE_SIZE, HEAT_MIN_SIZE,
    HEAT_SIZE_CAP, LIFE_CAP, MAX_HEIGHT, MAX_WIDTH, OXYGEN_MAX, SMOKE_GROWTH_RATE, SMOKE_SIZE,
    SMOKE_X_BASE, SMOKE_Y_BASE, SPEED_MAX, TEMP_BASE_CAP, VEL_CAP, VX_SPAWN_CAP, VY_CAP, WIND_MAX,
    Y_SPAWN_BASE, EMBER_SIZE,
};

verus! {

/// The four kinds of combustion artifact. The kind of a particle never
/// changes: a lifecycle transition retires one particle and spawns another.
#[derive(Clone, Copy, PartialEq, Eq, Structural, Debug)]
pub enum ParticleType {
    Fuel,
    Heat,
    Smoke,
    Ember,
}

/// A single combustion artifact; every numeric field is fixed-point.
#[derive(Clone, Copy, PartialEq, Eq, Structural, Debug)]
pub struct Particle {
    pub x: i64,
    pub y: i64,
    pub vx: i64,
    pub vy: i64,
    pub temp: i64,
    pub lifetime: i64,
    pub kind: ParticleType,
    pub size: i64,
}

/// The mathematical model of a particle: the same record over the
/// unbounded integers.
pub struct ParticleModel {
    pub x: int,
    pub y: int,
    pub vx: int,
    pub vy: int,
    pub temp: int,
    pub lifetime: int,
    pub kind: ParticleType,
    pub size: int,
}

impl View for Particle {
    type V = ParticleModel;

    open spec fn view(&self) -> ParticleModel {
        ParticleModel {
            x: self.x as int,
            y: self.y as int,
            vx: self.vx as int,
            vy: self.vy as int,
            temp: self.temp as int,
            lifetime: self.lifetime as int,
            kind: self.kind,
            size: self.size as int,
        }
    }
}

/// The per-tick environment: the effective time step (elapsed time scaled by
/// the simulation speed) and the configuration values the update rule reads.
#[derive(Clone, Copy)]
pub struct StepEnv {
    pub dt_eff: i64,
    pub wind: i64,
    pub speed: i64,
    pub oxygen: i64,
    pub height: i64,
}

/// The ranges the environment is confined to; the tick entry point
/// establishes them from a valid configuration.
pub open spec fn env_ok(e: StepEnv) -> bool {
    &&& 0 <= e.dt_eff <= DT_EFF_MAX
    &&& iabs(e.wind as int) <= WIND_MAX
    &&& 0 <= e.speed <= SPEED_MAX
    &&& 0 < e.oxygen <= OXYGEN_MAX
    &&& 0 <= e.height <= MAX_HEIGHT
}

/// Where a particle of this kind may start out laterally: everything is
/// spawned inside the simulation area, except smoke, which is born wherever
/// a heat particle dies.
pub open spec fn x_base(k: ParticleType) -> int {
    match k {
        ParticleType::Smoke => SMOKE_X_BASE as int,
        _ => MAX_WIDTH as int,
    }
}

/// Vertical counterpart of [`x_base`].
pub open spec fn y_base(k: ParticleType) -> int {
    match k {
        ParticleType::Smoke => SMOKE_Y_BASE as int,
        _ => Y_SPAWN_BASE as int,
    }
}

/// Magnitude bounds on a live particle. Drift accumulated since spawn is
/// bounded by the life already drained, so each bound couples a spawn-time
/// base to the life the particle has left.
pub open spec fn particle_bounds(m: ParticleModel) -> bool {
    &&& 0 < m.lifetime <= LIFE_CAP
    &&& iabs(m.vy) <= VY_CAP
    &&& AGE_RATE * SCALE * iabs(m.vx) <= AGE_RATE * SCALE * VX_SPAWN_CAP + WIND_MAX * (
    LIFE_CAP - m.lifetime)
    &&& AGE_RATE * SCALE * iabs(m.x) <= AGE_RATE * SCALE * x_base(m.kind) + VEL_CAP * (
    LIFE_CAP - m.lifetime)
    &&& AGE_RATE * SCALE * iabs(m.y) <= AGE_RATE * SCALE * y_base(m.kind) + VY_CAP * (
    LIFE_CAP - m.lifetime)
    &&& AGE_RATE * SCALE * iabs(m.temp) <= AGE_RATE * SCALE * TEMP_BASE_CAP + SPEED_MAX * (
    LIFE_CAP - m.lifetime)
}

/// What each kind keeps true of itself while it lives. Fuel is pinned to the
/// fire's base and never moves or heats; smoke only grows, and its growth is
/// paid for by drained life.
pub open spec fn kind_ok(m: ParticleModel, height: int) -> bool {
    match m.kind {
        ParticleType::Fuel => {
            &&& m.vx == 0
            &&& m.vy == 0
            &&& m.temp == FUEL_TEMP
            &&& m.size == FUEL_SIZE
            &&& m.y == height - FUEL_BASE_OFFSET
        },
        ParticleType::Heat => HEAT_MIN_SIZE <= m.size <= HEAT_SIZE_CAP,
        ParticleType::Smoke => {
            &&& SMOKE_SIZE <= m.size
            &&& 5 * m.size <= 5 * SMOKE_SIZE + (LIFE_CAP - m.lifetime)
        },
        ParticleType::Ember => m.size == EMBER_SIZE,
    }
}

/// Invariant of every particle held in a store over an area of the given
/// height.
pub open spec fn particle_inv(m: ParticleModel, height: int) -> bool {
    particle_bounds(m) && kind_ok(m, height)
}

/// One tick of the update rule, on the model.
pub open spec fn step_spec(m: ParticleModel, e: StepEnv) -> ParticleModel {
    let dt = e.dt_eff as int;
    let aged = m.lifetime - AGE_RATE * dt;
    match m.kind {
        ParticleType::Fuel => ParticleModel {
            y: e.height - FUEL_BASE_OFFSET,
            lifetime: aged,
            ..m
        },
        ParticleType::Heat => {
            let size2 = tdiv(HEAT_BASE_SIZE * aged, e.oxygen as int);
            ParticleModel {
                x: m.x + tdiv(m.vx * dt, SCALE as int),
                y: m.y + tdiv(m.vy * dt, SCALE as int),
                vx: m.vx + tdiv(e.wind * dt, SCALE as int),
                temp: m.temp - tdiv(e.speed * dt, SCALE as int),
                lifetime: if size2 < HEAT_MIN_SIZE {
                    0
                } else {
                    aged
                },
                size: size2,
                ..m
            }
        },
        ParticleType::Smoke => ParticleModel {
            x: m.x + tdiv(m.vx * dt, SCALE as int),
            y: m.y + tdiv(m.vy * dt, SCALE as int),
            lifetime: aged,
            size: m.size + SMOKE_GROWTH_RATE * dt,
            ..m
        },
        ParticleType::Ember => ParticleModel {
            x: m.x + tdiv(m.vx * dt, SCALE as int),
            y: m.y + tdiv(m.vy * dt, SCALE as int),
            vx: m.vx + tdiv(e.wind * dt, SCALE as int),
            temp: m.temp - tdiv(e.speed * dt, SCALE as int),
            lifetime: aged,
            ..m
        },
    }
}

/// True when this tick retires a heat particle by shrinking it below the
/// minimum size; the retiring particle owes one smoke particle at its final
/// position whenever smoke is enabled.
pub open spec fn expires(m: ParticleModel, e: StepEnv) -> bool {
    m.kind == ParticleType::Heat && tdiv(
        HEAT_BASE_SIZE * (m.lifetime - AGE_RATE * e.dt_eff),
        e.oxygen as int,
    ) < HEAT_MIN_SIZE
}

/// Advance one particle by one tick. Returns the stepped particle and
/// whether it was a heat particle retired by the size threshold this tick.
pub fn step_particle(p: &Particle, e: &StepEnv) -> (r: (Particle, bool))
    requires
        particle_inv(p@, e.height as int),
        env_ok(*e),
    ensures
        r.0@ == step_spec(p@, *e),
        r.1 == expires(p@, *e),
        r.0@.lifetime > 0 ==> particle_inv(r.0@, e.height as int),
        r.1 ==> iabs(r.0@.x) <= SMOKE_X_BASE && iabs(r.0@.y) <= SMOKE_Y_BASE,
{
    let dt = e.dt_eff;
    let aged = p.lifetime - AGE_RATE * dt;
    match p.kind {
        ParticleType::Fuel => {
            let q = Particle { y: e.height - FUEL_BASE_OFFSET, lifetime: aged, ..*p };
            (q, false)
        },
        ParticleType::Heat => {
            proof {
                lemma_mul_bounds(p.vx as int, VEL_CAP as int, dt as int, DT_EFF_MAX as int);
                lemma_mul_bounds(p.vy as int, VY_CAP as int, dt as int, DT_EFF_MAX as int);
                lemma_mul_bounds(e.wind as int, WIND_MAX as int, dt as int, DT_EFF_MAX as int);
                lemma_mul_bounds(e.speed as int, SPEED_MAX as int, dt as int, DT_EFF_MAX as int);
            }
            let dx = fx_mul(p.vx, dt);
            let dy = fx_mul(p.vy, dt);
            let dvx = fx_mul(e.wind, dt);
            let dcool = fx_mul(e.speed, dt);
            let size2 = fx_div(HEAT_BASE_SIZE * aged, e.oxygen);
            let expired = size2 < HEAT_MIN_SIZE;
            let q = Particle {
                x: p.x + dx,
                y: p.y + dy,
                vx: p.vx + dvx,
                temp: p.temp - dcool,
                lifetime: if expired {
                    0
                } else {
                    aged
                },
                size: size2,
                ..*p
            };
            proof {
                let slack = LIFE_CAP - p.lifetime as int;
                lemma_drift_budget(
                    iabs(p.vx as int),
                    iabs(dvx as int),
                    VX_SPAWN_CAP as int,
                    WIND_MAX as int,
                    slack,
                    dt as int,
                );
                lemma_drift_budget(
                    iabs(p.x as int),
                    iabs(dx as int),
                    MAX_WIDTH as int,
                    VEL_CAP as int,
                    slack,
                    dt as int,
                );
                lemma_drift_budget(
                    iabs(p.y as int),
                    iabs(dy as int),
                    Y_SPAWN_BASE as int,
                    VY_CAP as int,
                    slack,
                    dt as int,
                );
                lemma_drift_budget(
                    iabs(p.temp as int),
                    iabs(dcool as int),
                    TEMP_BASE_CAP as int,
                    SPEED_MAX as int,
                    slack,
                    dt as int,
                );
                if !expired {
                    lemma_le_self_mul(e.oxygen as int, iabs(size2 as int));
                }
            }
            (q, expired)
        },
        ParticleType::Smoke => {
            proof {
                lemma_mul_bounds(p.vx as int, VEL_CAP as int, dt as int, DT_EFF_MAX as int);
                lemma_mul_bounds(p.vy as int, VY_CAP as int, dt as int, DT_EFF_MAX as int);
            }
            let dx = fx_mul(p.vx, dt);
            let dy = fx_mul(p.vy, dt);
            let q = Particle {
                x: p.x + dx,
                y: p.y + dy,
                lifetime: aged,
                size: p.size + SMOKE_GROWTH_RATE * dt,
                ..*p
            };
            proof {
                let slack = LIFE_CAP - p.lifetime as int;
                lemma_drift_budget(
                    iabs(p.x as int),
                    iabs(dx as int),
                    SMOKE_X_BASE as int,
                    VEL_CAP as int,
                    slack,
                    dt as int,
                );
                lemma_drift_budget(
                    iabs(p.y as int),
                    iabs(dy as int),
                    SMOKE_Y_BASE as int,
                    VY_CAP as int,
                    slack,
                    dt as int,
                );
            }
            (q, false)
        },
        ParticleType::Ember => {
            proof {
                lemma_mul_bounds(p.vx as int, VEL_CAP as int, dt as int, DT_EFF_MAX as int);
                lemma_mul_bounds(p.vy as int, VY_CAP as int, dt as int, DT_EFF_MAX as int);
                lemma_mul_bounds(e.wind as int, WIND_MAX as int, dt as int, DT_EFF_MAX as int);
                lemma_mul_bounds(e.speed as int, SPEED_MAX as int, dt as int, DT_EFF_MAX as int);
            }
            let dx = fx_mul(p.vx, dt);
            let dy = fx_mul(p.vy, dt);
            let dvx = fx_mul(e.wind, dt);
            let dcool = fx_mul(e.speed, dt);
            let q = Particle {
                x: p.x + dx,
                y: p.y + dy,
                vx: p.vx + dvx,
                temp: p.temp - dcool,
                lifetime: aged,
                ..*p
            };
            proof {
                let slack = LIFE_CAP - p.lifetime as int;
                lemma_drift_budget(
                    iabs(p.vx as int),
                    iabs(dvx as int),
                    VX_SPAWN_CAP as int,
                    WIND_MAX as int,
                    slack,
                    dt as int,
                );
                lemma_drift_budget(
                    iabs(p.x as int),
                    iabs(dx as int),
                    MAX_WIDTH as int,
                    VEL_CAP as int,
                    slack,
                    dt as int,
                );
                lemma_drift_budget(
                    iabs(p.y as int),
                    iabs(dy as int),
                    Y_SPAWN_BASE as int,
                    VY_CAP as int,
                    slack,
                    dt as int,
                );
                lemma_drift_budget(
                    iabs(p.temp as int),
                    iabs(dcool as int),
                    TEMP_BASE_CAP as int,
                    SPEED_MAX as int,
                    slack,
                    dt as int,
                );
            }
            (q, false)
        },
    }
}

} // verus!
