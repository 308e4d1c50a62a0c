//! The particle store and the tick entry point.
//!
//! Each tick runs in the fixed order the design prescribes: every particle is
//! stepped by the update rule, spent particles are purged, smoke owed by heat
//! particles that retired this tick is appended, and finally the spawn policy
//! injects fresh heat, ambient smoke and embers at the fire's base.

use vstd::prelude::*;
use vstd::arithmetic::mul::lemma_mul_nonnegative;
use crate::fixed::{iabs, tdiv, fx_mul, lemma_mul_bounds, lemma_tdiv_bounds, lemma_mul_cancel_le, SCALE};
use crate::constants::{
    DT_MAX, FUEL_BASE_OFFSET, HEAT_VX_RANGE, HEAT_VY_MIN, HEAT_VY_MAX,
    INITIAL_FUEL_PARTICLES, MAX_HEIGHT, MAX_WIDTH, SMOKE_SPAWN_COUNT, SMOKE_VX_RANGE,
    SMOKE_VY_MIN, SMOKE_VY_MAX, SMOKE_X_BASE, SMOKE_Y_BASE, SPAWN_BASE_OFFSET, SPEED_MAX,
    TEMP_ABS_CAP, EMBER_VX_RANGE, EMBER_VY_MIN, EMBER_VY_MAX, WINDOW_HEIGHT, WINDOW_WIDTH,
};
use crate::params::SimulationParams;
use crate::particle::{
    env_ok, expires, particle_inv, step_particle, step_spec, Particle, ParticleModel, ParticleType, StepEnv,
};
use crate::rng::SimRng;
use crate::spawn::{
    ember_count_spec, ember_spawn_count, fuel_at, heat_count_spec, heat_spawn_count,
    is_spawned_ember, is_spawned_heat, is_spawned_smoke, make_ember, make_fuel, make_heat,
    make_smoke,
};

verus! {

/// The mathematical contents of a particle vector.
pub open spec fn models(s: Seq<Particle>) -> Seq<ParticleModel> {
    s.map_values(|p: Particle| p@)
}

/// Every record advanced by one tick of the update rule.
pub open spec fn step_models(ms: Seq<ParticleModel>, e: StepEnv) -> Seq<ParticleModel> {
    ms.map_values(|m: ParticleModel| step_spec(m, e))
}

/// The records that survive retirement: every particle whose life is spent
/// is removed, and the survivors keep their order.
pub open spec fn keep_live(ms: Seq<ParticleModel>) -> Seq<ParticleModel>
    decreases ms.len(),
{
    if ms.len() == 0 {
        Seq::empty()
    } else if ms.last().lifetime > 0 {
        keep_live(ms.drop_last()).push(ms.last())
    } else {
        keep_live(ms.drop_last())
    }
}

/// The positions, in store order, of the heat particles that the update rule
/// retires this tick; each owes one smoke particle there if smoke is on.
pub open spec fn emit_positions(ms: Seq<ParticleModel>, e: StepEnv) -> Seq<(int, int)>
    decreases ms.len(),
{
    if ms.len() == 0 {
        Seq::empty()
    } else if expires(ms.last(), e) {
        emit_positions(ms.drop_last(), e).push(
            (step_spec(ms.last(), e).x, step_spec(ms.last(), e).y),
        )
    } else {
        emit_positions(ms.drop_last(), e)
    }
}

/// Sum of the temperatures of all records.
pub open spec fn sum_temp(ms: Seq<ParticleModel>) -> int
    decreases ms.len(),
{
    if ms.len() == 0 {
        0
    } else {
        sum_temp(ms.drop_last()) + ms.last().temp
    }
}

/// The effective time step of a tick: elapsed time, clamped below at zero,
/// scaled by the simulation speed. A degenerate (negative) interval moves
/// and ages nothing.
pub open spec fn dt_eff_spec(dt: i64, speed: i64) -> int {
    tdiv(
        (if dt > 0 {
            dt as int
        } else {
            0
        }) * speed,
        SCALE as int,
    )
}

/// The environment a tick hands the update rule. The effective time step
/// always fits in the fixed-point range, so the cast loses nothing.
pub open spec fn env_of(dt: i64, c: SimulationParams, height: i64) -> StepEnv {
    StepEnv {
        dt_eff: dt_eff_spec(dt, c.simulation_speed) as i64,
        wind: c.wind,
        speed: c.simulation_speed,
        oxygen: c.oxygen,
        height,
    }
}

/// Retirement keeps no more records than it was given, and keeps only live
/// ones; whatever held of every live input record holds of every survivor.
pub proof fn lemma_keep_live_all(ms: Seq<ParticleModel>, h: int)
    requires
        forall|i: int|
            0 <= i < ms.len() ==> ((#[trigger] ms[i]).lifetime > 0 ==> particle_inv(ms[i], h)),
    ensures
        keep_live(ms).len() <= ms.len(),
        forall|j: int|
            0 <= j < keep_live(ms).len() ==> particle_inv(#[trigger] keep_live(ms)[j], h)
                && keep_live(ms)[j].lifetime > 0,
    decreases ms.len(),
{
    if ms.len() > 0 {
        lemma_keep_live_all(ms.drop_last(), h);
    }
}

/// The particle store: the current population and the area it burns in.
/// The simulation owns it exclusively; a renderer only reads it.
pub struct FireSim {
    pub particles: Vec<Particle>,
    pub width: i64,
    pub height: i64,
}

impl FireSim {
    /// Well-formedness: the area is bounded and every particle is live and
    /// inside the magnitude budget of [`particle_inv`].
    pub open spec fn wf(self) -> bool {
        &&& 0 <= self.width <= MAX_WIDTH
        &&& 0 <= self.height <= MAX_HEIGHT
        &&& forall|i: int|
            0 <= i < self.particles@.len() ==> particle_inv(
                (#[trigger] self.particles@[i])@,
                self.height as int,
            )
    }

    /// The mathematical contents of the store.
    pub open spec fn contents(self) -> Seq<ParticleModel> {
        models(self.particles@)
    }

    /// Seed a store for an area of the given size: a fixed number of fuel
    /// particles evenly spaced along the base, and nothing else. Seeding is
    /// deterministic.
    pub fn with_size(width: i64, height: i64) -> (s: FireSim)
        requires
            0 <= width <= MAX_WIDTH,
            0 <= height <= MAX_HEIGHT,
        ensures
            s.wf(),
            s.width == width,
            s.height == height,
            s.contents() == Seq::new(
                INITIAL_FUEL_PARTICLES as nat,
                |i: int| fuel_at(i, width as int, height as int),
            ),
    {
        let mut v: Vec<Particle> = Vec::new();
        let mut i: usize = 0;
        while i < INITIAL_FUEL_PARTICLES
            invariant
                i <= INITIAL_FUEL_PARTICLES,
                0 <= width <= MAX_WIDTH,
                0 <= height <= MAX_HEIGHT,
                v@.len() == i,
                forall|j: int|
                    0 <= j < i ==> (#[trigger] v@[j])@ == fuel_at(j, width as int, height as int),
                forall|j: int|
                    0 <= j < i ==> particle_inv((#[trigger] v@[j])@, height as int),
            decreases INITIAL_FUEL_PARTICLES - i,
        {
            let p = make_fuel(i, width, height);
            v.push(p);
            i += 1;
        }
        let s = FireSim { particles: v, width, height };
        proof {
            assert(s.contents() =~= Seq::new(
                INITIAL_FUEL_PARTICLES as nat,
                |i: int| fuel_at(i, width as int, height as int),
            ));
        }
        s
    }

    /// Seed a store for the default window size.
    pub fn new() -> (s: FireSim)
        ensures
            s.wf(),
            s.width == WINDOW_WIDTH,
            s.height == WINDOW_HEIGHT,
            s.contents() == Seq::new(
                INITIAL_FUEL_PARTICLES as nat,
                |i: int| fuel_at(i, WINDOW_WIDTH as int, WINDOW_HEIGHT as int),
            ),
    {
        Self::with_size(WINDOW_WIDTH, WINDOW_HEIGHT)
    }

    /// Replace the store wholesale for a new area size, reseeding the fuel
    /// layer at the new width. Resizing is a full reset, never an in-place
    /// adjustment, and must happen between ticks.
    pub fn resize(&self, width: i64, height: i64) -> (s: FireSim)
        requires
            0 <= width <= MAX_WIDTH,
            0 <= height <= MAX_HEIGHT,
        ensures
            s.wf(),
            s.width == width,
            s.height == height,
            s.contents() == Seq::new(
                INITIAL_FUEL_PARTICLES as nat,
                |i: int| fuel_at(i, width as int, height as int),
            ),
    {
        Self::with_size(width, height)
    }

    /// Read-only view of the population, for the renderer and for queries.
    pub fn particles(&self) -> (r: &Vec<Particle>)
        ensures
            r@ == self.particles@,
    {
        &self.particles
    }

    /// Remove every particle whose life is spent, preserving the order of
    /// the survivors, and report how many were removed.
    pub fn retire_expired(&mut self) -> (removed: usize)
        ensures
            final(self).width == old(self).width,
            final(self).height == old(self).height,
            final(self).contents() == keep_live(old(self).contents()),
            final(self).particles@.len() + removed == old(self).particles@.len(),
            forall|i: int| #![trigger final(self).particles@[i]]
                0 <= i < final(self).particles@.len()
                    ==> final(self).particles@[i]@.lifetime > 0,
    {
        let ghost ms = models(self.particles@);
        let n = self.particles.len();
        let mut kept: Vec<Particle> = Vec::new();
        let mut i: usize = 0;
        while i < n
            invariant
                i <= n,
                n == self.particles@.len(),
                ms == models(self.particles@),
                kept@.len() <= i,
                models(kept@) == keep_live(ms.take(i as int)),
                forall|k: int|
                    0 <= k < kept@.len() ==> (#[trigger] kept@[k])@.lifetime > 0,
            decreases n - i,
        {
            let p = self.particles[i];
            proof {
                assert(ms.take(i + 1).drop_last() =~= ms.take(i as int));
                assert(ms.take(i + 1).last() == p@);
            }
            if p.lifetime > 0 {
                kept.push(p);
                proof {
                    assert(models(kept@) =~= keep_live(ms.take(i + 1)));
                }
            } else {
                proof {
                    assert(models(kept@) =~= keep_live(ms.take(i + 1)));
                }
            }
            i += 1;
        }
        proof {
            assert(ms.take(n as int) =~= ms);
        }
        let removed = n - kept.len();
        self.particles = kept;
        removed
    }

    /// Add freshly spawned particles at the end of the store.
    pub fn append(&mut self, born: &mut Vec<Particle>)
        requires
            old(self).wf(),
            forall|i: int|
                0 <= i < old(born)@.len() ==> particle_inv(
                    (#[trigger] old(born)@[i])@,
                    old(self).height as int,
                ),
        ensures
            final(self).wf(),
            final(self).width == old(self).width,
            final(self).height == old(self).height,
            final(self).particles@ == old(self).particles@ + old(born)@,
            final(born)@.len() == 0,
    {
        self.particles.append(born);
    }

    /// Arithmetic mean of the temperatures of all current particles, with
    /// the empty store read as exactly zero rather than as an error.
    pub fn average_temperature(&self) -> (r: i64)
        requires
            self.wf(),
        ensures
            self.particles@.len() == 0 ==> r == 0,
            self.particles@.len() > 0 ==> r as int == tdiv(
                sum_temp(self.contents()),
                self.particles@.len() as int,
            ),
    {
        let ghost ms = models(self.particles@);
        let n = self.particles.len();
        if n == 0 {
            return 0;
        }
        let mut sum: i128 = 0;
        let mut i: usize = 0;
        while i < n
            invariant
                i <= n,
                n == self.particles@.len(),
                ms == models(self.particles@),
                self.wf(),
                sum == sum_temp(ms.take(i as int)),
                iabs(sum as int) <= i * TEMP_ABS_CAP,
            decreases n - i,
        {
            let p = self.particles[i];
            proof {
                assert(ms.take(i + 1).drop_last() =~= ms.take(i as int));
                assert(ms.take(i + 1).last() == p@);
            }
            sum = sum + p.temp as i128;
            i += 1;
        }
        proof {
            assert(ms.take(n as int) =~= ms);
            lemma_tdiv_bounds(sum as int, n as int);
        }
        let q = match sum.checked_div(n as i128) {
            Some(q) => q,
            // The divisor is positive and truncation shrinks magnitudes, so
            // the division cannot fail.
            None => vstd::pervasive::unreached(),
        };
        proof {
            lemma_mul_cancel_le(n as int, iabs(q as int), TEMP_ABS_CAP as int);
        }
        q as i64
    }
}

/// What one tick guarantees, relating the store before (`pre`) and after
/// (`post`) a call under elapsed time `dt` and configuration `c`.
///
/// The post store is exactly: the survivors of the update rule, in order;
/// then one smoke particle at each position where a retiring heat particle
/// owed one (only while smoke is enabled, and none otherwise); then the
/// configured count of fresh heat particles at the spawn base; then the
/// ambient smoke particles (only while smoke is enabled); then the
/// configured count of embers (only while sparks are enabled). Everything
/// about the newborns is pinned except their random draws, which are
/// confined to their documented ranges.
pub open spec fn tick_post(pre: FireSim, post: FireSim, dt: i64, c: SimulationParams) -> bool {
    let e = env_of(dt, c, pre.height);
    let ms = pre.contents();
    let sur = keep_live(step_models(ms, e));
    let ep = emit_positions(ms, e);
    let tc = if c.enable_smoke { ep.len() as int } else { 0int };
    let hc = heat_count_spec(c);
    let sc = if c.enable_smoke { SMOKE_SPAWN_COUNT as int } else { 0int };
    let ec = if c.enable_sparks { ember_count_spec(c) } else { 0int };
    let pm = post.contents();
    let w = post.width as int;
    let h = post.height as int;
    &&& post.width == pre.width
    &&& post.height == pre.height
    &&& pm.len() == sur.len() + tc + hc + sc + ec
    &&& forall|i: int| 0 <= i < sur.len() ==> #[trigger] pm[i] == sur[i]
    &&& forall|j: int|
        0 <= j < tc ==> is_spawned_smoke(#[trigger] pm[sur.len() + j]) && pm[sur.len() + j].x
            == ep[j].0 && pm[sur.len() + j].y == ep[j].1
    &&& forall|j: int|
        0 <= j < hc ==> is_spawned_heat(#[trigger] pm[sur.len() + tc + j], c, w, h)
    &&& forall|j: int|
        0 <= j < sc ==> is_spawned_smoke(#[trigger] pm[sur.len() + tc + hc + j]) && 0 <= pm[sur.len()
            + tc + hc + j].x <= w && pm[sur.len() + tc + hc + j].y == h - SPAWN_BASE_OFFSET
    &&& forall|j: int|
        0 <= j < ec ==> is_spawned_ember(#[trigger] pm[sur.len() + tc + hc + sc + j], c, w, h)
}

impl FireSim {
    /// Advance the whole simulation by one frame of `dt` elapsed seconds
    /// under configuration `params`, drawing spawn randomness from `rng`.
    ///
    /// The update rule runs first, spent particles are purged exhaustively,
    /// smoke owed by heat particles that retired this tick is appended, and
    /// the spawn policy then injects fresh particles ([`tick_post`] pins the
    /// result down segment by segment). After every tick the store holds no
    /// spent particle, and every fuel particle sits exactly at the base.
    #[verifier::loop_isolation(false)]
    #[verifier::rlimit(50)]
    pub fn update(&mut self, dt: i64, params: &SimulationParams, rng: &mut SimRng)
        requires
            old(self).wf(),
            params.valid(),
            dt <= DT_MAX,
        ensures
            final(self).wf(),
            tick_post(*old(self), *final(self), dt, *params),
            forall|i: int| #![trigger final(self).particles@[i]]
                0 <= i < final(self).particles@.len()
                    ==> final(self).particles@[i]@.lifetime > 0,
            forall|i: int| #![trigger final(self).particles@[i]]
                0 <= i < final(self).particles@.len()
                    ==> (final(self).particles@[i]@.kind == ParticleType::Fuel
                        ==> final(self).particles@[i]@.y == final(self).height
                        - FUEL_BASE_OFFSET),
    {
        let ghost pre = *self;
        let ghost ms = models(self.particles@);

        // The effective time step; a degenerate interval is clamped to zero.
        let base_dt = if dt > 0 {
            dt
        } else {
            0
        };
        proof {
            lemma_mul_bounds(
                base_dt as int,
                DT_MAX as int,
                params.simulation_speed as int,
                SPEED_MAX as int,
            );
            lemma_mul_nonnegative(base_dt as int, params.simulation_speed as int);
        }
        let dt_eff = fx_mul(base_dt, params.simulation_speed);
        let env = StepEnv {
            dt_eff,
            wind: params.wind,
            speed: params.simulation_speed,
            oxygen: params.oxygen,
            height: self.height,
        };
        proof {
            assert(env == env_of(dt, *params, pre.height));
            assert(env_ok(env));
        }

        // Advance every particle one tick, recording where retiring heat
        // particles owe smoke.
        let n = self.particles.len();
        let mut stepped: Vec<Particle> = Vec::new();
        let mut emits: Vec<(i64, i64)> = Vec::new();
        let mut i: usize = 0;
        while i < n
            invariant
                i <= n,
                stepped@.len() == i,
                forall|k: int| 0 <= k < i ==> (#[trigger] stepped@[k])@ == step_spec(ms[k], env),
                forall|k: int|
                    0 <= k < i ==> ((#[trigger] stepped@[k])@.lifetime > 0 ==> particle_inv(
                        stepped@[k]@,
                        env.height as int,
                    )),
                emits@.len() == emit_positions(ms.take(i as int), env).len(),
                forall|k: int|
                    0 <= k < emits@.len() ==> ((#[trigger] emits@[k]).0 as int == emit_positions(
                        ms.take(i as int),
                        env,
                    )[k].0 && emits@[k].1 as int == emit_positions(ms.take(i as int), env)[k].1
                        && iabs(emits@[k].0 as int) <= SMOKE_X_BASE && iabs(emits@[k].1 as int)
                        <= SMOKE_Y_BASE),
            decreases n - i,
        {
            let p = self.particles[i];
            let (q, em) = step_particle(&p, &env);
            proof {
                assert(ms.take(i + 1).drop_last() =~= ms.take(i as int));
                assert(ms.take(i + 1).last() == p@);
            }
            stepped.push(q);
            if em {
                emits.push((q.x, q.y));
                proof {
                    assert(emit_positions(ms.take(i + 1), env) =~= emit_positions(
                        ms.take(i as int),
                        env,
                    ).push((step_spec(p@, env).x, step_spec(p@, env).y)));
                }
            } else {
                proof {
                    assert(emit_positions(ms.take(i + 1), env) =~= emit_positions(
                        ms.take(i as int),
                        env,
                    ));
                }
            }
            i += 1;
        }
        let ghost sms = step_models(ms, env);
        let ghost ep = emit_positions(ms, env);
        proof {
            assert(ms.take(n as int) =~= ms);
            assert(models(stepped@) =~= sms);
        }

        // Purge every spent particle.
        self.particles = stepped;
        let _removed = self.retire_expired();
        proof {
            lemma_keep_live_all(sms, env.height as int);
            assert forall|k: int| 0 <= k < self.particles@.len() implies particle_inv(
                (#[trigger] self.particles@[k])@,
                self.height as int,
            ) by {
                assert(self.contents()[k] == self.particles@[k]@);
            }
            assert(self.wf());
        }

        // Inject this tick's newborns, in policy order: smoke owed by heat
        // particles that retired, fresh heat, ambient smoke, then embers.
        let ghost tc = if params.enable_smoke {
            ep.len() as int
        } else {
            0int
        };
        let mut born: Vec<Particle> = Vec::new();
        if params.enable_smoke {
            let m = emits.len();
            let mut j: usize = 0;
            while j < m
                invariant
                    j <= m,
                    born@.len() == j,
                    forall|k: int|
                        0 <= k < j ==> (is_spawned_smoke((#[trigger] born@[k])@) && born@[k]@.x
                            == ep[k].0 && born@[k]@.y == ep[k].1 && particle_inv(
                            born@[k]@,
                            self.height as int,
                        )),
                decreases m - j,
            {
                let pos = emits[j];
                let svx = rng.draw(-SMOKE_VX_RANGE, SMOKE_VX_RANGE);
                let svy = rng.draw(SMOKE_VY_MIN, SMOKE_VY_MAX);
                let s = make_smoke(pos.0, pos.1, svx, svy);
                born.push(s);
                j += 1;
            }
        }
        proof {
            assert(born@.len() == tc);
        }

        // Fresh heat at the spawn base.
        let hc = heat_spawn_count(params);
        let mut j2: usize = 0;
        while j2 < hc
            invariant
                j2 <= hc,
                born@.len() == tc + j2,
                forall|k: int|
                    0 <= k < tc ==> (is_spawned_smoke((#[trigger] born@[k])@) && born@[k]@.x
                        == ep[k].0 && born@[k]@.y == ep[k].1),
                forall|k: int|
                    tc <= k < tc + j2 ==> is_spawned_heat(
                        (#[trigger] born@[k])@,
                        *params,
                        self.width as int,
                        self.height as int,
                    ),
                forall|k: int|
                    0 <= k < born@.len() ==> particle_inv(
                        (#[trigger] born@[k])@,
                        self.height as int,
                    ),
            decreases hc - j2,
        {
            let hx = rng.draw(0, self.width);
            let hvx = rng.draw(-HEAT_VX_RANGE, HEAT_VX_RANGE);
            let hvy = rng.draw(HEAT_VY_MIN, HEAT_VY_MAX);
            let h = make_heat(hx, hvx, hvy, params, self.width, self.height);
            born.push(h);
            j2 += 1;
        }

        // Ambient smoke, keeping the air hazy even without retiring heat.
        let ghost sc = if params.enable_smoke {
            SMOKE_SPAWN_COUNT as int
        } else {
            0int
        };
        if params.enable_smoke {
            let mut j3: usize = 0;
            while j3 < SMOKE_SPAWN_COUNT
                invariant
                    j3 <= SMOKE_SPAWN_COUNT,
                    born@.len() == tc + hc + j3,
                    forall|k: int|
                        0 <= k < tc ==> (is_spawned_smoke((#[trigger] born@[k])@) && born@[k]@.x
                            == ep[k].0 && born@[k]@.y == ep[k].1),
                    forall|k: int|
                        tc <= k < tc + hc ==> is_spawned_heat(
                            (#[trigger] born@[k])@,
                            *params,
                            self.width as int,
                            self.height as int,
                        ),
                    forall|k: int|
                        tc + hc <= k < tc + hc + j3 ==> (is_spawned_smoke((#[trigger] born@[k])@)
                            && 0 <= born@[k]@.x <= self.width && born@[k]@.y == self.height
                            - SPAWN_BASE_OFFSET),
                    forall|k: int|
                        0 <= k < born@.len() ==> particle_inv(
                            (#[trigger] born@[k])@,
                            self.height as int,
                        ),
                decreases SMOKE_SPAWN_COUNT - j3,
            {
                let sx = rng.draw(0, self.width);
                let svx = rng.draw(-SMOKE_VX_RANGE, SMOKE_VX_RANGE);
                let svy = rng.draw(SMOKE_VY_MIN, SMOKE_VY_MAX);
                let s = make_smoke(sx, self.height - SPAWN_BASE_OFFSET, svx, svy);
                born.push(s);
                j3 += 1;
            }
        }

        // Embers, while sparks are enabled.
        let ghost ec = if params.enable_sparks {
            ember_count_spec(*params)
        } else {
            0int
        };
        if params.enable_sparks {
            let emn = ember_spawn_count(params);
            let mut j4: usize = 0;
            while j4 < emn
                invariant
                    j4 <= emn,
                    born@.len() == tc + hc + sc + j4,
                    forall|k: int|
                        0 <= k < tc ==> (is_spawned_smoke((#[trigger] born@[k])@) && born@[k]@.x
                            == ep[k].0 && born@[k]@.y == ep[k].1),
                    forall|k: int|
                        tc <= k < tc + hc ==> is_spawned_heat(
                            (#[trigger] born@[k])@,
                            *params,
                            self.width as int,
                            self.height as int,
                        ),
                    forall|k: int|
                        tc + hc <= k < tc + hc + sc ==> (is_spawned_smoke(
                            (#[trigger] born@[k])@,
                        ) && 0 <= born@[k]@.x <= self.width && born@[k]@.y == self.height
                            - SPAWN_BASE_OFFSET),
                    forall|k: int|
                        tc + hc + sc <= k < tc + hc + sc + j4 ==> is_spawned_ember(
                            (#[trigger] born@[k])@,
                            *params,
                            self.width as int,
                            self.height as int,
                        ),
                    forall|k: int|
                        0 <= k < born@.len() ==> particle_inv(
                            (#[trigger] born@[k])@,
                            self.height as int,
                        ),
                decreases emn - j4,
            {
                let ex = rng.draw(0, self.width);
                let evx = rng.draw(-EMBER_VX_RANGE, EMBER_VX_RANGE);
                let evy = rng.draw(EMBER_VY_MIN, EMBER_VY_MAX);
                let em2 = make_ember(ex, evx, evy, params, self.width, self.height);
                born.push(em2);
                j4 += 1;
            }
        }

        // Hand the newborns to the store.
        let ghost bs = born@;
        let ghost kept = self.contents();
        self.append(&mut born);
        proof {
            assert(self.contents() =~= kept + models(bs));
            let e2 = env_of(dt, *params, pre.height);
            let sur = keep_live(step_models(pre.contents(), e2));
            let pm = self.contents();
            assert(sur == kept);
            assert(tick_post(pre, *self, dt, *params));
        }
    }
}

} // verus!
