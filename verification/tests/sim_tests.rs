use firesim::constants::{
    AGE_RATE, EMBER_VY_MAX, EMBER_VY_MIN, FUEL_BASE_OFFSET, FUEL_LIFE, FUEL_SIZE, FUEL_TEMP,
    HEAT_BASE_SIZE, HEAT_VX_RANGE, HEAT_VY_MAX, HEAT_VY_MIN, INITIAL_FUEL_PARTICLES,
    SMOKE_LIFE, SMOKE_SIZE, SMOKE_TEMP, SPAWN_BASE_OFFSET,
};
use firesim::fixed::SCALE;
use firesim::params::SimulationParams;
use firesim::particle::{Particle, ParticleType};
use firesim::rng::SimRng;
use firesim::sim::FireSim;

const W: i64 = 800 * SCALE;
const H: i64 = 600 * SCALE;
/// One sixtieth of a second in fixed-point steps.
const DT_FRAME: i64 = SCALE / 60;

fn kind_count(sim: &FireSim, kind: ParticleType) -> usize {
    sim.particles.iter().filter(|p| p.kind == kind).count()
}

#[test]
fn with_size_seeds_even_fuel_row() {
    let sim = FireSim::with_size(W, H);
    assert_eq!(sim.width, W);
    assert_eq!(sim.height, H);
    assert_eq!(sim.particles.len(), INITIAL_FUEL_PARTICLES);
    for (i, p) in sim.particles.iter().enumerate() {
        assert_eq!(p.kind, ParticleType::Fuel);
        assert_eq!(p.x, (i as i64) * W / (INITIAL_FUEL_PARTICLES as i64));
        assert_eq!(p.y, H - FUEL_BASE_OFFSET);
        assert_eq!(p.vx, 0);
        assert_eq!(p.vy, 0);
        assert_eq!(p.temp, FUEL_TEMP);
        assert_eq!(p.lifetime, FUEL_LIFE);
        assert_eq!(p.size, FUEL_SIZE);
    }
}

#[test]
fn new_uses_default_window() {
    let sim = FireSim::new();
    assert_eq!(sim.width, W);
    assert_eq!(sim.height, H);
    assert_eq!(sim.particles.len(), INITIAL_FUEL_PARTICLES);
}

#[test]
fn resize_is_a_full_reset() {
    let mut sim = FireSim::with_size(W, H);
    let mut rng = SimRng::from_seed(9);
    let params = SimulationParams::default();
    sim.update(DT_FRAME, &params, &mut rng);
    let resized = sim.resize(400 * SCALE, 300 * SCALE);
    assert_eq!(resized.width, 400 * SCALE);
    assert_eq!(resized.height, 300 * SCALE);
    assert_eq!(resized.particles.len(), INITIAL_FUEL_PARTICLES);
    for p in resized.particles.iter() {
        assert_eq!(p.kind, ParticleType::Fuel);
        assert_eq!(p.y, 300 * SCALE - FUEL_BASE_OFFSET);
    }
}

/// The default-configuration scenario: after exactly one frame the seeded
/// fuel row is intact with its life drained by one tick, five heat
/// particles and one ember have been spawned, and no smoke has come out of
/// the heat-to-smoke transition; the single smoke particle in the store is
/// the ambient one injected at the spawn base.
#[test]
fn scenario_one_default_tick() {
    let mut sim = FireSim::with_size(W, H);
    let params = SimulationParams::default();
    let mut rng = SimRng::from_seed(7);
    sim.update(DT_FRAME, &params, &mut rng);

    assert_eq!(sim.particles.len(), 57);
    // The seeded fuel row survives in place, one tick older.
    for i in 0..50 {
        let p = &sim.particles[i];
        assert_eq!(p.kind, ParticleType::Fuel);
        assert_eq!(p.lifetime, FUEL_LIFE - AGE_RATE * DT_FRAME);
        assert_eq!(p.y, H - FUEL_BASE_OFFSET);
        assert_eq!(p.x, (i as i64) * W / (INITIAL_FUEL_PARTICLES as i64));
    }
    // Exactly max(fuel / 10, 1) = 5 heat particles, all at the spawn base.
    assert_eq!(kind_count(&sim, ParticleType::Heat), 5);
    for i in 50..55 {
        let p = &sim.particles[i];
        assert_eq!(p.kind, ParticleType::Heat);
        assert_eq!(p.y, H - SPAWN_BASE_OFFSET);
        assert!(0 <= p.x && p.x <= W);
        assert!(p.vx.abs() <= HEAT_VX_RANGE);
        assert!(HEAT_VY_MIN <= p.vy && p.vy <= HEAT_VY_MAX);
        assert_eq!(p.lifetime, params.oxygen);
        assert_eq!(p.temp, 100 * params.simulation_speed);
        assert_eq!(p.size, HEAT_BASE_SIZE);
    }
    // No heat particle can have expired on its first tick, so the only
    // smoke is the one ambient particle, sitting at the spawn base.
    assert_eq!(kind_count(&sim, ParticleType::Smoke), 1);
    let s = &sim.particles[55];
    assert_eq!(s.kind, ParticleType::Smoke);
    assert_eq!(s.y, H - SPAWN_BASE_OFFSET);
    assert_eq!(s.lifetime, SMOKE_LIFE);
    // At least one ember with the sparks toggle on; here exactly one.
    assert_eq!(kind_count(&sim, ParticleType::Ember), 1);
    let e = &sim.particles[56];
    assert_eq!(e.lifetime, params.oxygen / 2 + 10 * SCALE);
    assert!(EMBER_VY_MIN <= e.vy && e.vy <= EMBER_VY_MAX);
}

/// The spawn count floor: five units of fuel sit below the ten-unit
/// divisor, yet exactly one heat particle is spawned, never zero.
#[test]
fn spawn_count_floor_below_divisor() {
    let mut sim = FireSim::with_size(W, H);
    let mut params = SimulationParams::default();
    params.fuel_amount = 5 * SCALE;
    params.enable_smoke = false;
    params.enable_sparks = false;
    let mut rng = SimRng::from_seed(3);
    sim.update(DT_FRAME, &params, &mut rng);
    assert_eq!(kind_count(&sim, ParticleType::Heat), 1);
    assert_eq!(sim.particles.len(), 51);
}

/// Retirement is exhaustive: no tick ever leaves a spent particle behind,
/// however long the run.
#[test]
fn no_spent_particles_survive_any_tick() {
    let mut sim = FireSim::with_size(W, H);
    let mut params = SimulationParams::default();
    params.simulation_speed = 4 * SCALE;
    let mut rng = SimRng::from_seed(11);
    for _ in 0..200 {
        sim.update(DT_FRAME, &params, &mut rng);
        for p in sim.particles.iter() {
            assert!(p.lifetime > 0);
        }
    }
}

/// Fuel pinning: whatever the wind and however much time passes, every fuel
/// particle's vertical coordinate is exactly the base height.
#[test]
fn fuel_stays_pinned_to_base() {
    let mut sim = FireSim::with_size(W, H);
    let mut params = SimulationParams::default();
    params.wind = 100 * SCALE;
    params.simulation_speed = 3 * SCALE;
    let mut rng = SimRng::from_seed(13);
    for _ in 0..120 {
        sim.update(DT_FRAME, &params, &mut rng);
        for p in sim.particles.iter() {
            if p.kind == ParticleType::Fuel {
                assert_eq!(p.y, H - FUEL_BASE_OFFSET);
                assert_eq!(p.vx, 0);
                assert_eq!(p.vy, 0);
            }
        }
    }
}

fn lone_heat_sim(x: i64, y: i64, lifetime: i64) -> FireSim {
    FireSim {
        particles: vec![Particle {
            x,
            y,
            vx: 0,
            vy: 0,
            temp: 50 * SCALE,
            lifetime,
            kind: ParticleType::Heat,
            size: HEAT_BASE_SIZE,
        }],
        width: W,
        height: H,
    }
}

/// Heat-to-smoke conservation: when a heat particle's derived size crosses
/// the minimum and smoke is enabled, exactly one new smoke particle appears
/// at the heat particle's final position.
#[test]
fn expiring_heat_leaves_one_smoke_at_its_position() {
    let mut sim = lone_heat_sim(1000, 2000, 5 * DT_FRAME);
    let mut params = SimulationParams::default();
    params.fuel_amount = 5 * SCALE;
    params.enable_sparks = false;
    let mut rng = SimRng::from_seed(17);
    // One tick drains 100 life units, leaving the derived size negative,
    // far below the threshold: the heat particle retires on the spot.
    sim.update(DT_FRAME, &params, &mut rng);
    assert_eq!(kind_count(&sim, ParticleType::Heat), 1); // the fresh spawn
    assert_eq!(kind_count(&sim, ParticleType::Smoke), 2); // transition + ambient
    let t = &sim.particles[0];
    assert_eq!(t.kind, ParticleType::Smoke);
    assert_eq!(t.x, 1000); // zero velocity: it died where it sat
    assert_eq!(t.y, 2000);
    assert_eq!(t.lifetime, SMOKE_LIFE);
    assert_eq!(t.temp, SMOKE_TEMP);
    assert_eq!(t.size, SMOKE_SIZE);
}

/// The transition spawns nothing when smoke is disabled.
#[test]
fn expiring_heat_leaves_nothing_with_smoke_off() {
    let mut sim = lone_heat_sim(1000, 2000, 5 * DT_FRAME);
    let mut params = SimulationParams::default();
    params.fuel_amount = 5 * SCALE;
    params.enable_sparks = false;
    params.enable_smoke = false;
    let mut rng = SimRng::from_seed(19);
    sim.update(DT_FRAME, &params, &mut rng);
    assert_eq!(kind_count(&sim, ParticleType::Smoke), 0);
    assert_eq!(sim.particles.len(), 1); // only the fresh heat spawn
}

/// The average temperature of an empty store is exactly zero, and of a
/// single particle exactly that particle's temperature.
#[test]
fn average_temperature_edge_cases() {
    let empty = FireSim { particles: Vec::new(), width: W, height: H };
    assert_eq!(empty.average_temperature(), 0);

    let single = FireSim {
        particles: vec![Particle {
            x: 0,
            y: H - SPAWN_BASE_OFFSET,
            vx: 0,
            vy: 0,
            temp: 777,
            lifetime: 1000,
            kind: ParticleType::Ember,
            size: 3 * SCALE,
        }],
        width: W,
        height: H,
    };
    assert_eq!(single.average_temperature(), 777);
}

#[test]
fn average_temperature_of_fresh_row_is_fuel_temp() {
    let sim = FireSim::with_size(W, H);
    assert_eq!(sim.average_temperature(), FUEL_TEMP);
}

#[test]
fn retire_expired_is_stable_and_counts() {
    let mk = |lifetime: i64, x: i64| Particle {
        x,
        y: 0,
        vx: 0,
        vy: 0,
        temp: 0,
        lifetime,
        kind: ParticleType::Smoke,
        size: SMOKE_SIZE,
    };
    let mut sim = FireSim {
        particles: vec![mk(5, 1), mk(0, 2), mk(7, 3), mk(-3, 4), mk(1, 5)],
        width: W,
        height: H,
    };
    let removed = sim.retire_expired();
    assert_eq!(removed, 2);
    let xs: Vec<i64> = sim.particles.iter().map(|p| p.x).collect();
    assert_eq!(xs, vec![1, 3, 5]);
}

/// A negative or zero frame interval moves and ages nothing, and a tick
/// still spawns its fresh particles.
#[test]
fn degenerate_dt_is_a_no_op_motion_step() {
    let mut sim = FireSim::with_size(W, H);
    let mut params = SimulationParams::default();
    params.enable_smoke = false;
    params.enable_sparks = false;
    let mut rng = SimRng::from_seed(23);
    sim.update(-50, &params, &mut rng);
    for i in 0..50 {
        let p = &sim.particles[i];
        assert_eq!(p.kind, ParticleType::Fuel);
        assert_eq!(p.lifetime, FUEL_LIFE);
    }
    assert_eq!(kind_count(&sim, ParticleType::Heat), 5);
}

/// The same seed replays the same run.
#[test]
fn seeded_runs_are_deterministic() {
    let params = SimulationParams::default();
    let mut a = FireSim::with_size(W, H);
    let mut b = FireSim::with_size(W, H);
    let mut rng_a = SimRng::from_seed(99);
    let mut rng_b = SimRng::from_seed(99);
    for _ in 0..30 {
        a.update(DT_FRAME, &params, &mut rng_a);
        b.update(DT_FRAME, &params, &mut rng_b);
    }
    assert_eq!(a.particles.len(), b.particles.len());
    for (p, q) in a.particles.iter().zip(b.particles.iter()) {
        assert!(p == q);
    }
}

/// Every random draw a tick makes stays in its documented range: after one
/// tick from a fresh store, every heat particle and ember is a fresh spawn.
#[test]
fn spawn_draws_stay_in_their_ranges() {
    let mut sim = FireSim::with_size(W, H);
    let mut params = SimulationParams::default();
    params.fuel_amount = 1000 * SCALE;
    params.oxygen = 300 * SCALE;
    params.ember_amount = 100 * SCALE;
    let mut rng = SimRng::from_seed(31);
    sim.update(DT_FRAME, &params, &mut rng);
    assert_eq!(kind_count(&sim, ParticleType::Heat), 100);
    assert_eq!(kind_count(&sim, ParticleType::Ember), 300);
    for p in sim.particles.iter() {
        match p.kind {
            ParticleType::Heat => {
                assert!(0 <= p.x && p.x <= W);
                assert!(p.vx.abs() <= HEAT_VX_RANGE);
                assert!(HEAT_VY_MIN <= p.vy && p.vy <= HEAT_VY_MAX);
            }
            ParticleType::Ember => {
                assert!(0 <= p.x && p.x <= W);
                assert!(EMBER_VY_MIN <= p.vy && p.vy <= EMBER_VY_MAX);
            }
            _ => {}
        }
    }
    // A hundred independent draws across the width do not all agree; a
    // source that echoed a bound back would put every spawn at one column.
    let heat_xs: Vec<i64> = sim
        .particles
        .iter()
        .filter(|p| p.kind == ParticleType::Heat)
        .map(|p| p.x)
        .collect();
    assert!(heat_xs.iter().any(|x| *x != heat_xs[0]));
}
