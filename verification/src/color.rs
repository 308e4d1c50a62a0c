//! The color each particle kind is drawn with. The renderer owns pixels and
//! blending; this module only fixes the mapping from a particle's kind and
//! size to an RGBA color, so that it is the same in every drawing mode.

use vstd::prelude::*;
use crate::fixed::{fx_div, tdiv, SCALE};
use crate::constants::{HEAT_BASE_SIZE, HEAT_SIZE_CAP, SMOKE_SIZE};
use crate::particle::ParticleType;

verus! {

/// Clamp a value into `[lo, hi]`.
pub open spec fn clamp_spec(v: int, lo: int, hi: int) -> int {
    if v < lo {
        lo
    } else if v > hi {
        hi
    } else {
        v
    }
}

/// The color of a particle of the given kind and visual size.
///
/// Fuel is embers-on-wood brown and embers are bright yellow, both fixed.
/// Heat fades from dark orange to near white as its size ratio to the spawn
/// size grows. Smoke is grey, its alpha thinning as the puff grows.
pub open spec fn particle_color_spec(kind: ParticleType, size: int) -> (int, int, int, int) {
    match kind {
        ParticleType::Fuel => (100, 50, 0, 255),
        ParticleType::Heat => {
            let ratio = clamp_spec(tdiv(size * SCALE, HEAT_BASE_SIZE as int), 0, SCALE as int);
            (200 + tdiv(55 * ratio, SCALE as int), 70 + tdiv(95 * ratio, SCALE as int), 0, 255)
        },
        ParticleType::Smoke => {
            let fade = clamp_spec(
                150 * SCALE - (size - SMOKE_SIZE) * 10,
                30 * SCALE,
                150 * SCALE,
            );
            (100, 100, 100, tdiv(fade, SCALE as int))
        },
        ParticleType::Ember => (255, 200, 50, 255),
    }
}

/// Compute the color of a particle; sizes straight out of the store always
/// satisfy the bound.
pub fn particle_color(kind: ParticleType, size: i64) -> (c: (u8, u8, u8, u8))
    requires
        0 <= size <= HEAT_SIZE_CAP,
    ensures
        (c.0 as int, c.1 as int, c.2 as int, c.3 as int) == particle_color_spec(
            kind,
            size as int,
        ),
{
    match kind {
        ParticleType::Fuel => (100, 50, 0, 255),
        ParticleType::Heat => {
            let raw = fx_div(size * SCALE, HEAT_BASE_SIZE);
            let ratio = if raw < 0 {
                0
            } else if raw > SCALE {
                SCALE
            } else {
                raw
            };
            let r = 200 + fx_div(55 * ratio, SCALE);
            let g = 70 + fx_div(95 * ratio, SCALE);
            (r as u8, g as u8, 0, 255)
        },
        ParticleType::Smoke => {
            let raw = 150 * SCALE - (size - SMOKE_SIZE) * 10;
            let fade = if raw < 30 * SCALE {
                30 * SCALE
            } else if raw > 150 * SCALE {
                150 * SCALE
            } else {
                raw
            };
            let a = fx_div(fade, SCALE);
            (100, 100, 100, a as u8)
        },
        ParticleType::Ember => (255, 200, 50, 255),
    }
}

} // verus!
