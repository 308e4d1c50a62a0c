//! Laws the simulation obeys across a whole tick, stated over the tick's
//! mathematical model and proved once and for all.

use vstd::prelude::*;
use crate::particle::{env_ok, expires, step_spec, ParticleModel, StepEnv};
use crate::sim::emit_positions;

verus! {

/// The heat particles that the update rule retires this tick, in store
/// order.
pub open spec fn expiring_heats(ms: Seq<ParticleModel>, e: StepEnv) -> Seq<ParticleModel> {
    ms.filter(|m: ParticleModel| expires(m, e))
}

/// Where a retiring heat particle leaves its smoke: at the position the
/// particle reached in its final tick.
pub open spec fn smoke_birth(m: ParticleModel, e: StepEnv) -> (int, int) {
    (step_spec(m, e).x, step_spec(m, e).y)
}

/// One birth position for each retiring heat particle, in store order.
pub open spec fn smoke_births(ms: Seq<ParticleModel>, e: StepEnv) -> Seq<(int, int)> {
    expiring_heats(ms, e).map_values(|m: ParticleModel| smoke_birth(m, e))
}

/// Conservation of retiring heat into smoke: the positions a tick owes
/// smoke at are exactly one per heat particle whose derived size fell below
/// the minimum this tick, in store order, each at that particle's final
/// position. Together with a tick's contract this pins the smoke hand-off
/// down: with smoke enabled the store gains exactly one smoke particle per
/// retiring heat particle, at its final position, and with smoke disabled
/// it gains none from retirement.
pub proof fn lemma_heat_smoke_conservation(ms: Seq<ParticleModel>, e: StepEnv)
    ensures
        emit_positions(ms, e) == smoke_births(ms, e),
        emit_positions(ms, e).len() == expiring_heats(ms, e).len(),
        forall|j: int|
            0 <= j < expiring_heats(ms, e).len() ==> #[trigger] emit_positions(ms, e)[j]
                == smoke_birth(expiring_heats(ms, e)[j], e),
    decreases ms.len(),
{
    reveal(Seq::filter);
    let pred = |m: ParticleModel| expires(m, e);
    if ms.len() == 0 {
        assert(emit_positions(ms, e) =~= smoke_births(ms, e));
    } else {
        lemma_heat_smoke_conservation(ms.drop_last(), e);
        assert(ms.drop_last().filter(pred) == expiring_heats(ms.drop_last(), e));
        if pred(ms.last()) {
            assert(ms.filter(pred) == ms.drop_last().filter(pred).push(ms.last()));
            assert(smoke_births(ms, e) =~= smoke_births(ms.drop_last(), e).push(
                smoke_birth(ms.last(), e),
            ));
        } else {
            assert(ms.filter(pred) == ms.drop_last().filter(pred));
        }
        assert(emit_positions(ms, e) =~= smoke_births(ms, e));
    }
}


/// A particle's kind never changes: one tick of the update rule leaves it
/// exactly as it was. A lifecycle transition retires one particle and
/// spawns another instead.
pub proof fn lemma_kind_never_changes(m: ParticleModel, e: StepEnv)
    ensures
        step_spec(m, e).kind == m.kind,
{
}

/// A particle's remaining life is never re-extended: one tick of the update
/// rule, under a sane environment, only drains it.
pub proof fn lemma_life_never_grows(m: ParticleModel, e: StepEnv)
    requires
        env_ok(e),
        m.lifetime >= 0,
    ensures
        step_spec(m, e).lifetime <= m.lifetime,
{
}

} // verus!
