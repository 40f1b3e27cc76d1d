//! The simulation's general laws, stated and proved once and for
//! all inputs: how movement, facing, reproduction and growth behave
//! over whole ranges of states, beyond what any single scenario can
//! show.

use vstd::arithmetic::div_mod::lemma_div_is_ordered;
use vstd::arithmetic::div_mod::lemma_div_multiples_vanish;
use vstd::arithmetic::div_mod::lemma_div_of0;
use vstd::arithmetic::div_mod::lemma_div_pos_is_pos;
use vstd::arithmetic::div_mod::lemma_mod_division_less_than_divisor;
use vstd::arithmetic::mul::lemma_mul_inequality;
use vstd::prelude::*;

use crate::EGG_SPAWN_PERIOD_MS;
use crate::GROWTH_PERIOD_MS;
use crate::chicken::ChickenState;
use crate::chicken::EggSpawnTimer;
use crate::chicken::grown_state;
use crate::chicken::ticked_spawn_timer;
use crate::entity::axis_moved;
use crate::entity::flipped_scale_x;
use crate::entity::lemma_zero_dist;
use crate::entity::moved_x;
use crate::entity::moved_y;
use crate::entity::speed_step;
use crate::geom::Vec2;
use crate::geom::dist;
use crate::geom::dist_i;
use crate::geom::dist_sq_i;
use crate::geom::lemma_sqrt_floor_monotone;
use crate::geom::sqrt_floor;

verus! {

/// A movement pass over a zero time delta moves nothing: with
/// `dt = 0` every position is exactly unchanged.
pub proof fn lemma_movement_zero_dt(p: Vec2, t: Vec2)
    ensures
        moved_x(p, t, 0) == p.x,
        moved_y(p, t, 0) == p.y,
{
    let d = dist(p, t);
    assert(speed_step(0) == 0);
    if d != 0 {
        assert((t.x - p.x) * 0 == 0) by (nonlinear_arith);
        assert((p.x - t.x) * 0 == 0) by (nonlinear_arith);
        assert((t.y - p.y) * 0 == 0) by (nonlinear_arith);
        assert((p.y - t.y) * 0 == 0) by (nonlinear_arith);
        lemma_div_of0(d);
    }
}

/// Moving one coordinate toward the target never increases the
/// squared difference on that axis, as long as the step does not
/// exceed the whole distance.
proof fn lemma_axis_step_closer(p: int, q: int, step: int, d: int)
    requires
        0 < d,
        0 <= step <= d,
    ensures
        (q - axis_moved(p, q, step, d)) * (q - axis_moved(p, q, step, d)) <= (q - p) * (q - p),
{
    if q >= p {
        let diff = q - p;
        let m = (diff * step) / d;
        assert(diff * step >= 0) by (nonlinear_arith)
            requires
                diff >= 0 && step >= 0,
        ;
        lemma_div_pos_is_pos(diff * step, d);
        lemma_mul_inequality(step, d, diff);
        lemma_div_is_ordered(diff * step, d * diff, d);
        lemma_div_multiples_vanish(diff, d);
        assert(m <= diff);
        assert((diff - m) * (diff - m) <= diff * diff) by (nonlinear_arith)
            requires
                0 <= m <= diff,
        ;
    } else {
        let diff = p - q;
        let m = (diff * step) / d;
        assert(diff * step >= 0) by (nonlinear_arith)
            requires
                diff >= 0 && step >= 0,
        ;
        lemma_div_pos_is_pos(diff * step, d);
        lemma_mul_inequality(step, d, diff);
        lemma_div_is_ordered(diff * step, d * diff, d);
        lemma_div_multiples_vanish(diff, d);
        assert(m <= diff);
        assert((m - diff) * (m - diff) <= (q - p) * (q - p)) by (nonlinear_arith)
            requires
                0 <= m <= diff && diff == p - q,
        ;
    }
}

/// As long as the target stands still and one step does not overrun
/// the remaining distance, a movement pass never increases the
/// distance to the target: approach is monotone.
pub proof fn lemma_movement_approaches_target(p: Vec2, t: Vec2, dt_ms: int)
    requires
        0 <= dt_ms,
        speed_step(dt_ms) <= dist(p, t),
    ensures
        dist_i(moved_x(p, t, dt_ms), moved_y(p, t, dt_ms), t.x as int, t.y as int) <= dist(p, t),
{
    let d = dist(p, t);
    let step = speed_step(dt_ms);
    if d == 0 {
        lemma_zero_dist(p, t);
        assert(moved_x(p, t, dt_ms) == p.x + step);
        assert(dist_sq_i(p.x + step, p.y as int, t.x as int, t.y as int) == step * step);
        assert(step * step == 0) by (nonlinear_arith)
            requires
                step == 0,
        ;
    } else {
        let mx = moved_x(p, t, dt_ms);
        let my = moved_y(p, t, dt_ms);
        lemma_axis_step_closer(p.x as int, t.x as int, step, d);
        lemma_axis_step_closer(p.y as int, t.y as int, step, d);
        assert(dist_sq_i(mx, my, t.x as int, t.y as int) <= dist_sq_i(
            p.x as int,
            p.y as int,
            t.x as int,
            t.y as int,
        ));
        assert((t.x - mx) * (t.x - mx) >= 0 && (t.y - my) * (t.y - my) >= 0) by (nonlinear_arith);
        lemma_sqrt_floor_monotone(
            dist_sq_i(mx, my, t.x as int, t.y as int) as nat,
            dist_sq_i(p.x as int, p.y as int, t.x as int, t.y as int) as nat,
        );
    }
}

/// After a facing pass the sign of the x scale agrees with the side
/// the target lies on, except when the target sits exactly on the
/// entity's vertical line, where nothing changes.
pub proof fn lemma_facing_matches_direction(px: int, tx: int, sx: int)
    requires
        sx != 0,
    ensures
        tx > px ==> flipped_scale_x(px, tx, sx) > 0,
        tx < px ==> flipped_scale_x(px, tx, sx) < 0,
        tx == px ==> flipped_scale_x(px, tx, sx) == sx,
{
}

/// An egg is laid in a tick exactly when the spawn timer's
/// accumulated time crosses its 10-second period, and right after the
/// pass the accumulated time is back below the period and never
/// negative.
pub proof fn lemma_egg_laid_iff_period_crossed(t: EggSpawnTimer, dt_ms: int)
    requires
        t.inv(),
        0 <= dt_ms,
    ensures
        t.timer.fires(dt_ms) <==> t.timer.elapsed_ms + dt_ms >= EGG_SPAWN_PERIOD_MS,
        0 <= ticked_spawn_timer(t, dt_ms).timer.elapsed_ms < EGG_SPAWN_PERIOD_MS,
{
    lemma_mod_division_less_than_divisor(
        t.timer.elapsed_ms + dt_ms,
        t.timer.duration_ms as int,
    );
}

/// A child becomes an adult exactly when its growth timer's
/// accumulated time reaches the 5-second period, and `Adult` is
/// terminal: any further pass leaves an adult an adult.
pub proof fn lemma_growth_adult_terminal(st: ChickenState, dt_ms: int, dt2_ms: int)
    requires
        st.inv(),
        0 <= dt_ms,
        0 <= dt2_ms,
    ensures
        grown_state(ChickenState::Adult, dt_ms) == ChickenState::Adult,
        st matches ChickenState::Child(tm) ==> (grown_state(st, dt_ms) == ChickenState::Adult
            <==> tm.elapsed_ms + dt_ms >= GROWTH_PERIOD_MS),
        grown_state(st, dt_ms) == ChickenState::Adult ==> grown_state(
            grown_state(st, dt_ms),
            dt2_ms,
        ) == ChickenState::Adult,
{
}

} // verus!
