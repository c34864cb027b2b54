//! Laws of the update rules, stated and proved once over the models.

use vstd::prelude::*;
use vstd::arithmetic::div_mod::{lemma_div_multiples_vanish, lemma_div_of0};
use crate::fixed::{sign, SCALE, SPEED};
use crate::rect::RectModel;
use crate::entity::{world_hitbox, EntityModel, InputBinding, Key};
use crate::game::GameModel;
use crate::physics::{
    blocked, dragged_vx, gravity_vy, input_velocity, key_accel, move_entity, resolve_x, resolve_y,
    substep, update_entity,
};

verus! {

/// A resolution that starts clear of every wall ends clear of every wall: a
/// colliding quarter step is undone, so the X resolver never leaves the
/// entity overlapping a wall.
proof fn lemma_resolve_x_clear(px: int, py: int, hb: RectModel, walls: Seq<RectModel>, s: int, k: nat)
    requires
        !blocked(RectModel { x: hb.x + px, y: hb.y + py, w: hb.w, h: hb.h }, walls),
    ensures
        !blocked(
            RectModel {
                x: hb.x + resolve_x(px, py, hb, walls, s, k).0,
                y: hb.y + py,
                w: hb.w,
                h: hb.h,
            },
            walls,
        ),
    decreases k,
{
    if k > 0 {
        let p = px + s;
        if !blocked(RectModel { x: hb.x + p, y: hb.y + py, w: hb.w, h: hb.h }, walls) {
            lemma_resolve_x_clear(p, py, hb, walls, s, (k - 1) as nat);
        }
    }
}

/// The same for the Y resolver.
proof fn lemma_resolve_y_clear(px: int, py: int, hb: RectModel, walls: Seq<RectModel>, s: int, k: nat)
    requires
        !blocked(RectModel { x: hb.x + px, y: hb.y + py, w: hb.w, h: hb.h }, walls),
    ensures
        !blocked(
            RectModel {
                x: hb.x + px,
                y: hb.y + resolve_y(px, py, hb, walls, s, k).0,
                w: hb.w,
                h: hb.h,
            },
            walls,
        ),
    decreases k,
{
    if k > 0 {
        let p = py + s;
        if !blocked(RectModel { x: hb.x + px, y: hb.y + p, w: hb.w, h: hb.h }, walls) {
            lemma_resolve_y_clear(px, p, hb, walls, s, (k - 1) as nat);
        }
    }
}

/// A zero step moves nothing and, from a clear start, collides with nothing.
proof fn lemma_resolve_x_static(px: int, py: int, hb: RectModel, walls: Seq<RectModel>, k: nat)
    requires
        !blocked(RectModel { x: hb.x + px, y: hb.y + py, w: hb.w, h: hb.h }, walls),
    ensures
        resolve_x(px, py, hb, walls, 0, k) == (px, false),
    decreases k,
{
    if k > 0 {
        lemma_resolve_x_static(px, py, hb, walls, (k - 1) as nat);
    }
}

/// The same for the Y resolver.
proof fn lemma_resolve_y_static(px: int, py: int, hb: RectModel, walls: Seq<RectModel>, k: nat)
    requires
        !blocked(RectModel { x: hb.x + px, y: hb.y + py, w: hb.w, h: hb.h }, walls),
    ensures
        resolve_y(px, py, hb, walls, 0, k) == (py, false),
    decreases k,
{
    if k > 0 {
        lemma_resolve_y_static(px, py, hb, walls, (k - 1) as nat);
    }
}

/// Resting contact stops velocity: whenever the movement rule reports a
/// vertical contact (`touch.y != 0`), the vertical velocity has been zeroed,
/// and the recorded contact direction is the sign of the blocked quarter
/// step.  The same holds on the X axis.
pub proof fn lemma_contact_stops_velocity(e: EntityModel, walls: Seq<RectModel>, dt: int)
    ensures
        ({
            let m = move_entity(e, walls, dt);
            let sx = substep(dragged_vx(e.velocity.x, dt), dt);
            let sy = substep(gravity_vy(e.velocity.y, dt), dt);
            &&& m.touch.y != 0 ==> m.velocity.y == 0 && m.touch.y == sign(sy)
            &&& m.touch.x != 0 ==> m.velocity.x == 0 && m.touch.x == sign(sx)
        }),
{
}

/// An entity that starts overlapping no wall still overlaps no wall after
/// the movement rule: a colliding quarter step is undone, so the hitbox
/// never comes to rest inside a wall.
pub proof fn lemma_no_penetration(e: EntityModel, walls: Seq<RectModel>, dt: int)
    requires
        !blocked(world_hitbox(e), walls),
    ensures
        !blocked(world_hitbox(move_entity(e, walls, dt)), walls),
{
    let sx = substep(dragged_vx(e.velocity.x, dt), dt);
    let sy = substep(gravity_vy(e.velocity.y, dt), dt);
    let rx = resolve_x(e.position.x, e.position.y, e.hitbox, walls, sx, 4);
    lemma_resolve_x_clear(e.position.x, e.position.y, e.hitbox, walls, sx, 4);
    lemma_resolve_y_clear(rx.0, e.position.y, e.hitbox, walls, sy, 4);
}

/// Axis independence: when nothing blocks the entity on the X axis, the
/// movement rule keeps the full dragged horizontal velocity, whatever the Y
/// resolution finds; a Y-only obstruction does not disturb X motion.
pub proof fn lemma_axis_independence(e: EntityModel, walls: Seq<RectModel>, dt: int)
    ensures
        ({
            let vx = dragged_vx(e.velocity.x, dt);
            let sx = substep(vx, dt);
            !resolve_x(e.position.x, e.position.y, e.hitbox, walls, sx, 4).1 ==> move_entity(
                e,
                walls,
                dt,
            ).velocity.x == vx
        }),
{
}

/// A zero time delta changes neither position nor velocity, provided a
/// moving entity does not start inside a wall (a zero step into an
/// overlapped wall still counts as a contact and zeroes velocity) and the jump impulse,
/// which time does not scale, cannot fire: an entity with `Movement` has
/// its grounded mark re-resolved to zero first, so only one without it can
/// jump off a stale mark.
pub proof fn lemma_zero_dt(e: EntityModel, walls: Seq<RectModel>, keys: Set<Key>)
    requires
        e.movement ==> !blocked(world_hitbox(e), walls),
        e.movement || (match e.input {
            Some(b) => !(keys.contains(b.jump) && e.touch.y == 1),
            None => true,
        }),
    ensures
        update_entity(e, walls, keys, 0).position == e.position,
        update_entity(e, walls, keys, 0).velocity == e.velocity,
{
    assert(dragged_vx(e.velocity.x, 0) == e.velocity.x) by {
        let vx = e.velocity.x;
        assert(vx * (2 * SCALE) == (2 * SCALE) * vx);
        lemma_div_multiples_vanish(vx, 2 * SCALE);
        if vx < 0 {
            assert((-vx) * (2 * SCALE) == (2 * SCALE) * (-vx));
            lemma_div_multiples_vanish(-vx, 2 * SCALE);
        }
    }
    assert(gravity_vy(e.velocity.y, 0) == e.velocity.y) by {
        lemma_div_of0(SCALE as int);
    }
    assert(substep(e.velocity.x, 0) == 0 && substep(e.velocity.y, 0) == 0) by {
        lemma_div_of0(4 * SCALE);
    }
    assert(key_accel(0) == 0) by {
        lemma_div_of0(SCALE as int);
    }
    if e.movement {
        lemma_resolve_x_static(e.position.x, e.position.y, e.hitbox, walls, 4);
        lemma_resolve_y_static(e.position.x, e.position.y, e.hitbox, walls, 4);
    }
}

/// The zero-delta law over a whole world: under the same provisos, one
/// `update` with a zero delta moves and accelerates no entity at all.
pub proof fn lemma_zero_dt_world(g: GameModel, keys: Set<Key>)
    requires
        forall|j: int|
            0 <= j < g.entities.len() && (#[trigger] g.entities[j]).movement ==> !blocked(
                world_hitbox(g.entities[j]),
                g.walls,
            ),
        forall|j: int|
            0 <= j < g.entities.len() ==> ((#[trigger] g.entities[j]).movement
                || (match g.entities[j].input {
                    Some(b) => !(keys.contains(b.jump) && g.entities[j].touch.y == 1),
                    None => true,
                })),
    ensures
        forall|j: int|
            0 <= j < g.entities.len() ==> update_entity(
                #[trigger] g.entities[j],
                g.walls,
                keys,
                0,
            ).position == g.entities[j].position,
        forall|j: int|
            0 <= j < g.entities.len() ==> update_entity(
                #[trigger] g.entities[j],
                g.walls,
                keys,
                0,
            ).velocity == g.entities[j].velocity,
{
    assert forall|j: int| 0 <= j < g.entities.len() implies update_entity(
        #[trigger] g.entities[j],
        g.walls,
        keys,
        0,
    ).position == g.entities[j].position && update_entity(
        g.entities[j],
        g.walls,
        keys,
        0,
    ).velocity == g.entities[j].velocity by {
        lemma_zero_dt(g.entities[j], g.walls, keys);
    }
}

/// Flag gating: an entity with neither a `Movement` flag nor an `Input`
/// binding is left exactly as it was, whatever keys are held and however
/// much time passes.
pub proof fn lemma_flag_gating(e: EntityModel, walls: Seq<RectModel>, keys: Set<Key>, dt: int)
    requires
        !e.movement,
        e.input is None,
    ensures
        update_entity(e, walls, keys, dt) == e,
{
}

/// `n` frames in a row over the same walls, keys and time delta.
pub open spec fn update_entity_many(
    e: EntityModel,
    walls: Seq<RectModel>,
    keys: Set<Key>,
    dt: int,
    n: nat,
) -> EntityModel
    decreases n,
{
    if n == 0 {
        e
    } else {
        update_entity(update_entity_many(e, walls, keys, dt, (n - 1) as nat), walls, keys, dt)
    }
}

/// Flag gating over any number of frames: an entity with neither flag is
/// still exactly as it was after arbitrarily many updates.
pub proof fn lemma_flag_gating_many(
    e: EntityModel,
    walls: Seq<RectModel>,
    keys: Set<Key>,
    dt: int,
    n: nat,
)
    requires
        !e.movement,
        e.input is None,
    ensures
        update_entity_many(e, walls, keys, dt, n) == e,
    decreases n,
{
    if n > 0 {
        lemma_flag_gating_many(e, walls, keys, dt, (n - 1) as nat);
        lemma_flag_gating(e, walls, keys, dt);
    }
}

/// Input gating: an entity without an `Input` binding is updated the same
/// way under any two held-key sets; held keys cannot reach it.
pub proof fn lemma_input_gating(
    e: EntityModel,
    walls: Seq<RectModel>,
    keys1: Set<Key>,
    keys2: Set<Key>,
    dt: int,
)
    requires
        e.input is None,
    ensures
        update_entity(e, walls, keys1, dt) == update_entity(e, walls, keys2, dt),
{
}

/// Jump gating: the jump impulse lands exactly when the entity is marked
/// grounded (`touch.y == 1`) and the bound jump key is held; an airborne
/// entity's vertical velocity is untouched by the input rule.
pub proof fn lemma_jump_gating(e: EntityModel, b: InputBinding, keys: Set<Key>, dt: int)
    ensures
        e.touch.y != 1 ==> input_velocity(e, b, keys, dt).y == e.velocity.y,
        !keys.contains(b.jump) ==> input_velocity(e, b, keys, dt).y == e.velocity.y,
        e.touch.y == 1 && keys.contains(b.jump) ==> input_velocity(e, b, keys, dt).y
            == e.velocity.y - SPEED,
{
}

} // verus!
