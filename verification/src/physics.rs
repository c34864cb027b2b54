//! The per-frame physics rules: drag and gravity, quarter-step axis-separated
//! collision resolution against static walls, and input-driven forces.
//!
//! Each rule is first stated as a spec function over the mathematical models,
//! then implemented by an executable function proved to compute exactly that.

use vstd::prelude::*;
use std::collections::HashSet;
use crate::fixed::{div_t, sign, sign_fix, div_fix, COORD_LIMIT, DT_LIMIT, GRAVITY_Y, SCALE, SPEED};
use crate::rect::{rect_in_range, rect_wf, rects_overlap, RectModel, Rectangle};
use crate::entity::{entity_wf, Entity, EntityModel, InputBinding, Key};
use crate::vector::Vec2Model;

verus! {

broadcast use vstd::std_specs::hash::group_hash_axioms;

/// Largest substep magnitude the resolver accepts.
pub const STEP_LIMIT: i64 = 200_000_000_000_000_000;

/// Largest coordinate magnitude that can arise while resolving: the starting
/// bound plus four full substeps, with room to spare.
pub const POS_RUN: i64 = 1_000_000_000_000_000_000;

/// The models of a sequence of wall rectangles.
pub open spec fn rects_view(ws: Seq<Rectangle>) -> Seq<RectModel> {
    Seq::new(ws.len(), |i: int| ws[i]@)
}

/// Every wall is well formed.
pub open spec fn walls_wf(ws: Seq<RectModel>) -> bool {
    forall|i: int| 0 <= i < ws.len() ==> rect_wf(#[trigger] ws[i])
}

/// The box `hb` strictly overlaps some wall.
pub open spec fn blocked(hb: RectModel, walls: Seq<RectModel>) -> bool {
    exists|i: int| 0 <= i < walls.len() && rects_overlap(hb, #[trigger] walls[i])
}

/// Horizontal velocity after one frame of anisotropic drag:
/// `v * (1 - 1.5 * dt)`, in fixed point with one truncating division.
pub open spec fn dragged_vx(vx: int, dt: int) -> int {
    div_t(vx * (2 * SCALE - 3 * dt), 2 * SCALE)
}

/// Vertical velocity after one frame of gravity: `v + 9.82 * dt`.
pub open spec fn gravity_vy(vy: int, dt: int) -> int {
    vy + div_t(GRAVITY_Y * dt, SCALE as int)
}

/// One quarter of the displacement a velocity produces over `dt`.
pub open spec fn substep(v: int, dt: int) -> int {
    div_t(v * dt, 4 * SCALE)
}

/// The velocity change a held direction key produces over `dt`.
pub open spec fn key_accel(dt: int) -> int {
    div_t(SPEED * dt, SCALE as int)
}

/// Axis-separated X resolution: starting from `px`, advance by `s` up to `k`
/// times; the first advance whose world hitbox overlaps a wall is undone and
/// reported as a collision, and the remaining advances are skipped.
pub open spec fn resolve_x(
    px: int,
    py: int,
    hb: RectModel,
    walls: Seq<RectModel>,
    s: int,
    k: nat,
) -> (int, bool)
    decreases k,
{
    if k == 0 {
        (px, false)
    } else {
        let p = px + s;
        if blocked(RectModel { x: hb.x + p, y: hb.y + py, w: hb.w, h: hb.h }, walls) {
            (px, true)
        } else {
            resolve_x(p, py, hb, walls, s, (k - 1) as nat)
        }
    }
}

/// The same resolution on the Y axis, with `px` held fixed.
pub open spec fn resolve_y(
    px: int,
    py: int,
    hb: RectModel,
    walls: Seq<RectModel>,
    s: int,
    k: nat,
) -> (int, bool)
    decreases k,
{
    if k == 0 {
        (py, false)
    } else {
        let p = py + s;
        if blocked(RectModel { x: hb.x + px, y: hb.y + p, w: hb.w, h: hb.h }, walls) {
            (py, true)
        } else {
            resolve_y(px, p, hb, walls, s, (k - 1) as nat)
        }
    }
}

/// The movement rule: drag and gravity on the velocity, then four quarter
/// steps on each axis, X fully before Y, zeroing the velocity component and
/// recording the step's sign in `touch` on the axis that hit a wall.
pub open spec fn move_entity(e: EntityModel, walls: Seq<RectModel>, dt: int) -> EntityModel {
    let vx = dragged_vx(e.velocity.x, dt);
    let vy = gravity_vy(e.velocity.y, dt);
    let sx = substep(vx, dt);
    let sy = substep(vy, dt);
    let rx = resolve_x(e.position.x, e.position.y, e.hitbox, walls, sx, 4);
    let ry = resolve_y(rx.0, e.position.y, e.hitbox, walls, sy, 4);
    EntityModel {
        position: Vec2Model { x: rx.0, y: ry.0 },
        velocity: Vec2Model { x: if rx.1 { 0 } else { vx }, y: if ry.1 { 0 } else { vy } },
        touch: Vec2Model { x: if rx.1 { sign(sx) } else { 0 }, y: if ry.1 { sign(sy) } else { 0 } },
        ..e
    }
}

/// The input rule: held direction keys accelerate the entity, and a held
/// jump key applies an instantaneous impulse, but only when the entity was
/// resolved as standing on ground (`touch.y == 1`).
pub open spec fn input_velocity(e: EntityModel, b: InputBinding, keys: Set<Key>, dt: int) -> Vec2Model {
    let a = key_accel(dt);
    let vx0 = if keys.contains(b.left) {
        e.velocity.x - a
    } else {
        e.velocity.x
    };
    let vx = if keys.contains(b.right) {
        vx0 + a
    } else {
        vx0
    };
    let vy = if keys.contains(b.jump) && e.touch.y == 1 {
        e.velocity.y - SPEED
    } else {
        e.velocity.y
    };
    Vec2Model { x: vx, y: vy }
}

/// One entity's whole frame: the movement rule when the `Movement` flag is
/// held, then the input rule when an `Input` binding is held.
pub open spec fn update_entity(
    e: EntityModel,
    walls: Seq<RectModel>,
    keys: Set<Key>,
    dt: int,
) -> EntityModel {
    let e1 = if e.movement {
        move_entity(e, walls, dt)
    } else {
        e
    };
    match e1.input {
        Some(b) => EntityModel { velocity: input_velocity(e1, b, keys, dt), ..e1 },
        None => e1,
    }
}

/// Whether any wall overlaps the given box.
pub(crate) fn hits_any(hb: &Rectangle, walls: &Vec<Rectangle>) -> (r: bool)
    requires
        rect_in_range(hb@),
        walls_wf(rects_view(walls@)),
    ensures
        r == blocked(hb@, rects_view(walls@)),
{
    let n: usize = walls.len();
    let mut j: usize = 0;
    while j < n
        invariant
            0 <= j <= n,
            n == walls@.len(),
            rect_in_range(hb@),
            walls_wf(rects_view(walls@)),
            forall|i: int| 0 <= i < j ==> !rects_overlap(hb@, #[trigger] rects_view(walls@)[i]),
        decreases n - j,
    {
        proof {
            assert(rects_view(walls@)[j as int] == walls@[j as int]@);
            assert(rect_wf(rects_view(walls@)[j as int]));
        }
        if hb.intersects(&walls[j]) {
            proof {
                assert(rects_overlap(hb@, rects_view(walls@)[j as int]));
            }
            return true;
        }
        j += 1;
    }
    false
}

/// X-axis quarter-step resolution on an entity, in place.
pub(crate) fn resolve_move_x(e: &mut Entity, walls: &Vec<Rectangle>, s: i64)
    requires
        -COORD_LIMIT <= old(e)@.position.x <= COORD_LIMIT,
        -POS_RUN <= old(e)@.position.y <= POS_RUN,
        rect_wf(old(e)@.hitbox),
        walls_wf(rects_view(walls@)),
        -STEP_LIMIT <= s <= STEP_LIMIT,
    ensures
        ({
            let r = resolve_x(
                old(e)@.position.x,
                old(e)@.position.y,
                old(e)@.hitbox,
                rects_view(walls@),
                s as int,
                4,
            );
            &&& final(e)@ == (EntityModel {
                position: Vec2Model { x: r.0, y: old(e)@.position.y },
                velocity: Vec2Model {
                    x: if r.1 { 0 } else { old(e)@.velocity.x },
                    y: old(e)@.velocity.y,
                },
                touch: Vec2Model {
                    x: if r.1 { sign(s as int) } else { old(e)@.touch.x },
                    y: old(e)@.touch.y,
                },
                ..old(e)@
            })
            &&& -POS_RUN <= final(e)@.position.x <= POS_RUN
        }),
{
    let ghost orig = e@;
    let ghost ws = rects_view(walls@);
    let mut i: u8 = 0;
    let mut collided: bool = false;
    while i < 4 && !collided
        invariant
            0 <= i <= 4,
            walls_wf(ws),
            ws == rects_view(walls@),
            rect_wf(orig.hitbox),
            -COORD_LIMIT <= orig.position.x <= COORD_LIMIT,
            -POS_RUN <= orig.position.y <= POS_RUN,
            -STEP_LIMIT <= s <= STEP_LIMIT,
            e@ == (EntityModel {
                position: Vec2Model { x: e@.position.x, y: orig.position.y },
                ..orig
            }),
            -(COORD_LIMIT + i * STEP_LIMIT) <= e@.position.x <= COORD_LIMIT + i * STEP_LIMIT,
            !collided ==> resolve_x(orig.position.x, orig.position.y, orig.hitbox, ws, s as int, 4)
                == resolve_x(e@.position.x, orig.position.y, orig.hitbox, ws, s as int, (4 - i) as nat),
            collided ==> resolve_x(orig.position.x, orig.position.y, orig.hitbox, ws, s as int, 4)
                == (e@.position.x as int, true),
        decreases 4 - i,
    {
        let ghost before = e@.position.x as int;
        e.position.x = e.position.x + s;
        let hb = e.get_hitbox();
        if hits_any(&hb, walls) {
            e.position.x = e.position.x - s;
            collided = true;
            proof {
                assert(resolve_x(before, orig.position.y, orig.hitbox, ws, s as int, (4 - i) as nat)
                    == (before, true));
            }
        } else {
            proof {
                assert(resolve_x(before, orig.position.y, orig.hitbox, ws, s as int, (4 - i) as nat)
                    == resolve_x(
                    before + s,
                    orig.position.y,
                    orig.hitbox,
                    ws,
                    s as int,
                    (3 - i) as nat,
                ));
            }
        }
        i = i + 1;
    }
    if collided {
        e.touch.x = sign_fix(s);
        e.velocity.x = 0;
    }
}

/// Y-axis quarter-step resolution on an entity, in place.
pub(crate) fn resolve_move_y(e: &mut Entity, walls: &Vec<Rectangle>, s: i64)
    requires
        -POS_RUN <= old(e)@.position.x <= POS_RUN,
        -COORD_LIMIT <= old(e)@.position.y <= COORD_LIMIT,
        rect_wf(old(e)@.hitbox),
        walls_wf(rects_view(walls@)),
        -STEP_LIMIT <= s <= STEP_LIMIT,
    ensures
        ({
            let r = resolve_y(
                old(e)@.position.x,
                old(e)@.position.y,
                old(e)@.hitbox,
                rects_view(walls@),
                s as int,
                4,
            );
            &&& final(e)@ == (EntityModel {
                position: Vec2Model { x: old(e)@.position.x, y: r.0 },
                velocity: Vec2Model {
                    x: old(e)@.velocity.x,
                    y: if r.1 { 0 } else { old(e)@.velocity.y },
                },
                touch: Vec2Model {
                    x: old(e)@.touch.x,
                    y: if r.1 { sign(s as int) } else { old(e)@.touch.y },
                },
                ..old(e)@
            })
            &&& -POS_RUN <= final(e)@.position.y <= POS_RUN
        }),
{
    let ghost orig = e@;
    let ghost ws = rects_view(walls@);
    let mut i: u8 = 0;
    let mut collided: bool = false;
    while i < 4 && !collided
        invariant
            0 <= i <= 4,
            walls_wf(ws),
            ws == rects_view(walls@),
            rect_wf(orig.hitbox),
            -COORD_LIMIT <= orig.position.y <= COORD_LIMIT,
            -POS_RUN <= orig.position.x <= POS_RUN,
            -STEP_LIMIT <= s <= STEP_LIMIT,
            e@ == (EntityModel {
                position: Vec2Model { x: orig.position.x, y: e@.position.y },
                ..orig
            }),
            -(COORD_LIMIT + i * STEP_LIMIT) <= e@.position.y <= COORD_LIMIT + i * STEP_LIMIT,
            !collided ==> resolve_y(orig.position.x, orig.position.y, orig.hitbox, ws, s as int, 4)
                == resolve_y(orig.position.x, e@.position.y, orig.hitbox, ws, s as int, (4 - i) as nat),
            collided ==> resolve_y(orig.position.x, orig.position.y, orig.hitbox, ws, s as int, 4)
                == (e@.position.y as int, true),
        decreases 4 - i,
    {
        let ghost before = e@.position.y as int;
        e.position.y = e.position.y + s;
        let hb = e.get_hitbox();
        if hits_any(&hb, walls) {
            e.position.y = e.position.y - s;
            collided = true;
            proof {
                assert(resolve_y(orig.position.x, before, orig.hitbox, ws, s as int, (4 - i) as nat)
                    == (before, true));
            }
        } else {
            proof {
                assert(resolve_y(orig.position.x, before, orig.hitbox, ws, s as int, (4 - i) as nat)
                    == resolve_y(
                    orig.position.x,
                    before + s,
                    orig.hitbox,
                    ws,
                    s as int,
                    (3 - i) as nat,
                ));
            }
        }
        i = i + 1;
    }
    if collided {
        e.touch.y = sign_fix(s);
        e.velocity.y = 0;
    }
}

/// The movement rule, in place: exactly `move_entity` on the entity's model.
pub(crate) fn apply_movement(e: &mut Entity, walls: &Vec<Rectangle>, dt_ms: i64)
    requires
        entity_wf(old(e)@),
        walls_wf(rects_view(walls@)),
        0 <= dt_ms <= DT_LIMIT,
    ensures
        final(e)@ == move_entity(old(e)@, rects_view(walls@), dt_ms as int),
        -100_000_000_000_000 <= final(e)@.velocity.x <= 100_000_000_000_000,
        -100_000_000_000_000 <= final(e)@.velocity.y <= 100_000_000_000_000,
{
    let fx: i64 = 2 * SCALE - 3 * dt_ms;
    proof {
        let vx0 = old(e)@.velocity.x;
        assert(-28_000_000_000_000_000 <= vx0 * fx <= 28_000_000_000_000_000)
            by (nonlinear_arith)
            requires
                -1_000_000_000_000 <= vx0 <= 1_000_000_000_000,
                -28000 <= fx <= 28000,
        ;
    }
    let vx1: i64 = div_fix(e.velocity.x * fx, 2 * SCALE);
    proof {
        crate::fixed::lemma_div_t_abs_le(
            old(e)@.velocity.x * fx,
            2 * SCALE,
            28_000_000_000_000_000,
        );
    }
    let g: i64 = div_fix(GRAVITY_Y * dt_ms, SCALE);
    let vy1: i64 = e.velocity.y + g;
    proof {
        assert(-140_000_000_000_000_000 <= vx1 * dt_ms <= 140_000_000_000_000_000)
            by (nonlinear_arith)
            requires
                -14_000_000_000_000 <= vx1 <= 14_000_000_000_000,
                0 <= dt_ms <= 10000,
        ;
        assert(-11_000_000_000_000_000 <= vy1 * dt_ms <= 11_000_000_000_000_000)
            by (nonlinear_arith)
            requires
                -1_100_000_000_000 <= vy1 <= 1_100_000_000_000,
                0 <= dt_ms <= 10000,
        ;
    }
    let sx: i64 = div_fix(vx1 * dt_ms, 4 * SCALE);
    let sy: i64 = div_fix(vy1 * dt_ms, 4 * SCALE);
    e.velocity.x = vx1;
    e.velocity.y = vy1;
    e.touch.x = 0;
    e.touch.y = 0;
    resolve_move_x(e, walls, sx);
    resolve_move_y(e, walls, sy);
}

/// The input rule, in place: exactly `input_velocity` on the entity's model.
pub(crate) fn apply_input(e: &mut Entity, b: InputBinding, keys: &HashSet<Key>, dt_ms: i64)
    requires
        -100_000_000_000_000 <= old(e)@.velocity.x <= 100_000_000_000_000,
        -100_000_000_000_000 <= old(e)@.velocity.y <= 100_000_000_000_000,
        0 <= dt_ms <= DT_LIMIT,
    ensures
        final(e)@ == (EntityModel {
            velocity: input_velocity(old(e)@, b, keys@, dt_ms as int),
            ..old(e)@
        }),
{
    let a: i64 = div_fix(SPEED * dt_ms, SCALE);
    if keys.contains(&b.left) {
        e.velocity.x = e.velocity.x - a;
    }
    if keys.contains(&b.right) {
        e.velocity.x = e.velocity.x + a;
    }
    if keys.contains(&b.jump) && e.touch.y == 1 {
        e.velocity.y = e.velocity.y - SPEED;
    }
}

/// One entity's whole frame, in place: exactly `update_entity` on its model.
pub(crate) fn step_entity(e: &mut Entity, walls: &Vec<Rectangle>, keys: &HashSet<Key>, dt_ms: i64)
    requires
        entity_wf(old(e)@),
        walls_wf(rects_view(walls@)),
        0 <= dt_ms <= DT_LIMIT,
    ensures
        final(e)@ == update_entity(old(e)@, rects_view(walls@), keys@, dt_ms as int),
{
    if e.movement {
        apply_movement(e, walls, dt_ms);
    }
    let inp: Option<InputBinding> = e.input;
    if let Some(b) = inp {
        apply_input(e, b, keys, dt_ms);
    }
}

} // verus!
