//! Entities and their capability flags.

use vstd::prelude::*;
use crate::fixed::{COORD_LIMIT};
use crate::rect::{rect_translated, rect_wf, RectModel, Rectangle};
use crate::vector::{Vec2Model, Vector2D};

verus! {

/// An abstract key identity, as delivered by the window's keyboard events.
pub type Key = u32;

/// A capability attached to an entity; each flag opts the entity into one
/// behavior rule of the per-frame update.
#[derive(Debug, Clone, Copy, PartialEq, Eq, Structural)]
pub enum Flag {
    /// Opts the entity into gravity, drag and wall collision.
    Movement,
    /// Tells the renderer to skip the entity; no effect on physics.
    Hidden,
    /// Binds key identities to directional control.
    Input { jump: Key, left: Key, right: Key, up: Key, down: Key },
}

/// The key bindings carried by an `Input` flag.  `up` and `down` are carried
/// in the data but consumed by no rule.
#[derive(Debug, Clone, Copy, PartialEq, Eq, Structural)]
pub struct InputBinding {
    pub jump: Key,
    pub left: Key,
    pub right: Key,
    pub up: Key,
    pub down: Key,
}

/// A movable object.  Each capability is a dedicated field, so an entity
/// holds at most one `Input` binding and a later one replaces the earlier.
#[derive(Debug, Clone, Copy)]
pub struct Entity {
    /// Whether the entity takes part in gravity, drag and collision.
    pub movement: bool,
    /// Whether the renderer skips the entity.
    pub hidden: bool,
    /// The key bindings, when the entity is driven by input.
    pub input: Option<InputBinding>,
    /// World-space origin, fixed-point units.
    pub position: Vector2D,
    /// Units per second, fixed-point.
    pub velocity: Vector2D,
    /// Which axis directions were blocked by a wall in the most recent
    /// resolution pass: -1, 0 or 1 per axis.
    pub touch: Vector2D,
    /// Entity-local hitbox, translated by `position` to get the world box.
    pub hitbox: Rectangle,
}

/// Mathematical model of an entity.
pub struct EntityModel {
    pub movement: bool,
    pub hidden: bool,
    pub input: Option<InputBinding>,
    pub position: Vec2Model,
    pub velocity: Vec2Model,
    pub touch: Vec2Model,
    pub hitbox: RectModel,
}

impl View for Entity {
    type V = EntityModel;

    open spec fn view(&self) -> EntityModel {
        EntityModel {
            movement: self.movement,
            hidden: self.hidden,
            input: self.input,
            position: self.position@,
            velocity: self.velocity@,
            touch: self.touch@,
            hitbox: self.hitbox@,
        }
    }
}

/// The entity's hitbox placed at its position.
pub open spec fn world_hitbox(e: EntityModel) -> RectModel {
    rect_translated(e.hitbox, e.position.x, e.position.y)
}

/// An entity whose position, velocity and hitbox are bounded enough for one
/// update step to stay inside machine arithmetic.
pub open spec fn entity_wf(e: EntityModel) -> bool {
    &&& -COORD_LIMIT <= e.position.x <= COORD_LIMIT
    &&& -COORD_LIMIT <= e.position.y <= COORD_LIMIT
    &&& -COORD_LIMIT <= e.velocity.x <= COORD_LIMIT
    &&& -COORD_LIMIT <= e.velocity.y <= COORD_LIMIT
    &&& rect_wf(e.hitbox)
}

/// The entity every spawn starts from: no flags, zero vectors, zero hitbox.
pub open spec fn blank_entity() -> EntityModel {
    EntityModel {
        movement: false,
        hidden: false,
        input: None,
        position: Vec2Model { x: 0, y: 0 },
        velocity: Vec2Model { x: 0, y: 0 },
        touch: Vec2Model { x: 0, y: 0 },
        hitbox: RectModel { x: 0, y: 0, w: 0, h: 0 },
    }
}

impl Entity {
    /// A blank entity: no flags, everything zero.
    pub fn new() -> (e: Entity)
        ensures
            e@ == blank_entity(),
    {
        Entity {
            movement: false,
            hidden: false,
            input: None,
            position: Vector2D::new(),
            velocity: Vector2D::new(),
            touch: Vector2D::new(),
            hitbox: Rectangle::new(),
        }
    }

    /// Grants the capability named by `flag`.  A second `Input` flag
    /// replaces the earlier binding rather than standing beside it.
    pub fn add_flag(&mut self, flag: Flag)
        ensures
            final(self)@ == (match flag {
                Flag::Movement => EntityModel { movement: true, ..old(self)@ },
                Flag::Hidden => EntityModel { hidden: true, ..old(self)@ },
                Flag::Input { jump, left, right, up, down } => EntityModel {
                    input: Some(InputBinding { jump, left, right, up, down }),
                    ..old(self)@
                },
            }),
    {
        match flag {
            Flag::Movement => {
                self.movement = true;
            },
            Flag::Hidden => {
                self.hidden = true;
            },
            Flag::Input { jump, left, right, up, down } => {
                self.input = Some(InputBinding { jump, left, right, up, down });
            },
        }
    }

    /// The hitbox in world space: the local hitbox translated by the
    /// current position.  Always recomputed, never cached.
    pub fn get_hitbox(&self) -> (r: Rectangle)
        requires
            i64::MIN <= self.hitbox@.x + self.position@.x <= i64::MAX,
            i64::MIN <= self.hitbox@.y + self.position@.y <= i64::MAX,
        ensures
            r@ == world_hitbox(self@),
    {
        self.hitbox.translate(self.position.x, self.position.y)
    }
}

} // verus!
