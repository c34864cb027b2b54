//! The world: all entities and static walls, and the per-frame update.

use vstd::prelude::*;
use vstd::pervasive::VecAdditionalExecFns;
use std::collections::HashSet;
use crate::fixed::{COORD_LIMIT, DT_LIMIT};
use crate::rect::{rect_wf, RectModel, Rectangle};
use crate::entity::{blank_entity, entity_wf, Entity, EntityModel, Key};
use crate::physics::{rects_view, step_entity, update_entity, walls_wf};

verus! {

/// The world: a frame counter, the entities, and the static walls.
/// Entities and walls are identified by their index and never removed.
#[derive(Debug)]
pub struct Game {
    /// Counts the frames the surrounding loop has run.
    pub i: u32,
    pub entities: Vec<Entity>,
    pub walls: Vec<Rectangle>,
}

/// Mathematical model of the world.
pub struct GameModel {
    pub i: int,
    pub entities: Seq<EntityModel>,
    pub walls: Seq<RectModel>,
}

impl View for Game {
    type V = GameModel;

    open spec fn view(&self) -> GameModel {
        GameModel {
            i: self.i as int,
            entities: Seq::new(self.entities@.len(), |j: int| self.entities@[j]@),
            walls: rects_view(self.walls@),
        }
    }
}

/// Every entity and wall bounded enough for one update to stay inside
/// machine arithmetic.
pub open spec fn game_wf(g: GameModel) -> bool {
    &&& forall|j: int| 0 <= j < g.entities.len() ==> entity_wf(#[trigger] g.entities[j])
    &&& walls_wf(g.walls)
}

impl Game {
    /// An empty world.
    pub fn new() -> (g: Game)
        ensures
            g@.i == 0,
            g@.entities.len() == 0,
            g@.walls.len() == 0,
    {
        Game { i: 0, entities: Vec::new(), walls: Vec::new() }
    }

    /// Whether every entity and wall is inside the bounds `update` asks for.
    /// An unverified caller can test this before each frame and fail fast.
    pub fn can_update(&self) -> (r: bool)
        ensures
            r == game_wf(self@),
    {
        let mut j: usize = 0;
        let ne: usize = self.entities.len();
        while j < ne
            invariant
                0 <= j <= ne,
                ne == self.entities@.len(),
                forall|k: int| 0 <= k < j ==> entity_wf(#[trigger] self@.entities[k]),
            decreases ne - j,
        {
            let e = &self.entities[j];
            if !(-COORD_LIMIT <= e.position.x && e.position.x <= COORD_LIMIT && -COORD_LIMIT
                <= e.position.y && e.position.y <= COORD_LIMIT && -COORD_LIMIT <= e.velocity.x
                && e.velocity.x <= COORD_LIMIT && -COORD_LIMIT <= e.velocity.y && e.velocity.y
                <= COORD_LIMIT && -COORD_LIMIT <= e.hitbox.x && e.hitbox.x <= COORD_LIMIT
                && -COORD_LIMIT <= e.hitbox.y && e.hitbox.y <= COORD_LIMIT && 0 <= e.hitbox.w
                && e.hitbox.w <= COORD_LIMIT && 0 <= e.hitbox.h && e.hitbox.h <= COORD_LIMIT) {
                proof {
                    assert(!entity_wf(self@.entities[j as int]));
                }
                return false;
            }
            proof {
                assert(entity_wf(self@.entities[j as int]));
            }
            j += 1;
        }
        let mut k: usize = 0;
        let nw: usize = self.walls.len();
        while k < nw
            invariant
                0 <= k <= nw,
                nw == self.walls@.len(),
                forall|m: int| 0 <= m < ne ==> entity_wf(#[trigger] self@.entities[m]),
                ne == self.entities@.len(),
                forall|m: int| 0 <= m < k ==> rect_wf(#[trigger] self@.walls[m]),
            decreases nw - k,
        {
            let w = &self.walls[k];
            if !(-COORD_LIMIT <= w.x && w.x <= COORD_LIMIT && -COORD_LIMIT <= w.y && w.y
                <= COORD_LIMIT && 0 <= w.w && w.w <= COORD_LIMIT && 0 <= w.h && w.h
                <= COORD_LIMIT) {
                proof {
                    assert(!rect_wf(self@.walls[k as int]));
                }
                return false;
            }
            proof {
                assert(rect_wf(self@.walls[k as int]));
            }
            k += 1;
        }
        true
    }

    /// One frame: every entity is taken through `update_entity` against the
    /// current walls and held keys, independently and in place.  Entities and
    /// walls are neither created nor destroyed, and the counter is untouched.
    pub fn update(&mut self, keys: &HashSet<Key>, dt_ms: i64)
        requires
            game_wf(old(self)@),
            0 <= dt_ms <= DT_LIMIT,
        ensures
            final(self)@.i == old(self)@.i,
            final(self)@.walls == old(self)@.walls,
            final(self)@.entities.len() == old(self)@.entities.len(),
            forall|j: int|
                0 <= j < old(self)@.entities.len() ==> final(self)@.entities[j] == update_entity(
                    old(self)@.entities[j],
                    old(self)@.walls,
                    keys@,
                    dt_ms as int,
                ),
    {
        let n: usize = self.entities.len();
        let mut j: usize = 0;
        while j < n
            invariant
                0 <= j <= n,
                n == self.entities@.len(),
                n == old(self)@.entities.len(),
                self.walls == old(self).walls,
                self.i == old(self).i,
                0 <= dt_ms <= DT_LIMIT,
                walls_wf(rects_view(self.walls@)),
                forall|k: int| j <= k < n ==> self@.entities[k] == old(self)@.entities[k],
                forall|k: int| j <= k < n ==> entity_wf(#[trigger] self@.entities[k]),
                forall|k: int|
                    0 <= k < j ==> self@.entities[k] == update_entity(
                        old(self)@.entities[k],
                        old(self)@.walls,
                        keys@,
                        dt_ms as int,
                    ),
            decreases n - j,
        {
            let mut e: Entity = self.entities[j];
            proof {
                assert(e@ == self@.entities[j as int]);
                assert(entity_wf(self@.entities[j as int]));
            }
            let ghost prev = self@;
            step_entity(&mut e, &self.walls, keys, dt_ms);
            self.entities.set(j, e);
            proof {
                assert(rects_view(self.walls@) == old(self)@.walls);
                assert forall|k: int| 0 <= k < n && k != j implies self@.entities[k]
                    == prev.entities[k] by {
                    assert(self.entities@[k]@ == prev.entities[k]);
                }
                assert(self@.entities[j as int] == e@);
                assert(prev.entities[j as int] == old(self)@.entities[j as int]);
                assert forall|k: int|
                    j + 1 <= k < n implies self@.entities[k] == old(self)@.entities[k]
                    && entity_wf(#[trigger] self@.entities[k]) by {
                    assert(self@.entities[k] == prev.entities[k]);
                    assert(prev.entities[k] == old(self)@.entities[k]);
                    assert(entity_wf(prev.entities[k]));
                }
                assert forall|k: int|
                    0 <= k < j implies self@.entities[k] == update_entity(
                    old(self)@.entities[k],
                    old(self)@.walls,
                    keys@,
                    dt_ms as int,
                ) by {
                    assert(self@.entities[k] == prev.entities[k]);
                }
            }
            j += 1;
        }
    }

    /// Appends a wall and returns a copy of it.
    pub fn create_wall(&mut self, x: i64, y: i64, w: i64, h: i64) -> (r: Rectangle)
        ensures
            r@ == (RectModel { x: x as int, y: y as int, w: w as int, h: h as int }),
            final(self)@.walls == old(self)@.walls.push(r@),
            final(self)@.entities == old(self)@.entities,
            final(self)@.i == old(self)@.i,
    {
        let wall = Rectangle { x, y, w, h };
        self.walls.push(wall);
        proof {
            assert(self@.walls =~= old(self)@.walls.push(wall@));
            assert(self@.entities =~= old(self)@.entities);
        }
        wall
    }

    /// Constructs a blank entity, lets the caller-supplied initializer shape
    /// it, and appends the result to the entity list.
    pub fn spawn_entity<F: Fn(Entity) -> Entity>(&mut self, f: F)
        requires
            forall|e: Entity| e@ == blank_entity() ==> #[trigger] f.requires((e,)),
        ensures
            final(self)@.walls == old(self)@.walls,
            final(self)@.i == old(self)@.i,
            final(self)@.entities.len() == old(self)@.entities.len() + 1,
            final(self)@.entities.subrange(0, old(self)@.entities.len() as int) == old(
                self,
            )@.entities,
            exists|e: Entity, r: Entity|
                {
                    &&& e@ == blank_entity()
                    &&& #[trigger] f.ensures((e,), r)
                    &&& final(self)@.entities.last() == r@
                },
    {
        let e = Entity::new();
        let ghost e0 = e;
        let r = f(e);
        self.entities.push(r);
        proof {
            assert(self@.entities.subrange(0, old(self)@.entities.len() as int) =~= old(
                self,
            )@.entities);
            assert(f.ensures((e0,), r));
        }
    }
}

} // verus!
