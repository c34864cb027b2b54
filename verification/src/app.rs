//! The application shell's state: the set of currently held keys, fed by the
//! window's press and release events, and the per-frame hand-off to the world.

use vstd::prelude::*;
use std::collections::HashSet;
use crate::entity::Key;
use crate::fixed::DT_LIMIT;
use crate::game::{game_wf, Game};
use crate::physics::update_entity;

verus! {

broadcast use vstd::std_specs::hash::group_hash_axioms;

/// Holds what the surrounding event loop needs between frames: the set of
/// keys currently held down.  A press inserts its key, a release removes it.
pub struct App {
    pub keys: HashSet<Key>,
}

impl View for App {
    type V = Set<Key>;

    open spec fn view(&self) -> Set<Key> {
        self.keys@
    }
}

impl App {
    /// A shell with no key held.
    pub fn new() -> (a: App)
        ensures
            a@ == Set::<Key>::empty(),
    {
        App { keys: HashSet::new() }
    }

    /// Records that `key` went down.
    pub fn handle_keydown(&mut self, key: Key)
        ensures
            final(self)@ == old(self)@.insert(key),
    {
        self.keys.insert(key);
    }

    /// Records that `key` went up.
    pub fn handle_keyup(&mut self, key: Key)
        ensures
            final(self)@ == old(self)@.remove(key),
    {
        self.keys.remove(&key);
    }

    /// Runs one world frame against the currently held keys.
    pub fn update(&mut self, dt_ms: i64, game: &mut Game)
        requires
            game_wf(old(game)@),
            0 <= dt_ms <= DT_LIMIT,
        ensures
            final(self)@ == old(self)@,
            final(game)@.i == old(game)@.i,
            final(game)@.walls == old(game)@.walls,
            final(game)@.entities.len() == old(game)@.entities.len(),
            forall|j: int|
                0 <= j < old(game)@.entities.len() ==> final(game)@.entities[j] == update_entity(
                    old(game)@.entities[j],
                    old(game)@.walls,
                    old(self)@,
                    dt_ms as int,
                ),
    {
        game.update(&self.keys, dt_ms);
    }
}

} // verus!
