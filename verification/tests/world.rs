use std::collections::HashSet;

use platformer::app::App;
use platformer::entity::{Entity, Flag};
use platformer::game::Game;

const SPACE: u32 = 32;
const LEFT: u32 = 37;
const RIGHT: u32 = 39;
const UP: u32 = 38;
const DOWN: u32 = 40;

fn player() -> Flag {
    Flag::Input { jump: SPACE, left: LEFT, right: RIGHT, up: UP, down: DOWN }
}

fn no_keys() -> HashSet<u32> {
    HashSet::new()
}

fn spawn_mover(game: &mut Game, x: i64, y: i64, vx: i64, vy: i64) {
    game.spawn_entity(|mut e: Entity| {
        e.add_flag(Flag::Movement);
        e.position.x = x;
        e.position.y = y;
        e.velocity.x = vx;
        e.velocity.y = vy;
        e.hitbox.w = 1000;
        e.hitbox.h = 1000;
        e
    });
}

#[test]
fn spawn_and_create_wall() {
    let mut game = Game::new();
    assert_eq!(game.i, 0);
    let wall = game.create_wall(2000, 9000, 500, 1100);
    assert_eq!((wall.x, wall.y, wall.w, wall.h), (2000, 9000, 500, 1100));
    assert_eq!(game.walls.len(), 1);
    game.spawn_entity(|mut e: Entity| {
        e.add_flag(Flag::Movement);
        e.add_flag(player());
        e.velocity.x = 1000;
        e.hitbox.w = 400;
        e.hitbox.h = 1200;
        e
    });
    assert_eq!(game.entities.len(), 1);
    let e = &game.entities[0];
    assert!(e.movement);
    assert!(!e.hidden);
    assert_eq!(e.input.unwrap().jump, SPACE);
    assert_eq!(e.velocity.x, 1000);
    assert_eq!((e.hitbox.w, e.hitbox.h), (400, 1200));
}

#[test]
fn add_flag_replaces_input_binding() {
    let mut e = Entity::new();
    e.add_flag(Flag::Input { jump: 1, left: 2, right: 3, up: 4, down: 5 });
    e.add_flag(Flag::Input { jump: 9, left: 8, right: 7, up: 6, down: 5 });
    let b = e.input.unwrap();
    assert_eq!((b.jump, b.left, b.right, b.up, b.down), (9, 8, 7, 6, 5));
    assert!(!e.movement);
    e.add_flag(Flag::Hidden);
    assert!(e.hidden);
}

#[test]
fn get_hitbox_follows_position() {
    let mut e = Entity::new();
    e.position.x = 1500;
    e.position.y = -500;
    e.hitbox.x = 100;
    e.hitbox.y = 200;
    e.hitbox.w = 400;
    e.hitbox.h = 1200;
    let hb = e.get_hitbox();
    assert_eq!((hb.x, hb.y, hb.w, hb.h), (1600, -300, 400, 1200));
}

#[test]
fn one_frame_of_drag_and_gravity() {
    let mut game = Game::new();
    spawn_mover(&mut game, 0, 0, 3000, 4000);
    // One whole second: drag factor 1 - 1.5 = -0.5, gravity adds 9.82 u/s.
    game.update(&no_keys(), 1000);
    let e = &game.entities[0];
    assert_eq!(e.velocity.x, -1500);
    assert_eq!(e.velocity.y, 13820);
    assert_eq!(e.position.x, -1500);
    assert_eq!(e.position.y, 13820);
    assert_eq!((e.touch.x, e.touch.y), (0, 0));
}

#[test]
fn falling_entity_rests_on_wall() {
    let mut game = Game::new();
    let wall = game.create_wall(-100_000, 5000, 200_000, 1000);
    spawn_mover(&mut game, 0, 0, 0, 0);
    let mut touched = false;
    for _ in 0..200 {
        assert!(game.can_update());
        game.update(&no_keys(), 100);
        let e = &game.entities[0];
        // The hitbox never comes to rest inside the wall.
        assert!(!e.get_hitbox().intersects(&wall));
        if e.touch.y != 0 {
            touched = true;
            // Contact comes from below and stops the fall.
            assert_eq!(e.touch.y, 1);
            assert_eq!(e.velocity.y, 0);
        }
    }
    assert!(touched);
    let e = &game.entities[0];
    assert_eq!(e.velocity.y, 0);
    assert_eq!(e.touch.y, 1);
    // Resting just above the wall's top edge, never past it.
    assert!(e.position.y + e.hitbox.h <= wall.y);
}

#[test]
fn corner_blocks_y_but_not_x() {
    let mut game = Game::new();
    // A floor only; nothing blocks horizontal motion.
    game.create_wall(-100_000, 2000, 200_000, 1000);
    spawn_mover(&mut game, 0, 0, 2000, 2000);
    let mut frames = 0;
    while game.entities[0].touch.y != 1 && frames < 20 {
        game.update(&no_keys(), 100);
        frames += 1;
    }
    let e = &game.entities[0];
    assert_eq!(e.touch.y, 1);
    assert_eq!(e.velocity.y, 0);
    // The Y-only obstruction left horizontal motion alone.
    assert_eq!(e.touch.x, 0);
    assert!(e.velocity.x > 0);
}

#[test]
fn zero_dt_changes_nothing() {
    let mut game = Game::new();
    game.create_wall(-100_000, 5000, 200_000, 1000);
    game.spawn_entity(|mut e: Entity| {
        e.add_flag(Flag::Movement);
        e.add_flag(player());
        e.position.x = 700;
        e.position.y = 900;
        e.velocity.x = 1234;
        e.velocity.y = -5678;
        e.hitbox.w = 1000;
        e.hitbox.h = 1000;
        e
    });
    let mut keys = HashSet::new();
    keys.insert(RIGHT);
    keys.insert(SPACE);
    game.update(&keys, 0);
    let e = &game.entities[0];
    assert_eq!((e.position.x, e.position.y), (700, 900));
    assert_eq!((e.velocity.x, e.velocity.y), (1234, -5678));
}

#[test]
fn entity_without_movement_ignores_gravity() {
    let mut game = Game::new();
    game.spawn_entity(|mut e: Entity| {
        e.position.x = 100;
        e.position.y = 200;
        e.velocity.x = 300;
        e.velocity.y = 400;
        e
    });
    for _ in 0..50 {
        game.update(&no_keys(), 100);
    }
    let e = &game.entities[0];
    assert_eq!((e.position.x, e.position.y), (100, 200));
    assert_eq!((e.velocity.x, e.velocity.y), (300, 400));
}

#[test]
fn entity_without_input_ignores_keys() {
    let mut with_keys = Game::new();
    spawn_mover(&mut with_keys, 0, 0, 1000, 0);
    let mut without_keys = Game::new();
    spawn_mover(&mut without_keys, 0, 0, 1000, 0);
    let mut keys = HashSet::new();
    keys.insert(LEFT);
    keys.insert(RIGHT);
    keys.insert(SPACE);
    for _ in 0..10 {
        with_keys.update(&keys, 100);
        without_keys.update(&no_keys(), 100);
    }
    let a = &with_keys.entities[0];
    let b = &without_keys.entities[0];
    assert_eq!((a.position.x, a.position.y), (b.position.x, b.position.y));
    assert_eq!((a.velocity.x, a.velocity.y), (b.velocity.x, b.velocity.y));
    assert_eq!((a.touch.x, a.touch.y), (b.touch.x, b.touch.y));
}

#[test]
fn held_directions_accelerate() {
    let mut game = Game::new();
    game.spawn_entity(|mut e: Entity| {
        e.add_flag(player());
        e
    });
    let mut keys = HashSet::new();
    keys.insert(RIGHT);
    // 10 u/s^2 for a tenth of a second adds 1 u/s.
    game.update(&keys, 100);
    assert_eq!(game.entities[0].velocity.x, 1000);
    keys.insert(LEFT);
    // Both directions held cancel out.
    game.update(&keys, 100);
    assert_eq!(game.entities[0].velocity.x, 1000);
    // Up and down are bound but drive no rule.
    let mut ud = HashSet::new();
    ud.insert(UP);
    ud.insert(DOWN);
    game.update(&ud, 100);
    let e = &game.entities[0];
    assert_eq!(e.velocity.x, 1000);
    assert_eq!(e.velocity.y, 0);
}

#[test]
fn jump_fires_only_when_grounded() {
    let mut game = Game::new();
    game.create_wall(-100_000, 5000, 200_000, 1000);
    game.spawn_entity(|mut e: Entity| {
        e.add_flag(Flag::Movement);
        e.add_flag(player());
        e.hitbox.w = 1000;
        e.hitbox.h = 1000;
        e
    });
    let mut jump = HashSet::new();
    jump.insert(SPACE);
    // Airborne: the jump rule leaves vertical velocity to gravity alone.
    game.update(&jump, 100);
    assert_eq!(game.entities[0].velocity.y, 982);
    assert_eq!(game.entities[0].touch.y, 0);
    // Settle onto the floor.
    for _ in 0..200 {
        game.update(&no_keys(), 100);
    }
    assert_eq!(game.entities[0].touch.y, 1);
    assert_eq!(game.entities[0].velocity.y, 0);
    // Grounded: the impulse lands at full strength, 10 u/s upward.
    game.update(&jump, 100);
    assert_eq!(game.entities[0].velocity.y, -10000);
}

#[test]
fn app_tracks_held_keys() {
    let mut app = App::new();
    assert!(!app.keys.contains(&SPACE));
    app.handle_keydown(SPACE);
    app.handle_keydown(LEFT);
    assert!(app.keys.contains(&SPACE));
    assert!(app.keys.contains(&LEFT));
    app.handle_keyup(SPACE);
    assert!(!app.keys.contains(&SPACE));
    assert!(app.keys.contains(&LEFT));
    // Releasing a key that is not held is harmless.
    app.handle_keyup(SPACE);
    assert!(!app.keys.contains(&SPACE));
}

#[test]
fn app_update_drives_the_world() {
    let mut app = App::new();
    let mut game = Game::new();
    game.spawn_entity(|mut e: Entity| {
        e.add_flag(player());
        e
    });
    app.handle_keydown(RIGHT);
    assert!(game.can_update());
    app.update(100, &mut game);
    assert_eq!(game.entities[0].velocity.x, 1000);
}

#[test]
fn can_update_rejects_oversized_values() {
    let mut game = Game::new();
    assert!(game.can_update());
    game.spawn_entity(|mut e: Entity| {
        e.velocity.x = i64::MAX;
        e
    });
    assert!(!game.can_update());
}
