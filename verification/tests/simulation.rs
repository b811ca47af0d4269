//! End-to-end and per-component tests of the simulation core, run with the
//! real trigonometry crate linked.

use turrets::actor::{Actor, IdAllocator, Key};
use turrets::geometry::{Point, Velocity};
use turrets::player::Player;
use turrets::shot::Shot;
use turrets::turret::Turret;
use turrets::world::MainState;
use turrets::{HALF_PI, SCALE, TICK_DT};

const ARENA: (i64, i64) = (800 * SCALE, 600 * SCALE);

fn test_shot(id: u64, x: i64, y: i64) -> Shot {
    Shot {
        id,
        position: Point::new(x, y),
        bounds: ARENA,
        velocity: Velocity::new(0, 0),
        damage: 20 * SCALE,
        health: 50 * SCALE,
    }
}

#[test]
fn distance_is_symmetric_and_zero_on_self() {
    let a = Point::new(3 * SCALE, 4 * SCALE);
    let b = Point::new(0, 0);
    assert_eq!(a.distance_to(&b), 5 * SCALE);
    assert_eq!(b.distance_to(&a), 5 * SCALE);
    assert_eq!(a.distance_to(&a), 0);
    let c = Point::new(-7 * SCALE, 123456789);
    let d = Point::new(2 * SCALE, -9876543);
    assert_eq!(c.distance_to(&d), d.distance_to(&c));
    assert_eq!(d.distance_to(&d), 0);
}

#[test]
fn collision_is_symmetric_in_both_directions() {
    // Two shots 8 units apart: radii sum to 10, so they collide.
    let a = Actor::Shot(test_shot(1, 0, 0));
    let b = Actor::Shot(test_shot(2, 8 * SCALE, 0));
    assert!(a.check_for_collision(&b));
    assert!(b.check_for_collision(&a));
    // Far apart: no collision either way.
    let c = Actor::Shot(test_shot(3, 100 * SCALE, 0));
    assert!(!a.check_for_collision(&c));
    assert!(!c.check_for_collision(&a));
}

#[test]
fn collision_needs_distinct_ids() {
    let a = Actor::Shot(test_shot(7, 0, 0));
    let same = Actor::Shot(test_shot(7, SCALE, 0));
    assert!(!a.check_for_collision(&same));
    assert!(!a.check_for_collision(&a));
}

#[test]
fn exact_tangency_is_not_a_collision() {
    // Radii sum to 10; centers exactly 10 apart: within the 0.1 tolerance.
    let a = Actor::Shot(test_shot(1, 0, 0));
    let b = Actor::Shot(test_shot(2, 10 * SCALE, 0));
    assert!(!a.check_for_collision(&b));
    // 9 apart: clearly below the threshold.
    let c = Actor::Shot(test_shot(3, 9 * SCALE, 0));
    assert!(a.check_for_collision(&c));
}

#[test]
fn shot_dies_from_time_decay_after_its_lifespan() {
    let mut ids = IdAllocator::new();
    // Lifespan 3 s at 60 Hz: alive through tick 179, dead on tick 180.
    let mut s = Shot::new(
        Point::new(400 * SCALE, 300 * SCALE),
        ARENA,
        Velocity::new(0, 0),
        25 * SCALE,
        3 * SCALE,
        &mut ids,
    );
    assert_eq!(s.health, 30 * SCALE);
    for _ in 0..179 {
        s.update(TICK_DT);
        assert!(!s.is_dead());
    }
    s.update(TICK_DT);
    assert!(s.is_dead());
}

#[test]
fn shot_out_of_bounds_is_dead_regardless_of_health() {
    let mut s = test_shot(1, 900 * SCALE, 300 * SCALE);
    s.health = 1000 * SCALE;
    assert!(s.is_dead());
    s.position = Point::new(400 * SCALE, -SCALE);
    assert!(s.is_dead());
    s.position = Point::new(400 * SCALE, 300 * SCALE);
    assert!(!s.is_dead());
    // Exactly on the boundary is in bounds.
    s.position = Point::new(800 * SCALE, 600 * SCALE);
    assert!(!s.is_dead());
}

#[test]
fn turret_fires_four_shots_every_two_seconds() {
    let mut ids = IdAllocator::new();
    let mut t = Turret::new(Point::new(400 * SCALE, 300 * SCALE), ARENA, &mut ids);
    // 2.0 s of 60 Hz ticks accumulate the timer; the next tick fires.
    for _ in 0..120 {
        t.update(TICK_DT, &mut ids);
    }
    assert_eq!(t.collect_shots().len(), 0);
    t.update(TICK_DT, &mut ids);
    let volley = t.collect_shots();
    assert_eq!(volley.len(), 4);
    assert_eq!(t.collect_shots().len(), 0);
    // Headings are the turret's rotation plus quarter-turn multiples.
    let rotation = t.rotation;
    for (k, shot) in volley.iter().enumerate() {
        assert_eq!(shot.velocity.heading, rotation + (k as i64) * HALF_PI);
        assert_eq!(shot.velocity.speed, 200 * SCALE);
        assert_eq!(shot.damage, 25 * SCALE);
        assert_eq!(shot.health, 30 * SCALE);
    }
    // The cadence repeats: nothing for another 2.0 s, then four more.
    for _ in 0..120 {
        t.update(TICK_DT, &mut ids);
        assert_eq!(t.collect_shots().len(), 0);
    }
    t.update(TICK_DT, &mut ids);
    assert_eq!(t.collect_shots().len(), 4);
}

#[test]
fn turret_rotates_continuously_and_stays_put() {
    let mut ids = IdAllocator::new();
    let home = Point::new(100 * SCALE, 100 * SCALE);
    let mut t = Turret::new(home, ARENA, &mut ids);
    for _ in 0..60 {
        t.update(TICK_DT, &mut ids);
    }
    // One radian per second: after 1 s of ticks the rotation is 60 ticks' worth.
    assert_eq!(t.rotation, 60 * TICK_DT);
    assert_eq!(t.position, home);
}

#[test]
fn space_fires_exactly_one_shot_and_repeat_is_suppressed() {
    let mut ids = IdAllocator::new();
    let mut p = Player::new(Point::new(400 * SCALE, 300 * SCALE), ARENA, &mut ids);
    p.handle_key_down_event(Key::Space, false, &mut ids);
    assert_eq!(p.collect_shots().len(), 1);
    // Holding space: auto-repeat events spawn nothing.
    p.handle_key_down_event(Key::Space, true, &mut ids);
    p.handle_key_down_event(Key::Space, true, &mut ids);
    p.handle_key_down_event(Key::Space, true, &mut ids);
    assert_eq!(p.collect_shots().len(), 0);
    // Release and press again: one more.
    p.handle_key_up_event(Key::Space);
    p.handle_key_down_event(Key::Space, false, &mut ids);
    assert_eq!(p.collect_shots().len(), 1);
}

#[test]
fn player_shot_inherits_speed_and_heading() {
    let mut ids = IdAllocator::new();
    let mut p = Player::new(Point::new(400 * SCALE, 300 * SCALE), ARENA, &mut ids);
    p.handle_key_down_event(Key::Up, false, &mut ids);
    assert_eq!(p.velocity.speed, 150 * SCALE);
    p.handle_key_down_event(Key::Space, false, &mut ids);
    let shots = p.collect_shots();
    assert_eq!(shots.len(), 1);
    assert_eq!(shots[0].velocity.speed, 350 * SCALE);
    assert_eq!(shots[0].velocity.heading, p.velocity.heading);
    assert_eq!(shots[0].damage, 20 * SCALE);
    assert_eq!(shots[0].health, 50 * SCALE);
    // Spawned ahead of the player, about 25 units along heading 0.
    let dx = shots[0].position.x - p.position.x;
    let dy = shots[0].position.y - p.position.y;
    assert!((dx - 25 * SCALE).abs() < SCALE / 10, "dx = {}", dx);
    assert!(dy.abs() < SCALE / 10, "dy = {}", dy);
}

#[test]
fn vertical_key_release_stops_the_player() {
    let mut ids = IdAllocator::new();
    let mut p = Player::new(Point::new(400 * SCALE, 300 * SCALE), ARENA, &mut ids);
    p.handle_key_down_event(Key::Down, false, &mut ids);
    assert_eq!(p.velocity.speed, -150 * SCALE);
    p.handle_key_up_event(Key::Up);
    assert_eq!(p.velocity.speed, 0);
}

#[test]
fn stale_key_up_does_not_clear_a_newer_held_key() {
    let mut ids = IdAllocator::new();
    let mut p = Player::new(Point::new(400 * SCALE, 300 * SCALE), ARENA, &mut ids);
    p.handle_key_down_event(Key::Right, false, &mut ids);
    p.handle_key_up_event(Key::Left);
    assert_eq!(p.current_pressed_key, Some(Key::Right));
    p.handle_key_up_event(Key::Right);
    assert_eq!(p.current_pressed_key, None);
}

#[test]
fn held_turn_key_turns_by_a_fixed_step_per_tick() {
    let mut ids = IdAllocator::new();
    let mut p = Player::new(Point::new(400 * SCALE, 300 * SCALE), ARENA, &mut ids);
    p.handle_key_down_event(Key::Right, false, &mut ids);
    let h0 = p.velocity.heading;
    p.update(TICK_DT);
    p.update(TICK_DT);
    // 0.05 rad per tick, independent of dt.
    assert_eq!(p.velocity.heading, h0 + 2 * 214748364);
    p.handle_key_up_event(Key::Right);
    p.handle_key_down_event(Key::Left, false, &mut ids);
    p.update(TICK_DT);
    assert_eq!(p.velocity.heading, h0 + 214748364);
}

#[test]
fn player_is_clamped_to_the_arena_not_wrapped() {
    let mut ids = IdAllocator::new();
    let mut p = Player::new(Point::new(400 * SCALE, 300 * SCALE), ARENA, &mut ids);
    // Out beyond the right edge by 50 units: one tick clamps to the edge.
    p.position = Point::new(850 * SCALE, 300 * SCALE);
    p.update(TICK_DT);
    assert_eq!(p.position.x, 800 * SCALE);
    assert_eq!(p.position.y, 300 * SCALE);
    // And below zero: clamps to zero.
    p.position = Point::new(-50 * SCALE, 300 * SCALE);
    p.update(TICK_DT);
    assert_eq!(p.position.x, 0);
}

#[test]
fn keep_in_bounds_clamps_and_wrap_bounds_teleports() {
    let mut p = Point::new(850 * SCALE, -3 * SCALE);
    p.keep_in_bounds(ARENA);
    assert_eq!(p, Point::new(800 * SCALE, 0));
    let mut w = Point::new(850 * SCALE, -3 * SCALE);
    w.wrap_bounds(ARENA);
    assert_eq!(w, Point::new(0, 600 * SCALE));
}

#[test]
fn velocity_components_follow_the_heading() {
    // Heading pi/2: all speed goes to y.
    let v = Velocity::new(SCALE, HALF_PI);
    let (x, y) = v.get_components();
    assert!(x.abs() < SCALE / 100, "x = {}", x);
    assert!((y - SCALE).abs() < SCALE / 100, "y = {}", y);
    // Heading 0: all speed goes to x; negative speed reverses it.
    let r = Velocity::new(-150 * SCALE, 0);
    let (rx, ry) = r.get_components();
    assert!((rx + 150 * SCALE).abs() < SCALE / 10, "rx = {}", rx);
    assert!(ry.abs() < SCALE / 10, "ry = {}", ry);
}

#[test]
fn ids_are_unique_and_monotonic() {
    let mut ids = IdAllocator::new();
    assert_eq!(ids.fresh(), 1);
    assert_eq!(ids.fresh(), 2);
    let mut ids2 = IdAllocator::new();
    let p = Player::new(Point::new(0, 0), ARENA, &mut ids2);
    let t = Turret::new(Point::new(0, 0), ARENA, &mut ids2);
    let s = Shot::new(
        Point::new(0, 0),
        ARENA,
        Velocity::new(0, 0),
        SCALE,
        SCALE,
        &mut ids2,
    );
    assert_eq!(p.id, 1);
    assert_eq!(t.id, 2);
    assert_eq!(s.id, 3);
}

#[test]
fn world_starts_with_player_centered_and_four_turrets() {
    let state = MainState::new(800 * SCALE, 600 * SCALE);
    assert_eq!(state.player.position, Point::new(400 * SCALE, 300 * SCALE));
    assert_eq!(state.player.health, 100 * SCALE);
    assert_eq!(state.actors.len(), 4);
    let expected = [
        Point::new(200 * SCALE, 150 * SCALE),
        Point::new(200 * SCALE, 450 * SCALE),
        Point::new(600 * SCALE, 150 * SCALE),
        Point::new(600 * SCALE, 450 * SCALE),
    ];
    for (a, want) in state.actors.iter().zip(expected.iter()) {
        assert_eq!(a.get_position(), *want);
        match a {
            Actor::Turret(t) => assert_eq!(t.health, 100 * SCALE),
            Actor::Shot(_) => panic!("no shots at start"),
        }
    }
}

#[test]
fn player_turret_collision_kills_both_in_one_tick() {
    let mut state = MainState::new(800 * SCALE, 600 * SCALE);
    let turret_pos = state.actors[0].get_position();
    let turret_id = state.actors[0].get_id();
    // Put the player on top of the first turret.
    state.player.position = turret_pos;
    let game_over = state.update(TICK_DT);
    // Both bodies deal 100: both die from full health in one exchange.
    assert!(game_over);
    assert!(state.player.health <= 0);
    assert_eq!(state.player.health, 0);
    assert_eq!(state.actors.len(), 3);
    assert!(state.actors.iter().all(|a| a.get_id() != turret_id));
}

#[test]
fn world_tick_collects_turret_volleys() {
    let mut state = MainState::new(800 * SCALE, 600 * SCALE);
    // Park the player in a corner, away from everything.
    state.player.position = Point::new(0, 0);
    for _ in 0..121 {
        let game_over = state.update(TICK_DT);
        assert!(!game_over);
    }
    // Each of the four turrets has fired one four-shot volley; the shots
    // are collected into the world on the tick after the volley.
    assert_eq!(state.actors.len(), 4 + 16);
    let shot_count = state
        .actors
        .iter()
        .filter(|a| matches!(a, Actor::Shot(_)))
        .count();
    assert_eq!(shot_count, 16);
}

#[test]
fn escape_requests_termination_and_is_still_forwarded() {
    let mut state = MainState::new(800 * SCALE, 600 * SCALE);
    assert!(!state.key_down_event(Key::Up, false));
    assert!(state.key_down_event(Key::Escape, false));
    assert_eq!(state.player.current_pressed_key, Some(Key::Escape));
    state.key_up_event(Key::Escape);
    assert_eq!(state.player.current_pressed_key, None);
}

#[test]
fn shot_damage_destroys_it_on_any_real_hit() {
    let mut s = test_shot(1, 400 * SCALE, 300 * SCALE);
    s.health = 10 * SCALE;
    s.do_damage(25 * SCALE);
    assert!(s.is_dead());
}
