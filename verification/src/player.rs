//! The player actor: user-controlled movement, rotation and firing, bounded
//! to the arena.

use vstd::prelude::*;
use crate::actor::Actor;
use crate::actor::IdAllocator;
use crate::actor::Key;
use crate::actor::PLAYER_RADIUS;
use crate::actor::SHOT_RADIUS;
use crate::actor::START_HEALTH;
use crate::actor::BODY_DAMAGE;
use crate::actor::a_id_s;
use crate::actor::a_pos_s;
use crate::actor::a_radius_s;
use crate::actor::collides_s;
use crate::actor::collision_check;
use crate::fx::SCALE;
use crate::fx::fx_add;
use crate::fx::fx_add_s;
use crate::fx::fx_sub;
use crate::fx::fx_sub_s;
use crate::fx::sat_u64;
use crate::geometry::Point;
use crate::geometry::Velocity;
use crate::geometry::clamp_s;
use crate::geometry::move_distance_s;
use crate::geometry::move_time_s;
use crate::shot::Shot;
use crate::shot::shot_new_s;

verus! {

/// Forward and reverse speed the arrow keys set.
pub const PLAYER_SPEED: i64 = 150 * SCALE;

/// Speed added to the player's own speed for a fired shot.
pub const PLAYER_SHOT_BOOST: i64 = 200 * SCALE;

/// Damage of a player shot.
pub const PLAYER_SHOT_DAMAGE: i64 = 20 * SCALE;

/// Lifespan of a player shot, in seconds.
pub const PLAYER_SHOT_LIFESPAN: i64 = 5 * SCALE;

/// Fixed turn increment (0.05 radians) applied once per tick while a turn
/// key is held; deliberately tick-rate-dependent.
pub const TURN_STEP: i64 = 214748364;

/// The player's ship.
#[derive(Debug)]
pub struct Player {
    pub id: u64,
    pub position: Point,
    pub bounds: (i64, i64),
    pub health: i64,
    pub velocity: Velocity,
    pub shots: Vec<Shot>,
    /// The non-movement key currently held, used for continuous turning.
    pub current_pressed_key: Option<Key>,
}

/// The mathematical model of a Player.
pub struct PlayerV {
    pub id: u64,
    pub position: Point,
    pub bounds: (i64, i64),
    pub health: i64,
    pub velocity: Velocity,
    pub shots: Seq<Shot>,
    pub current_pressed_key: Option<Key>,
}

impl View for Player {
    type V = PlayerV;

    open spec fn view(&self) -> PlayerV {
        PlayerV {
            id: self.id,
            position: self.position,
            bounds: self.bounds,
            health: self.health,
            velocity: self.velocity,
            shots: self.shots@,
            current_pressed_key: self.current_pressed_key,
        }
    }
}

/// The shot fire_shot produces: the player's heading, the player's speed
/// plus the boost, spawned on the player's surface, damage 20, lifespan 5 s.
pub open spec fn player_shot_s(p: PlayerV, id: u64) -> Shot {
    let heading = p.velocity.heading;
    shot_new_s(
        move_distance_s(p.position, PLAYER_RADIUS as int + SHOT_RADIUS as int, heading as int),
        p.bounds,
        Velocity {
            speed: fx_add_s(p.velocity.speed as int, PLAYER_SHOT_BOOST as int) as i64,
            heading,
        },
        PLAYER_SHOT_DAMAGE,
        PLAYER_SHOT_LIFESPAN as int,
        id,
    )
}

/// The player state after a key-down event.
pub open spec fn key_down_s(p: PlayerV, key: Key, repeat: bool, next: u64) -> PlayerV {
    if key == Key::Up {
        PlayerV { velocity: Velocity { speed: PLAYER_SPEED, heading: p.velocity.heading }, ..p }
    } else if key == Key::Down {
        PlayerV {
            velocity: Velocity { speed: (-PLAYER_SPEED) as i64, heading: p.velocity.heading },
            ..p
        }
    } else if key == Key::Space {
        if !repeat {
            PlayerV { shots: p.shots.push(player_shot_s(p, next)), ..p }
        } else {
            p
        }
    } else {
        PlayerV { current_pressed_key: Some(key), ..p }
    }
}

/// How many fresh ids a key-down event consumes.
pub open spec fn key_down_ids_s(key: Key, repeat: bool) -> int {
    if key == Key::Space && !repeat {
        1
    } else {
        0
    }
}

/// The player state after a key-up event: releasing either vertical
/// movement key zeroes the speed; releasing the tracked key clears it.
pub open spec fn key_up_s(p: PlayerV, key: Key) -> PlayerV {
    if key == Key::Up || key == Key::Down {
        PlayerV { velocity: Velocity { speed: 0, heading: p.velocity.heading }, ..p }
    } else if p.current_pressed_key == Some(key) {
        PlayerV { current_pressed_key: None, ..p }
    } else {
        p
    }
}

/// One update of dt seconds: turn by the fixed step if a turn key is held,
/// move at the velocity, then clamp into the arena.
pub open spec fn step_player_s(p: PlayerV, dt: int) -> PlayerV {
    let heading = if p.current_pressed_key == Some(Key::Right) {
        fx_add_s(p.velocity.heading as int, TURN_STEP as int) as i64
    } else if p.current_pressed_key == Some(Key::Left) {
        fx_sub_s(p.velocity.heading as int, TURN_STEP as int) as i64
    } else {
        p.velocity.heading
    };
    let vel = Velocity { speed: p.velocity.speed, heading };
    PlayerV {
        velocity: vel,
        position: clamp_s(move_time_s(p.position, dt, vel), p.bounds),
        ..p
    }
}

impl Player {
    /// Create a new player at the given position: full health, at rest, no
    /// pending shots, no tracked key.
    pub fn new(position: Point, bounds: (i64, i64), ids: &mut IdAllocator) -> (p: Player)
        ensures
            p@ == (PlayerV {
                id: old(ids).next,
                position,
                bounds,
                health: START_HEALTH,
                velocity: Velocity { speed: 0, heading: 0 },
                shots: Seq::empty(),
                current_pressed_key: None,
            }),
            final(ids).next as int == sat_u64(old(ids).next as int + 1),
    {
        let id = ids.fresh();
        let p = Player {
            id,
            position,
            bounds,
            health: START_HEALTH,
            velocity: Velocity::new(0, 0),
            shots: Vec::new(),
            current_pressed_key: None,
        };
        proof {
            assert(p@.shots =~= Seq::<Shot>::empty());
        }
        p
    }

    /// Fire one shot out the front of the player.
    pub fn fire_shot(&mut self, ids: &mut IdAllocator)
        ensures
            final(self)@ == (PlayerV {
                shots: old(self)@.shots.push(player_shot_s(old(self)@, old(ids).next)),
                ..old(self)@
            }),
            final(ids).next as int == sat_u64(old(ids).next as int + 1),
    {
        let shot_velocity = Velocity::new(
            fx_add(self.velocity.speed, PLAYER_SHOT_BOOST),
            self.velocity.heading,
        );
        let mut shot_position = self.position;
        shot_position.move_distance(PLAYER_RADIUS + SHOT_RADIUS, shot_velocity.heading);
        let shot = Shot::new(
            shot_position,
            self.bounds,
            shot_velocity,
            PLAYER_SHOT_DAMAGE,
            PLAYER_SHOT_LIFESPAN,
            ids,
        );
        self.shots.push(shot);
    }

    /// Handle a key-down event: the vertical arrows set the speed, space
    /// (when not an auto-repeat) fires one shot, and any other key becomes
    /// the tracked held key.
    pub fn handle_key_down_event(&mut self, keycode: Key, repeat: bool, ids: &mut IdAllocator)
        ensures
            final(self)@ == key_down_s(old(self)@, keycode, repeat, old(ids).next),
            final(ids).next as int == sat_u64(
                old(ids).next as int + key_down_ids_s(keycode, repeat),
            ),
    {
        match keycode {
            Key::Up => {
                self.velocity.speed = PLAYER_SPEED;
            },
            Key::Down => {
                self.velocity.speed = -PLAYER_SPEED;
            },
            Key::Space => {
                if !repeat {
                    self.fire_shot(ids);
                }
            },
            _ => {
                self.current_pressed_key = Some(keycode);
            },
        }
    }

    /// Handle a key-up event: releasing either vertical arrow stops the
    /// player; releasing the tracked key (and only that key) clears it.
    pub fn handle_key_up_event(&mut self, keycode: Key)
        ensures
            final(self)@ == key_up_s(old(self)@, keycode),
    {
        match keycode {
            Key::Up | Key::Down => {
                self.velocity.speed = 0;
            },
            _ => {
                if self.current_pressed_key == Some(keycode) {
                    self.current_pressed_key = None;
                }
            },
        }
    }

    /// The unique id of this player.
    pub fn get_id(&self) -> (r: u64)
        ensures
            r == self.id,
    {
        self.id
    }

    /// The radius of the player.
    pub fn get_radius(&self) -> (r: i64)
        ensures
            r == PLAYER_RADIUS,
    {
        PLAYER_RADIUS
    }

    /// The position of this player.
    pub fn get_position(&self) -> (r: Point)
        ensures
            r == self.position,
    {
        self.position
    }

    /// Advance the player by dt seconds.
    pub fn update(&mut self, dt: i64)
        ensures
            final(self)@ == step_player_s(old(self)@, dt as int),
    {
        match self.current_pressed_key {
            Some(Key::Right) => {
                self.velocity.heading = fx_add(self.velocity.heading, TURN_STEP);
            },
            Some(Key::Left) => {
                self.velocity.heading = fx_sub(self.velocity.heading, TURN_STEP);
            },
            _ => {},
        }
        self.position.move_time(dt, &self.velocity);
        self.position.keep_in_bounds(self.bounds);
    }

    /// The damage the player's body deals on collision.
    pub fn get_damage(&self) -> (r: i64)
        ensures
            r == BODY_DAMAGE,
    {
        BODY_DAMAGE
    }

    /// Take damage.
    pub fn do_damage(&mut self, damage: i64)
        ensures
            final(self)@ == (PlayerV {
                health: fx_sub_s(old(self).health as int, damage as int) as i64,
                ..old(self)@
            }),
    {
        self.health = fx_sub(self.health, damage);
    }

    /// Drain and return the pending shots.
    pub fn collect_shots(&mut self) -> (r: Vec<Shot>)
        ensures
            r@ == old(self)@.shots,
            final(self)@ == (PlayerV { shots: Seq::empty(), ..old(self)@ }),
    {
        let mut drained: Vec<Shot> = Vec::new();
        core::mem::swap(&mut self.shots, &mut drained);
        drained
    }

    /// Whether the player is dead.
    pub fn is_dead(&self) -> (r: bool)
        ensures
            r == (self.health <= 0),
    {
        self.health <= 0
    }

    /// Whether the player has collided with the given actor.
    pub fn check_for_collision(&self, other: &Actor) -> (r: bool)
        ensures
            r == collides_s(
                self.id,
                PLAYER_RADIUS as int,
                self.position,
                a_id_s(other@),
                a_radius_s(other@),
                a_pos_s(other@),
            ),
    {
        let pos_b = other.get_position();
        collision_check(
            self.id,
            PLAYER_RADIUS,
            &self.position,
            other.get_id(),
            other.get_radius(),
            &pos_b,
        )
    }
}

} // verus!
