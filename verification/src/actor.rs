//! The actor layer: game constants, unique-id allocation, the key-event
//! vocabulary, the collision rule, and the closed set of dynamic actors
//! (shots and turrets) that the world collection holds.

use vstd::prelude::*;
use crate::fx::SCALE;
use crate::fx::sat_u64;
use crate::geometry::Point;
use crate::geometry::dist_s;
use crate::geometry::lemma_distance_symmetric;
use crate::shot::Shot;
use crate::shot::shot_dead_s;
use crate::shot::step_shot_s;
use crate::turret::Turret;
use crate::turret::TurretV;
use crate::turret::step_turret_s;
use crate::turret::turret_fires_s;

verus! {

/// Radius of a shot.
pub const SHOT_RADIUS: i64 = 5 * SCALE;

/// Radius of a turret.
pub const TURRET_RADIUS: i64 = 15 * SCALE;

/// Radius of the player.
pub const PLAYER_RADIUS: i64 = 20 * SCALE;

/// Tolerance (0.1 units) subtracted from the radius sum, so that exact
/// tangency does not count as a collision.
pub const COLLISION_TOLERANCE: i64 = 429496729;

/// Damage dealt by the body of the player or of a turret on collision.
pub const BODY_DAMAGE: i64 = 100 * SCALE;

/// Starting health of the player and of a turret.
pub const START_HEALTH: i64 = 100 * SCALE;

/// The semantic keys the simulation recognizes.  Escape is a request to
/// terminate, handled by the frame driver, not inside the simulation.
#[derive(Clone, Copy, Debug, PartialEq, Eq, Structural)]
pub enum Key {
    Up,
    Down,
    Left,
    Right,
    Space,
    Escape,
    Other(u32),
}

/// The allocator of actor identities: ids are handed out monotonically,
/// starting at 1, and never reused (the counter saturates at u64::MAX).
#[derive(Clone, Copy, Debug, PartialEq, Eq, Structural)]
pub struct IdAllocator {
    pub next: u64,
}

impl IdAllocator {
    /// A fresh allocator; the first id handed out is 1.
    pub fn new() -> (a: IdAllocator)
        ensures
            a.next == 1,
    {
        IdAllocator { next: 1 }
    }

    /// Hand out the next id.
    pub fn fresh(&mut self) -> (id: u64)
        ensures
            id == old(self).next,
            final(self).next as int == sat_u64(old(self).next as int + 1),
    {
        let id = self.next;
        if self.next < u64::MAX {
            self.next = self.next + 1;
        }
        id
    }
}

/// Two actors collide when the distance between their centers is below the
/// sum of their radii minus the tolerance, and their ids differ.
pub open spec fn collides_s(
    id_a: u64,
    radius_a: int,
    pos_a: Point,
    id_b: u64,
    radius_b: int,
    pos_b: Point,
) -> bool {
    dist_s(pos_a, pos_b) < radius_a + radius_b - COLLISION_TOLERANCE as int && id_a != id_b
}

/// The collision outcome is symmetric in the two actors.
pub proof fn lemma_collision_symmetric(
    id_a: u64,
    radius_a: int,
    pos_a: Point,
    id_b: u64,
    radius_b: int,
    pos_b: Point,
)
    ensures
        collides_s(id_a, radius_a, pos_a, id_b, radius_b, pos_b) == collides_s(
            id_b,
            radius_b,
            pos_b,
            id_a,
            radius_a,
            pos_a,
        ),
{
    lemma_distance_symmetric(pos_a, pos_b);
}

/// The collision test two actors share.
pub fn collision_check(
    id_a: u64,
    radius_a: i64,
    pos_a: &Point,
    id_b: u64,
    radius_b: i64,
    pos_b: &Point,
) -> (r: bool)
    ensures
        r == collides_s(id_a, radius_a as int, *pos_a, id_b, radius_b as int, *pos_b),
{
    let d: i64 = pos_a.distance_to(pos_b);
    (d as i128) < (radius_a as i128) + (radius_b as i128) - (COLLISION_TOLERANCE as i128) && id_a
        != id_b
}

/// A dynamic actor of the world collection: a shot or a turret.  The player
/// is owned by the world directly.
#[derive(Debug)]
pub enum Actor {
    Shot(Shot),
    Turret(Turret),
}

/// The mathematical model of an Actor.
pub enum ActorV {
    Shot(Shot),
    Turret(TurretV),
}

impl View for Actor {
    type V = ActorV;

    open spec fn view(&self) -> ActorV {
        match self {
            Actor::Shot(s) => ActorV::Shot(*s),
            Actor::Turret(t) => ActorV::Turret(t@),
        }
    }
}

pub open spec fn a_id_s(a: ActorV) -> u64 {
    match a {
        ActorV::Shot(s) => s.id,
        ActorV::Turret(t) => t.id,
    }
}

pub open spec fn a_radius_s(a: ActorV) -> int {
    match a {
        ActorV::Shot(_) => SHOT_RADIUS as int,
        ActorV::Turret(_) => TURRET_RADIUS as int,
    }
}

pub open spec fn a_pos_s(a: ActorV) -> Point {
    match a {
        ActorV::Shot(s) => s.position,
        ActorV::Turret(t) => t.position,
    }
}

pub open spec fn a_damage_s(a: ActorV) -> int {
    match a {
        ActorV::Shot(s) => s.damage as int,
        ActorV::Turret(_) => BODY_DAMAGE as int,
    }
}

pub open spec fn a_dead_s(a: ActorV) -> bool {
    match a {
        ActorV::Shot(s) => shot_dead_s(s),
        ActorV::Turret(t) => t.health <= 0,
    }
}

/// The shots an actor has spawned since the last collection.
pub open spec fn a_pending_s(a: ActorV) -> Seq<Shot> {
    match a {
        ActorV::Shot(_) => Seq::empty(),
        ActorV::Turret(t) => t.shots,
    }
}

/// The actor with its pending-shot queue drained.
pub open spec fn a_clear_s(a: ActorV) -> ActorV {
    match a {
        ActorV::Shot(s) => ActorV::Shot(s),
        ActorV::Turret(t) => ActorV::Turret(TurretV { shots: Seq::empty(), ..t }),
    }
}

/// The actor after taking the given amount of damage.
pub open spec fn a_damaged_s(a: ActorV, damage: int) -> ActorV {
    match a {
        ActorV::Shot(s) => ActorV::Shot(
            Shot { health: crate::fx::fx_sub_s(s.health as int, damage) as i64, ..s },
        ),
        ActorV::Turret(t) => ActorV::Turret(
            TurretV { health: crate::fx::fx_sub_s(t.health as int, damage) as i64, ..t },
        ),
    }
}

/// How many fresh ids one update of this actor consumes.
pub open spec fn a_ids_used_s(a: ActorV) -> int {
    match a {
        ActorV::Shot(_) => 0,
        ActorV::Turret(t) => if turret_fires_s(t) {
            4
        } else {
            0
        },
    }
}

/// The actor after one update of dt seconds, drawing fresh ids from next.
pub open spec fn step_actor_s(a: ActorV, dt: int, next: u64) -> ActorV {
    match a {
        ActorV::Shot(s) => ActorV::Shot(step_shot_s(s, dt)),
        ActorV::Turret(t) => ActorV::Turret(step_turret_s(t, dt, next)),
    }
}

impl Actor {
    /// The unique id of this actor.
    pub fn get_id(&self) -> (r: u64)
        ensures
            r == a_id_s(self@),
    {
        match self {
            Actor::Shot(s) => s.get_id(),
            Actor::Turret(t) => t.get_id(),
        }
    }

    /// The radius of this actor.
    pub fn get_radius(&self) -> (r: i64)
        ensures
            r as int == a_radius_s(self@),
    {
        match self {
            Actor::Shot(s) => s.get_radius(),
            Actor::Turret(t) => t.get_radius(),
        }
    }

    /// The position of this actor.
    pub fn get_position(&self) -> (r: Point)
        ensures
            r == a_pos_s(self@),
    {
        match self {
            Actor::Shot(s) => s.get_position(),
            Actor::Turret(t) => t.get_position(),
        }
    }

    /// The damage this actor deals to whatever collides with it.
    pub fn get_damage(&self) -> (r: i64)
        ensures
            r as int == a_damage_s(self@),
    {
        match self {
            Actor::Shot(s) => s.get_damage(),
            Actor::Turret(t) => t.get_damage(),
        }
    }

    /// Take the given amount of damage.
    pub fn do_damage(&mut self, damage: i64)
        ensures
            final(self)@ == a_damaged_s(old(self)@, damage as int),
    {
        match self {
            Actor::Shot(s) => s.do_damage(damage),
            Actor::Turret(t) => t.do_damage(damage),
        }
    }

    /// Whether this actor is dead and due to be culled.
    pub fn is_dead(&self) -> (r: bool)
        ensures
            r == a_dead_s(self@),
    {
        match self {
            Actor::Shot(s) => s.is_dead(),
            Actor::Turret(t) => t.is_dead(),
        }
    }

    /// Drain and return the shots this actor has spawned.
    pub fn collect_shots(&mut self) -> (r: Vec<Shot>)
        ensures
            r@ == a_pending_s(old(self)@),
            final(self)@ == a_clear_s(old(self)@),
    {
        match self {
            Actor::Shot(s) => s.collect_shots(),
            Actor::Turret(t) => t.collect_shots(),
        }
    }

    /// Advance this actor by dt seconds.
    pub fn update(&mut self, dt: i64, ids: &mut IdAllocator)
        ensures
            final(self)@ == step_actor_s(old(self)@, dt as int, old(ids).next),
            final(ids).next as int == sat_u64(
                old(ids).next as int + a_ids_used_s(old(self)@),
            ),
    {
        match self {
            Actor::Shot(s) => s.update(dt),
            Actor::Turret(t) => t.update(dt, ids),
        }
    }

    /// Whether this actor has collided with another.
    pub fn check_for_collision(&self, other: &Actor) -> (r: bool)
        ensures
            r == collides_s(
                a_id_s(self@),
                a_radius_s(self@),
                a_pos_s(self@),
                a_id_s(other@),
                a_radius_s(other@),
                a_pos_s(other@),
            ),
    {
        let pos_a = self.get_position();
        let pos_b = other.get_position();
        collision_check(
            self.get_id(),
            self.get_radius(),
            &pos_a,
            other.get_id(),
            other.get_radius(),
            &pos_b,
        )
    }
}

} // verus!
