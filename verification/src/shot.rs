//! The shot (projectile) actor: short-lived, damage-dealing, self-expiring.

use vstd::prelude::*;
use crate::actor::IdAllocator;
use crate::actor::SHOT_RADIUS;
use crate::fx::fx_sub;
use crate::fx::fx_sub_s;
use crate::fx::sat_u64;
use crate::fx::times10;
use crate::fx::times10_s;
use crate::geometry::Point;
use crate::geometry::Velocity;
use crate::geometry::move_time_s;
use crate::geometry::out_of_bounds_s;

verus! {

/// A projectile.  Its health starts at ten times its lifespan in seconds and
/// decays by ten per second; any damage received is subtracted as well.
#[derive(Clone, Copy, Debug, PartialEq, Eq)]
pub struct Shot {
    pub id: u64,
    pub position: Point,
    pub bounds: (i64, i64),
    pub velocity: Velocity,
    pub damage: i64,
    pub health: i64,
}

/// The shot a constructor call produces.
pub open spec fn shot_new_s(
    position: Point,
    bounds: (i64, i64),
    velocity: Velocity,
    damage: i64,
    lifespan: int,
    id: u64,
) -> Shot {
    Shot { id, position, bounds, velocity, damage, health: times10_s(lifespan) as i64 }
}

/// One update of dt seconds: the shot moves at its velocity and its health
/// decays by 10 * dt.
pub open spec fn step_shot_s(s: Shot, dt: int) -> Shot {
    Shot {
        position: move_time_s(s.position, dt, s.velocity),
        health: fx_sub_s(s.health as int, times10_s(dt)) as i64,
        ..s
    }
}

/// A shot is dead when its health has run out or it has left the arena.
pub open spec fn shot_dead_s(s: Shot) -> bool {
    s.health <= 0 || out_of_bounds_s(s.position, s.bounds)
}

/// The shot after n updates of dt seconds each, with no damage taken.
pub open spec fn shot_after_s(s: Shot, dt: int, n: nat) -> Shot
    decreases n,
{
    if n == 0 {
        s
    } else {
        step_shot_s(shot_after_s(s, dt, (n - 1) as nat), dt)
    }
}

/// Time decay alone kills a shot after exactly health / (10 * dt) ticks: a
/// shot that is never damaged has health h - n * 10 * dt after n ticks, and
/// its health has run out exactly when n * 10 * dt has reached its starting
/// health.  With health from a lifespan L (h = 10 * L) that is one tick
/// after L / dt ticks, i.e. L seconds within one tick's tolerance.
pub proof fn lemma_shot_decay(s: Shot, dt: int, n: nat)
    requires
        0 <= dt,
        0 <= s.health,
        s.health + 10 * dt * n <= i64::MAX,
    ensures
        shot_after_s(s, dt, n).health == s.health - n * (10 * dt),
        shot_after_s(s, dt, n).health <= 0 <==> n * (10 * dt) >= s.health,
    decreases n,
{
    if n == 0 {
        assert(0 * (10 * dt) == 0) by (nonlinear_arith);
    } else {
        let m = (n - 1) as nat;
        assert(10 * dt * m <= 10 * dt * n && m * (10 * dt) + 10 * dt == n * (10 * dt) && 0 <= m * (
        10 * dt)) by (nonlinear_arith)
            requires
                m == n - 1,
                0 <= m,
                0 <= dt,
        ;
        lemma_shot_decay(s, dt, m);
        let prev = shot_after_s(s, dt, m);
        assert(prev.health == s.health - m * (10 * dt));
        assert(times10_s(dt) == 10 * dt);
        assert(shot_after_s(s, dt, n) == step_shot_s(prev, dt));
        assert(fx_sub_s(prev.health as int, 10 * dt) == s.health - n * (10 * dt));
    }
}

impl Shot {
    /// Create a new shot with the given starting position, bounds, velocity,
    /// damage, and lifespan in seconds.
    pub fn new(
        position: Point,
        bounds: (i64, i64),
        velocity: Velocity,
        damage: i64,
        lifespan: i64,
        ids: &mut IdAllocator,
    ) -> (s: Shot)
        ensures
            s == shot_new_s(position, bounds, velocity, damage, lifespan as int, old(ids).next),
            final(ids).next as int == sat_u64(old(ids).next as int + 1),
    {
        let id = ids.fresh();
        Shot { id, position, bounds, velocity, damage, health: times10(lifespan) }
    }

    /// The unique id of this shot.
    pub fn get_id(&self) -> (r: u64)
        ensures
            r == self.id,
    {
        self.id
    }

    /// The radius of a shot.
    pub fn get_radius(&self) -> (r: i64)
        ensures
            r == SHOT_RADIUS,
    {
        SHOT_RADIUS
    }

    /// The position of this shot.
    pub fn get_position(&self) -> (r: Point)
        ensures
            r == self.position,
    {
        self.position
    }

    /// Advance this shot by dt seconds: move, and decay health.
    pub fn update(&mut self, dt: i64)
        ensures
            *final(self) == step_shot_s(*old(self), dt as int),
    {
        self.position.move_time(dt, &self.velocity);
        self.health = fx_sub(self.health, times10(dt));
    }

    /// The damage this shot deals on impact.
    pub fn get_damage(&self) -> (r: i64)
        ensures
            r == self.damage,
    {
        self.damage
    }

    /// Take damage: any hit that exhausts the remaining health destroys the
    /// shot.
    pub fn do_damage(&mut self, damage: i64)
        ensures
            *final(self) == (Shot {
                health: fx_sub_s(old(self).health as int, damage as int) as i64,
                ..*old(self)
            }),
    {
        self.health = fx_sub(self.health, damage);
    }

    /// Shots spawn no shots: always empty.
    pub fn collect_shots(&mut self) -> (r: Vec<Shot>)
        ensures
            r@ == Seq::<Shot>::empty(),
            *final(self) == *old(self),
    {
        Vec::new()
    }

    /// Whether this shot is dead: health run out, or out of the arena.
    pub fn is_dead(&self) -> (r: bool)
        ensures
            r == shot_dead_s(*self),
    {
        self.health <= 0 || self.position.is_out_of_bounds(self.bounds)
    }
}

} // verus!
