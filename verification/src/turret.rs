//! The turret actor: stationary, rotating, firing a radial volley of four
//! shots every two seconds.

use vstd::prelude::*;
use crate::actor::IdAllocator;
use crate::actor::SHOT_RADIUS;
use crate::actor::START_HEALTH;
use crate::actor::TURRET_RADIUS;
use crate::actor::BODY_DAMAGE;
use crate::fx::HALF_PI;
use crate::fx::SCALE;
use crate::fx::fx_add;
use crate::fx::fx_add_s;
use crate::fx::fx_mul;
use crate::fx::fx_mul_s;
use crate::fx::fx_sub;
use crate::fx::fx_sub_s;
use crate::fx::sat_u64;
use crate::geometry::Point;
use crate::geometry::Velocity;
use crate::geometry::move_distance_s;
use crate::shot::Shot;
use crate::shot::shot_new_s;

verus! {

/// A turret turns at one radian per second.
pub const TURRET_TURN_SPEED: i64 = SCALE;

/// A turret fires once its fire timer exceeds two seconds.
pub const FIRE_INTERVAL: i64 = 2 * SCALE;

/// Speed of a turret shot.
pub const TURRET_SHOT_SPEED: i64 = 200 * SCALE;

/// Damage of a turret shot.
pub const TURRET_SHOT_DAMAGE: i64 = 25 * SCALE;

/// Lifespan of a turret shot, in seconds.
pub const TURRET_SHOT_LIFESPAN: i64 = 3 * SCALE;

/// A stationary turret.
#[derive(Debug)]
pub struct Turret {
    pub id: u64,
    pub position: Point,
    pub bounds: (i64, i64),
    pub health: i64,
    pub rotation: i64,
    pub turn_speed: i64,
    pub shots: Vec<Shot>,
    pub time_since_last_shot: i64,
}

/// The mathematical model of a Turret.
pub struct TurretV {
    pub id: u64,
    pub position: Point,
    pub bounds: (i64, i64),
    pub health: i64,
    pub rotation: i64,
    pub turn_speed: i64,
    pub shots: Seq<Shot>,
    pub time_since_last_shot: i64,
}

impl View for Turret {
    type V = TurretV;

    open spec fn view(&self) -> TurretV {
        TurretV {
            id: self.id,
            position: self.position,
            bounds: self.bounds,
            health: self.health,
            rotation: self.rotation,
            turn_speed: self.turn_speed,
            shots: self.shots@,
            time_since_last_shot: self.time_since_last_shot,
        }
    }
}

/// The i-th shot of a volley: heading rotation + i * pi/2, spawned on the
/// turret's surface along that heading, at speed 200, damage 25, lifespan 3 s.
pub open spec fn volley_shot_s(
    position: Point,
    bounds: (i64, i64),
    rotation: int,
    i: int,
    id: u64,
) -> Shot {
    let heading = fx_add_s(rotation, i * HALF_PI as int);
    shot_new_s(
        move_distance_s(position, TURRET_RADIUS as int + SHOT_RADIUS as int, heading),
        bounds,
        Velocity { speed: TURRET_SHOT_SPEED, heading: heading as i64 },
        TURRET_SHOT_DAMAGE,
        TURRET_SHOT_LIFESPAN as int,
        id,
    )
}

/// A full volley: four shots at quarter-turn spacings, with consecutive ids
/// drawn from next.
pub open spec fn volley_s(position: Point, bounds: (i64, i64), rotation: int, next: u64) -> Seq<
    Shot,
> {
    seq![
        volley_shot_s(position, bounds, rotation, 0, next),
        volley_shot_s(position, bounds, rotation, 1, sat_u64(next as int + 1) as u64),
        volley_shot_s(position, bounds, rotation, 2, sat_u64(next as int + 2) as u64),
        volley_shot_s(position, bounds, rotation, 3, sat_u64(next as int + 3) as u64),
    ]
}

/// Whether the turret fires on its next update: its fire timer has exceeded
/// the interval.
pub open spec fn turret_fires_s(t: TurretV) -> bool {
    t.time_since_last_shot > FIRE_INTERVAL
}

/// One update of dt seconds: the turret turns, and either fires a volley and
/// resets its timer, or accumulates the elapsed time.
pub open spec fn step_turret_s(t: TurretV, dt: int, next: u64) -> TurretV {
    let rot = fx_add_s(t.rotation as int, fx_mul_s(dt, t.turn_speed as int)) as i64;
    if turret_fires_s(t) {
        TurretV {
            rotation: rot,
            time_since_last_shot: 0,
            shots: t.shots + volley_s(t.position, t.bounds, rot as int, next),
            ..t
        }
    } else {
        TurretV {
            rotation: rot,
            time_since_last_shot: fx_add_s(t.time_since_last_shot as int, dt) as i64,
            ..t
        }
    }
}

/// The fire timer after n updates of dt seconds each, starting from e.
/// Each update mirrors step_turret_s: a timer past the interval fires and
/// resets to zero, any other accumulates dt.
pub open spec fn elapsed_iter_s(e: int, dt: int, n: nat) -> int
    decreases n,
{
    if n == 0 {
        e
    } else {
        let p = elapsed_iter_s(e, dt, (n - 1) as nat);
        if p > FIRE_INTERVAL {
            0
        } else {
            fx_add_s(p, dt)
        }
    }
}

/// One update moves the fire timer exactly as elapsed_iter_s does, whatever
/// else the turret is doing.
pub proof fn lemma_step_turret_timer(t: TurretV, dt: int, next: u64)
    ensures
        step_turret_s(t, dt, next).time_since_last_shot as int == (if turret_fires_s(t) {
            0int
        } else {
            fx_add_s(t.time_since_last_shot as int, dt)
        }),
{
}

/// A turret started with a zeroed fire timer is periodic: with
/// q = FIRE_INTERVAL / dt, the timer accumulates for q + 1 updates, the
/// update after that fires the volley and resets it, and the pattern
/// repeats.  So a volley leaves on updates q + 2, 2(q + 2), ... — one every
/// 2.0 simulated seconds, within one tick.  After n updates the timer holds
/// (n mod (q + 2)) * dt.
pub proof fn lemma_turret_cadence(dt: int, n: nat)
    requires
        0 < dt,
        dt <= FIRE_INTERVAL,
    ensures
        elapsed_iter_s(0, dt, n) == (n as int % (FIRE_INTERVAL as int / dt + 2)) * dt,
    decreases n,
{
    let q = FIRE_INTERVAL as int / dt;
    let p = q + 2;
    vstd::arithmetic::div_mod::lemma_fundamental_div_mod(FIRE_INTERVAL as int, dt);
    vstd::arithmetic::div_mod::lemma_mod_bound(FIRE_INTERVAL as int, dt);
    assert(q * dt <= FIRE_INTERVAL as int && (FIRE_INTERVAL as int) < (q + 1) * dt && 1 <= q) by (nonlinear_arith)
        requires
            0 < dt,
            dt <= FIRE_INTERVAL as int,
            FIRE_INTERVAL as int == dt * q + FIRE_INTERVAL as int % dt,
            0 <= FIRE_INTERVAL as int % dt < dt,
    ;
    if n == 0 {
        vstd::arithmetic::div_mod::lemma_mod_bound(0, p);
        vstd::arithmetic::div_mod::lemma_fundamental_div_mod(0, p);
        assert(0int % p == 0) by (nonlinear_arith)
            requires
                0 < p,
                0int == p * (0int / p) + 0int % p,
                0 <= 0int % p < p,
        ;
        assert((0int % p) * dt == 0) by (nonlinear_arith)
            requires
                0int % p == 0,
        ;
    } else {
        let m = (n - 1) as nat;
        lemma_turret_cadence(dt, m);
        let r = m as int % p;
        vstd::arithmetic::div_mod::lemma_mod_bound(m as int, p);
        vstd::arithmetic::div_mod::lemma_fundamental_div_mod(m as int, p);
        let k = m as int / p;
        if r <= q {
            assert(r * dt <= q * dt && 0 <= r * dt && (r + 1) * dt == r * dt + dt)
                by (nonlinear_arith)
                requires
                    0 <= r <= q,
                    0 < dt,
            ;
            assert(elapsed_iter_s(0, dt, n) == fx_add_s(r * dt, dt));
            assert(fx_add_s(r * dt, dt) == (r + 1) * dt);
            assert(n as int == k * p + (r + 1)) by (nonlinear_arith)
                requires
                    m as int == p * k + r,
                    n == m + 1,
            ;
            vstd::arithmetic::div_mod::lemma_fundamental_div_mod_converse_mod(
                n as int,
                p,
                k,
                r + 1,
            );
        } else {
            assert(r == q + 1);
            assert(r * dt > FIRE_INTERVAL as int) by (nonlinear_arith)
                requires
                    r == q + 1,
                    (FIRE_INTERVAL as int) < (q + 1) * dt,
            ;
            assert(elapsed_iter_s(0, dt, n) == 0);
            assert(n as int == (k + 1) * p + 0) by (nonlinear_arith)
                requires
                    m as int == p * k + r,
                    r == p - 1,
                    n == m + 1,
            ;
            vstd::arithmetic::div_mod::lemma_fundamental_div_mod_converse_mod(
                n as int,
                p,
                k + 1,
                0,
            );
            assert((n as int % p) * dt == 0) by (nonlinear_arith)
                requires
                    n as int % p == 0,
            ;
        }
    }
}

/// The n-th update (counting from 1) of a turret whose fire timer started
/// at zero fires its volley exactly when n is a multiple of
/// FIRE_INTERVAL / dt + 2.
pub proof fn lemma_turret_fires_exactly(dt: int, n: nat)
    requires
        0 < dt,
        dt <= FIRE_INTERVAL,
        1 <= n,
    ensures
        (elapsed_iter_s(0, dt, (n - 1) as nat) > FIRE_INTERVAL) <==> (n as int % (
        FIRE_INTERVAL as int / dt + 2) == 0),
{
    let q = FIRE_INTERVAL as int / dt;
    let p = q + 2;
    let m = (n - 1) as nat;
    lemma_turret_cadence(dt, m);
    vstd::arithmetic::div_mod::lemma_fundamental_div_mod(FIRE_INTERVAL as int, dt);
    vstd::arithmetic::div_mod::lemma_mod_bound(FIRE_INTERVAL as int, dt);
    assert(q * dt <= FIRE_INTERVAL as int && (FIRE_INTERVAL as int) < (q + 1) * dt && 1 <= q) by (nonlinear_arith)
        requires
            0 < dt,
            dt <= FIRE_INTERVAL as int,
            FIRE_INTERVAL as int == dt * q + FIRE_INTERVAL as int % dt,
            0 <= FIRE_INTERVAL as int % dt < dt,
    ;
    let r = m as int % p;
    let k = m as int / p;
    vstd::arithmetic::div_mod::lemma_mod_bound(m as int, p);
    vstd::arithmetic::div_mod::lemma_fundamental_div_mod(m as int, p);
    if r <= q {
        assert(r * dt <= q * dt) by (nonlinear_arith)
            requires
                0 <= r <= q,
                0 < dt,
        ;
        assert(n as int == k * p + (r + 1)) by (nonlinear_arith)
            requires
                m as int == p * k + r,
                n == m + 1,
        ;
        vstd::arithmetic::div_mod::lemma_fundamental_div_mod_converse_mod(n as int, p, k, r + 1);
    } else {
        assert(r == q + 1);
        assert(r * dt > FIRE_INTERVAL as int) by (nonlinear_arith)
            requires
                r == q + 1,
                (FIRE_INTERVAL as int) < (q + 1) * dt,
        ;
        assert(n as int == (k + 1) * p + 0) by (nonlinear_arith)
            requires
                m as int == p * k + r,
                r == p - 1,
                n == m + 1,
        ;
        vstd::arithmetic::div_mod::lemma_fundamental_div_mod_converse_mod(n as int, p, k + 1, 0);
    }
}

impl Turret {
    /// Create a new turret at the given position: full health, rotation 0,
    /// an empty pending-shot queue, and a zeroed fire timer.
    pub fn new(position: Point, bounds: (i64, i64), ids: &mut IdAllocator) -> (t: Turret)
        ensures
            t@ == (TurretV {
                id: old(ids).next,
                position,
                bounds,
                health: START_HEALTH,
                rotation: 0,
                turn_speed: TURRET_TURN_SPEED,
                shots: Seq::empty(),
                time_since_last_shot: 0,
            }),
            final(ids).next as int == sat_u64(old(ids).next as int + 1),
    {
        let id = ids.fresh();
        let t = Turret {
            id,
            position,
            bounds,
            health: START_HEALTH,
            rotation: 0,
            turn_speed: TURRET_TURN_SPEED,
            shots: Vec::new(),
            time_since_last_shot: 0,
        };
        proof {
            assert(t@.shots =~= Seq::<Shot>::empty());
        }
        t
    }

    /// Emit one volley of four shots into the pending queue.
    pub fn fire_shots(&mut self, ids: &mut IdAllocator)
        ensures
            final(self)@ == (TurretV {
                shots: old(self)@.shots + volley_s(
                    old(self).position,
                    old(self).bounds,
                    old(self).rotation as int,
                    old(ids).next,
                ),
                ..old(self)@
            }),
            final(ids).next as int == sat_u64(old(ids).next as int + 4),
    {
        let ghost rotation = self.rotation as int;
        let ghost next0 = ids.next;
        let mut i: u64 = 0;
        while i < 4
            invariant
                0 <= i <= 4,
                rotation == old(self).rotation as int,
                next0 == old(ids).next,
                self.id == old(self).id,
                self.position == old(self).position,
                self.bounds == old(self).bounds,
                self.health == old(self).health,
                self.rotation == old(self).rotation,
                self.turn_speed == old(self).turn_speed,
                self.time_since_last_shot == old(self).time_since_last_shot,
                ids.next as int == sat_u64(next0 as int + i),
                self.shots@ =~= old(self).shots@ + Seq::new(
                    i as nat,
                    |k: int|
                        volley_shot_s(
                            old(self).position,
                            old(self).bounds,
                            rotation,
                            k,
                            sat_u64(next0 as int + k) as u64,
                        ),
                ),
            decreases 4 - i,
        {
            let step: i64 = (i as i64) * HALF_PI;
            proof {
                assert(i as i64 as int == i as int);
                assert(step as int == (i as int) * (HALF_PI as int));
            }
            let heading = fx_add(self.rotation, step);
            let mut shot_position = self.position;
            shot_position.move_distance(TURRET_RADIUS + SHOT_RADIUS, heading);
            let shot_velocity = Velocity::new(TURRET_SHOT_SPEED, heading);
            let shot = Shot::new(
                shot_position,
                self.bounds,
                shot_velocity,
                TURRET_SHOT_DAMAGE,
                TURRET_SHOT_LIFESPAN,
                ids,
            );
            self.shots.push(shot);
            proof {
                assert(heading as int == fx_add_s(rotation, (i as int) * (HALF_PI as int)));
                assert(shot_position == move_distance_s(
                    old(self).position,
                    TURRET_RADIUS as int + SHOT_RADIUS as int,
                    heading as int,
                ));
                assert(shot_velocity == (Velocity { speed: TURRET_SHOT_SPEED, heading }));
                assert(shot.id == sat_u64(next0 as int + i) as u64);
                assert(shot == volley_shot_s(
                    old(self).position,
                    old(self).bounds,
                    rotation,
                    i as int,
                    sat_u64(next0 as int + i) as u64,
                ));
                assert(self.shots@ =~= old(self).shots@ + Seq::new(
                    (i + 1) as nat,
                    |k: int|
                        volley_shot_s(
                            old(self).position,
                            old(self).bounds,
                            rotation,
                            k,
                            sat_u64(next0 as int + k) as u64,
                        ),
                ));
            }
            i = i + 1;
        }
        proof {
            assert(self.shots@ =~= old(self)@.shots + volley_s(
                old(self).position,
                old(self).bounds,
                rotation,
                next0,
            ));
        }
    }

    /// The unique id of this turret.
    pub fn get_id(&self) -> (r: u64)
        ensures
            r == self.id,
    {
        self.id
    }

    /// The radius of a turret.
    pub fn get_radius(&self) -> (r: i64)
        ensures
            r == TURRET_RADIUS,
    {
        TURRET_RADIUS
    }

    /// The position of this turret.
    pub fn get_position(&self) -> (r: Point)
        ensures
            r == self.position,
    {
        self.position
    }

    /// Advance this turret by dt seconds: turn, then fire or accumulate the
    /// fire timer.  A late tick fires one volley only: leftover time past the
    /// interval is discarded.
    pub fn update(&mut self, dt: i64, ids: &mut IdAllocator)
        ensures
            final(self)@ == step_turret_s(old(self)@, dt as int, old(ids).next),
            final(ids).next as int == sat_u64(
                old(ids).next as int + (if turret_fires_s(old(self)@) {
                    4int
                } else {
                    0int
                }),
            ),
    {
        self.rotation = fx_add(self.rotation, fx_mul(dt, self.turn_speed));
        if self.time_since_last_shot > FIRE_INTERVAL {
            self.fire_shots(ids);
            self.time_since_last_shot = 0;
        } else {
            self.time_since_last_shot = fx_add(self.time_since_last_shot, dt);
        }
    }

    /// The damage the turret's body deals on collision, independent of its
    /// remaining health.
    pub fn get_damage(&self) -> (r: i64)
        ensures
            r == BODY_DAMAGE,
    {
        BODY_DAMAGE
    }

    /// Take damage.
    pub fn do_damage(&mut self, damage: i64)
        ensures
            final(self)@ == (TurretV {
                health: fx_sub_s(old(self).health as int, damage as int) as i64,
                ..old(self)@
            }),
    {
        self.health = fx_sub(self.health, damage);
    }

    /// Drain and return the pending shots.
    pub fn collect_shots(&mut self) -> (r: Vec<Shot>)
        ensures
            r@ == old(self)@.shots,
            final(self)@ == (TurretV { shots: Seq::empty(), ..old(self)@ }),
    {
        let mut drained: Vec<Shot> = Vec::new();
        core::mem::swap(&mut self.shots, &mut drained);
        drained
    }

    /// Whether this turret is dead.
    pub fn is_dead(&self) -> (r: bool)
        ensures
            r == (self.health <= 0),
    {
        self.health <= 0
    }
}

} // verus!
