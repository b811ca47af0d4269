//! The world state and the per-tick simulation step: actor update, shot
//! collection, pairwise collision resolution, and death culling.

use vstd::prelude::*;
use crate::actor::Actor;
use crate::actor::ActorV;
use crate::actor::BODY_DAMAGE;
use crate::actor::IdAllocator;
use crate::actor::Key;
use crate::actor::PLAYER_RADIUS;
use crate::actor::a_clear_s;
use crate::actor::a_damage_s;
use crate::actor::a_damaged_s;
use crate::actor::a_dead_s;
use crate::actor::a_id_s;
use crate::actor::a_ids_used_s;
use crate::actor::a_pending_s;
use crate::actor::a_pos_s;
use crate::actor::a_radius_s;
use crate::actor::collides_s;
use crate::actor::step_actor_s;
use crate::fx::fx_add;
use crate::fx::fx_add_s;
use crate::fx::fx_sub_s;
use crate::fx::sat_u64;
use crate::geometry::Point;
use crate::player::Player;
use crate::player::PlayerV;
use crate::player::key_down_ids_s;
use crate::player::key_down_s;
use crate::player::key_up_s;
use crate::player::step_player_s;
use crate::shot::Shot;
use crate::turret::Turret;
use crate::turret::TurretV;
use crate::turret::TURRET_TURN_SPEED;
use crate::actor::START_HEALTH;

verus! {

/// The mathematical model of the whole world.
pub struct StateV {
    pub player: PlayerV,
    pub actors: Seq<ActorV>,
    pub next: u64,
}

/// The views of the actors a world holds.
pub open spec fn views_s(v: Seq<Actor>) -> Seq<ActorV> {
    v.map_values(|a: Actor| a@)
}

/// The id counter after the first n actors have been updated.
pub open spec fn next_after_s(s: Seq<ActorV>, n: int, next0: int) -> int
    decreases n,
{
    if n <= 0 {
        next0
    } else {
        sat_u64(next_after_s(s, n - 1, next0) + a_ids_used_s(s[n - 1]))
    }
}

/// Stage 1 of a tick: the player, then every actor, is advanced by dt.
pub open spec fn update_stage_s(st: StateV, dt: int) -> StateV {
    StateV {
        player: step_player_s(st.player, dt),
        actors: Seq::new(
            st.actors.len(),
            |i: int|
                step_actor_s(st.actors[i], dt, next_after_s(st.actors, i, st.next as int) as u64),
        ),
        next: next_after_s(st.actors, st.actors.len() as int, st.next as int) as u64,
    }
}

/// The pending shots of the first n actors, in order.
pub open spec fn pendings_upto_s(s: Seq<ActorV>, n: int) -> Seq<Shot>
    decreases n,
{
    if n <= 0 {
        Seq::empty()
    } else {
        pendings_upto_s(s, n - 1) + a_pending_s(s[n - 1])
    }
}

/// New shots entering the world as actors.
pub open spec fn shots_as_actors_s(shots: Seq<Shot>) -> Seq<ActorV> {
    shots.map_values(|sh: Shot| ActorV::Shot(sh))
}

/// Every actor with its pending queue drained.
pub open spec fn cleared_s(s: Seq<ActorV>) -> Seq<ActorV> {
    Seq::new(s.len(), |i: int| a_clear_s(s[i]))
}

/// Stage 2 of a tick: the player's and every actor's pending shots are
/// drained and appended to the world, in order, as new actors.
pub open spec fn collect_stage_s(st: StateV) -> StateV {
    StateV {
        player: PlayerV { shots: Seq::empty(), ..st.player },
        actors: cleared_s(st.actors) + shots_as_actors_s(
            st.player.shots + pendings_upto_s(st.actors, st.actors.len() as int),
        ),
        next: st.next,
    }
}

/// Whether the player and an actor collide.
pub open spec fn pa_collides_s(p: PlayerV, a: ActorV) -> bool {
    collides_s(p.id, PLAYER_RADIUS as int, p.position, a_id_s(a), a_radius_s(a), a_pos_s(a))
}

/// Whether two actors collide.
pub open spec fn aa_collides_s(a: ActorV, b: ActorV) -> bool {
    collides_s(a_id_s(a), a_radius_s(a), a_pos_s(a), a_id_s(b), a_radius_s(b), a_pos_s(b))
}

/// The damage the player takes from the first n actors.
pub open spec fn player_incoming_upto_s(st: StateV, n: int) -> int
    decreases n,
{
    if n <= 0 {
        0
    } else {
        fx_add_s(
            player_incoming_upto_s(st, n - 1),
            if pa_collides_s(st.player, st.actors[n - 1]) {
                a_damage_s(st.actors[n - 1])
            } else {
                0
            },
        )
    }
}

/// The damage actor i takes: from the player's body if they collide, plus
/// the damage of each of the first n other actors that collide with it.
pub open spec fn incoming_upto_s(st: StateV, i: int, n: int) -> int
    decreases n,
{
    if n <= 0 {
        if pa_collides_s(st.player, st.actors[i]) {
            BODY_DAMAGE as int
        } else {
            0
        }
    } else {
        fx_add_s(
            incoming_upto_s(st, i, n - 1),
            if n - 1 != i && aa_collides_s(st.actors[i], st.actors[n - 1]) {
                a_damage_s(st.actors[n - 1])
            } else {
                0
            },
        )
    }
}

/// The total damage actor i takes in the collision pass.
pub open spec fn incoming_s(st: StateV, i: int) -> int {
    incoming_upto_s(st, i, st.actors.len() as int)
}

/// Stage 3 of a tick: every colliding pair (player/actor or actor/actor)
/// exchanges damage, exactly once per unordered pair.  Collisions are judged
/// on positions, radii and ids, which the exchange does not change, so each
/// participant's health drops by the sum of the damage of everything it
/// touches.
pub open spec fn collide_stage_s(st: StateV) -> StateV {
    StateV {
        player: PlayerV {
            health: fx_sub_s(
                st.player.health as int,
                player_incoming_upto_s(st, st.actors.len() as int),
            ) as i64,
            ..st.player
        },
        actors: Seq::new(st.actors.len(), |i: int| a_damaged_s(st.actors[i], incoming_s(st, i))),
        next: st.next,
    }
}

/// The live actors among the first n, in order.
pub open spec fn alive_upto_s(s: Seq<ActorV>, n: int) -> Seq<ActorV>
    decreases n,
{
    if n <= 0 {
        Seq::empty()
    } else {
        alive_upto_s(s, n - 1) + if !a_dead_s(s[n - 1]) {
            seq![s[n - 1]]
        } else {
            Seq::empty()
        }
    }
}

/// Stage 4 of a tick: dead actors are removed, survivors keep their order.
pub open spec fn cull_stage_s(st: StateV) -> StateV {
    StateV { actors: alive_upto_s(st.actors, st.actors.len() as int), ..st }
}

/// One full tick of dt seconds.
pub open spec fn world_step_s(st: StateV, dt: int) -> StateV {
    cull_stage_s(collide_stage_s(collect_stage_s(update_stage_s(st, dt))))
}

/// The main state of the game: the player, the dynamic actors, and the id
/// allocator that gives every actor its identity.
#[derive(Debug)]
pub struct MainState {
    pub player: Player,
    pub actors: Vec<Actor>,
    pub ids: IdAllocator,
}

impl View for MainState {
    type V = StateV;

    open spec fn view(&self) -> StateV {
        StateV { player: self.player@, actors: views_s(self.actors@), next: self.ids.next }
    }
}

/// A freshly placed turret.
pub open spec fn initial_turret_s(pos: Point, bounds: (i64, i64), id: u64) -> ActorV {
    ActorV::Turret(
        TurretV {
            id,
            position: pos,
            bounds,
            health: START_HEALTH,
            rotation: 0,
            turn_speed: TURRET_TURN_SPEED,
            shots: Seq::empty(),
            time_since_last_shot: 0,
        },
    )
}

/// The initial world: the player centered in the arena, and four turrets at
/// the quarter points.
pub open spec fn initial_state_s(width: int, height: int) -> StateV {
    let bounds = (width as i64, height as i64);
    let qw = (width / 4) as i64;
    let qh = (height / 4) as i64;
    let tw = ((3 * width) / 4) as i64;
    let th = ((3 * height) / 4) as i64;
    StateV {
        player: PlayerV {
            id: 1,
            position: Point { x: (width / 2) as i64, y: (height / 2) as i64 },
            bounds,
            health: START_HEALTH,
            velocity: crate::geometry::Velocity { speed: 0, heading: 0 },
            shots: Seq::empty(),
            current_pressed_key: None,
        },
        actors: seq![
            initial_turret_s(Point { x: qw, y: qh }, bounds, 2),
            initial_turret_s(Point { x: qw, y: th }, bounds, 3),
            initial_turret_s(Point { x: tw, y: qh }, bounds, 4),
            initial_turret_s(Point { x: tw, y: th }, bounds, 5),
        ],
        next: 6,
    }
}

impl MainState {
    /// Initialize the game for an arena of the given size.
    pub fn new(width: i64, height: i64) -> (s: MainState)
        requires
            0 <= width,
            0 <= height,
        ensures
            s@ == initial_state_s(width as int, height as int),
    {
        let bounds = (width, height);
        let half_w: i64 = ((width as u64) / 2) as i64;
        let half_h: i64 = ((height as u64) / 2) as i64;
        let quarter_w: i64 = ((width as u64) / 4) as i64;
        let quarter_h: i64 = ((height as u64) / 4) as i64;
        let three_quarter_w: i64 = ((3 * (width as u128)) / 4) as i64;
        let three_quarter_h: i64 = ((3 * (height as u128)) / 4) as i64;
        let mut ids = IdAllocator::new();
        let player = Player::new(Point::new(half_w, half_h), bounds, &mut ids);
        let mut state = MainState { player, actors: Vec::new(), ids };
        let t1 = Turret::new(Point::new(quarter_w, quarter_h), bounds, &mut state.ids);
        state.add_actor(Actor::Turret(t1));
        let t2 = Turret::new(Point::new(quarter_w, three_quarter_h), bounds, &mut state.ids);
        state.add_actor(Actor::Turret(t2));
        let t3 = Turret::new(Point::new(three_quarter_w, quarter_h), bounds, &mut state.ids);
        state.add_actor(Actor::Turret(t3));
        let t4 = Turret::new(Point::new(three_quarter_w, three_quarter_h), bounds, &mut state.ids);
        state.add_actor(Actor::Turret(t4));
        proof {
            assert(state@.actors =~= initial_state_s(width as int, height as int).actors);
        }
        state
    }

    /// Add an actor to the game.
    pub fn add_actor(&mut self, actor: Actor)
        ensures
            final(self)@ == (StateV { actors: old(self)@.actors.push(actor@), ..old(self)@ }),
    {
        self.actors.push(actor);
        proof {
            assert(views_s(self.actors@) =~= views_s(old(self).actors@).push(actor@));
        }
    }

    /// Drain every pending shot queue and add the shots to the world.
    pub fn collect_shots(&mut self)
        ensures
            final(self)@ == collect_stage_s(old(self)@),
    {
        let mut new_shots: Vec<Shot> = self.player.collect_shots();
        let n = self.actors.len();
        let mut i: usize = 0;
        while i < n
            invariant
                0 <= i <= n,
                n == self.actors.len(),
                n == old(self)@.actors.len(),
                self.player@ == (PlayerV { shots: Seq::empty(), ..old(self)@.player }),
                self.ids == old(self).ids,
                forall|k: int|
                    0 <= k < i ==> (#[trigger] self.actors@[k])@ == a_clear_s(
                        old(self)@.actors[k],
                    ),
                forall|k: int| i <= k < n ==> #[trigger] self.actors@[k] == old(self).actors@[k],
                new_shots@ == old(self)@.player.shots + pendings_upto_s(
                    old(self)@.actors,
                    i as int,
                ),
            decreases n - i,
        {
            let mut a = self.actors.remove(i);
            let mut v = a.collect_shots();
            new_shots.append(&mut v);
            self.actors.insert(i, a);
            i = i + 1;
        }
        let m = new_shots.len();
        let mut j: usize = 0;
        while j < m
            invariant
                0 <= j <= m,
                m == new_shots.len(),
                n == old(self)@.actors.len(),
                self.actors@.len() == n + j,
                self.player@ == (PlayerV { shots: Seq::empty(), ..old(self)@.player }),
                self.ids == old(self).ids,
                forall|k: int|
                    0 <= k < n ==> (#[trigger] self.actors@[k])@ == a_clear_s(
                        old(self)@.actors[k],
                    ),
                forall|k: int|
                    n <= k < n + j ==> (#[trigger] self.actors@[k])@ == ActorV::Shot(
                        new_shots@[k - n],
                    ),
                new_shots@ == old(self)@.player.shots + pendings_upto_s(
                    old(self)@.actors,
                    n as int,
                ),
            decreases m - j,
        {
            let sh = new_shots[j];
            self.actors.push(Actor::Shot(sh));
            j = j + 1;
        }
        proof {
            assert(views_s(self.actors@) =~= collect_stage_s(old(self)@).actors);
        }
    }

    /// Resolve all collisions of this tick: every colliding pair exchanges
    /// damage exactly once.
    pub fn handle_collisions(&mut self)
        ensures
            final(self)@ == collide_stage_s(old(self)@),
    {
        let n = self.actors.len();
        let mut incoming: Vec<i64> = Vec::new();
        let mut player_incoming: i64 = 0;
        let mut i: usize = 0;
        while i < n
            invariant
                0 <= i <= n,
                n == self.actors.len(),
                *self == *old(self),
                incoming@.len() == i,
                forall|k: int|
                    0 <= k < i ==> (#[trigger] incoming@[k]) as int == incoming_s(old(self)@, k),
                player_incoming as int == player_incoming_upto_s(old(self)@, i as int),
            decreases n - i,
        {
            let collides_p = self.player.check_for_collision(&self.actors[i]);
            if collides_p {
                player_incoming = fx_add(player_incoming, self.actors[i].get_damage());
            }
            let mut d: i64 = if collides_p {
                BODY_DAMAGE
            } else {
                0
            };
            let mut j: usize = 0;
            while j < n
                invariant
                    0 <= j <= n,
                    i < n,
                    n == self.actors.len(),
                    *self == *old(self),
                    d as int == incoming_upto_s(old(self)@, i as int, j as int),
                decreases n - j,
            {
                if j != i {
                    let hit = self.actors[i].check_for_collision(&self.actors[j]);
                    if hit {
                        d = fx_add(d, self.actors[j].get_damage());
                    }
                }
                j = j + 1;
            }
            incoming.push(d);
            i = i + 1;
        }
        self.player.do_damage(player_incoming);
        let mut k: usize = 0;
        while k < n
            invariant
                0 <= k <= n,
                n == self.actors.len(),
                n == old(self)@.actors.len(),
                incoming@.len() == n,
                forall|t: int|
                    0 <= t < n ==> (#[trigger] incoming@[t]) as int == incoming_s(old(self)@, t),
                self.player@ == (PlayerV {
                    health: fx_sub_s(
                        old(self)@.player.health as int,
                        player_incoming_upto_s(old(self)@, n as int),
                    ) as i64,
                    ..old(self)@.player
                }),
                self.ids == old(self).ids,
                forall|t: int|
                    0 <= t < k ==> (#[trigger] self.actors@[t])@ == a_damaged_s(
                        old(self)@.actors[t],
                        incoming_s(old(self)@, t),
                    ),
                forall|t: int| k <= t < n ==> #[trigger] self.actors@[t] == old(self).actors@[t],
            decreases n - k,
        {
            let mut a = self.actors.remove(k);
            a.do_damage(incoming[k]);
            self.actors.insert(k, a);
            k = k + 1;
        }
        proof {
            assert(views_s(self.actors@) =~= collide_stage_s(old(self)@).actors);
        }
    }

    /// Remove every dead actor, preserving the order of the survivors.
    pub fn remove_dead(&mut self)
        ensures
            final(self)@ == cull_stage_s(old(self)@),
    {
        let n = self.actors.len();
        let mut kept: Vec<Actor> = Vec::new();
        let mut i: usize = 0;
        while i < n
            invariant
                0 <= i <= n,
                n == old(self)@.actors.len(),
                self.actors@.len() == n - i,
                self.player == old(self).player,
                self.ids == old(self).ids,
                forall|k: int|
                    0 <= k < n - i ==> #[trigger] self.actors@[k] == old(self).actors@[k + i],
                views_s(kept@) == alive_upto_s(old(self)@.actors, i as int),
            decreases n - i,
        {
            let a = self.actors.remove(0);
            let dead = a.is_dead();
            if !dead {
                kept.push(a);
            }
            proof {
                assert(views_s(kept@) =~= alive_upto_s(old(self)@.actors, i + 1));
            }
            i = i + 1;
        }
        self.actors = kept;
        proof {
            assert(views_s(self.actors@) =~= cull_stage_s(old(self)@).actors);
        }
    }

    /// Run one simulation tick of dt seconds: update the player and every
    /// actor, collect new shots, resolve collisions, cull the dead.  Returns
    /// whether the player has died, which ends the game.
    pub fn update(&mut self, dt: i64) -> (game_over: bool)
        ensures
            final(self)@ == world_step_s(old(self)@, dt as int),
            game_over == (final(self)@.player.health <= 0),
    {
        self.player.update(dt);
        let n = self.actors.len();
        let mut i: usize = 0;
        while i < n
            invariant
                0 <= i <= n,
                n == self.actors.len(),
                n == old(self)@.actors.len(),
                self.player@ == step_player_s(old(self)@.player, dt as int),
                self.ids.next as int == next_after_s(
                    old(self)@.actors,
                    i as int,
                    old(self)@.next as int,
                ),
                forall|k: int|
                    0 <= k < i ==> (#[trigger] self.actors@[k])@ == step_actor_s(
                        old(self)@.actors[k],
                        dt as int,
                        next_after_s(old(self)@.actors, k, old(self)@.next as int) as u64,
                    ),
                forall|k: int| i <= k < n ==> #[trigger] self.actors@[k] == old(self).actors@[k],
            decreases n - i,
        {
            let mut a = self.actors.remove(i);
            a.update(dt, &mut self.ids);
            self.actors.insert(i, a);
            i = i + 1;
        }
        let ghost st1 = update_stage_s(old(self)@, dt as int);
        proof {
            assert(views_s(self.actors@) =~= st1.actors);
            assert(self@ == st1);
        }
        self.collect_shots();
        self.handle_collisions();
        self.remove_dead();
        self.player.is_dead()
    }

    /// Forward a key-down event to the player.  Returns whether the event
    /// was an escape press, which asks the frame driver to terminate.
    pub fn key_down_event(&mut self, keycode: Key, repeat: bool) -> (quit: bool)
        ensures
            final(self)@ == (StateV {
                player: key_down_s(old(self)@.player, keycode, repeat, old(self)@.next),
                actors: old(self)@.actors,
                next: sat_u64(
                    old(self)@.next as int + key_down_ids_s(keycode, repeat),
                ) as u64,
            }),
            quit == (keycode == Key::Escape),
    {
        let quit = matches!(keycode, Key::Escape);
        let ids = &mut self.ids;
        self.player.handle_key_down_event(keycode, repeat, ids);
        quit
    }

    /// Forward a key-up event to the player.
    pub fn key_up_event(&mut self, keycode: Key)
        ensures
            final(self)@ == (StateV {
                player: key_up_s(old(self)@.player, keycode),
                ..old(self)@
            }),
    {
        self.player.handle_key_up_event(keycode);
    }
}

} // verus!
