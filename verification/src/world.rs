//! The simulation state and the per-tick systems that drive it.

use vstd::prelude::*;

use rand::Rng;

use crate::collision::{
    bottom_wall_hit_count, collision_event_count, pair_count, spaceship_hit_count,
    surviving_aliens, surviving_lasers,
};
use crate::components::{
    ticked_timer, Alien, AlienSpawnTimer, GameState, Laser, Spaceship, Velocity,
};
use crate::constants::{
    ALIEN_SPAWN_X_MAX, ALIEN_SPAWN_X_MIN, ALIEN_SPAWN_Y, ALIEN_SPEED, HALF_SPACESHIP_SIZE_Y,
    LASER_SPEED, LEFT_BOUND, RIGHT_BOUND, SPACESHIP_SPEED, SPACESHIP_Y,
};
use crate::geometry::{clamped, Vec2};

verus! {

/// The whole simulation: game flow, score and lives, the spawn countdown,
/// and every entity. One value of this type is the single owner of all
/// per-game state; each system below mutates it in place.
pub struct World {
    pub state: GameState,
    pub score: i16,
    pub lives: u16,
    pub spawn_timer: AlienSpawnTimer,
    pub spaceship: Spaceship,
    pub lasers: Vec<Laser>,
    pub aliens: Vec<Alien>,
    /// Whether the welcome text is still on screen; it leaves when play
    /// starts.
    pub instructions_shown: bool,
}

/// A point advanced by a velocity for `dt` milliseconds: the exact product
/// `velocity * dt`, truncated only if it leaves the coordinate range (the
/// systems below require that it does not).
pub open spec fn moved_point(p: Vec2, v: Velocity, dt: int) -> Vec2 {
    Vec2 { x: (p.x + v.0.x * dt) as i64, y: (p.y + v.0.y * dt) as i64 }
}

/// Does integrating `p` by `v` over `dt` stay inside the coordinate range
/// on both axes?
pub open spec fn move_fits(p: Vec2, v: Velocity, dt: int) -> bool {
    &&& i64::MIN <= p.x + v.0.x * dt <= i64::MAX
    &&& i64::MIN <= p.y + v.0.y * dt <= i64::MAX
}

pub open spec fn moved_laser(l: Laser, dt: int) -> Laser {
    Laser { pos: moved_point(l.pos, l.vel, dt), vel: l.vel }
}

pub open spec fn moved_alien(a: Alien, dt: int) -> Alien {
    Alien { pos: moved_point(a.pos, a.vel, dt), vel: a.vel }
}

pub open spec fn moved_lasers(s: Seq<Laser>, dt: int) -> Seq<Laser> {
    s.map_values(|l: Laser| moved_laser(l, dt))
}

pub open spec fn moved_aliens(s: Seq<Alien>, dt: int) -> Seq<Alien> {
    s.map_values(|a: Alien| moved_alien(a, dt))
}

/// Every entity of `w` can integrate over `dt` without leaving the
/// coordinate range.
pub open spec fn all_moves_fit(w: World, dt: int) -> bool {
    &&& forall|i: int|
        0 <= i < w.lasers@.len() ==> move_fits(#[trigger] w.lasers@[i].pos, w.lasers@[i].vel, dt)
    &&& forall|i: int|
        0 <= i < w.aliens@.len() ==> move_fits(#[trigger] w.aliens@[i].pos, w.aliens@[i].vel, dt)
}

/// `-1`, `0` or `1`: left and right are summed, so holding both cancels.
pub open spec fn direction(left_held: bool, right_held: bool) -> int {
    (if right_held {
        1int
    } else {
        0int
    }) - (if left_held {
        1int
    } else {
        0int
    })
}

/// Where the spaceship ends up: the input-driven displacement, clamped
/// into the playfield bounds.
pub open spec fn moved_spaceship(s: Spaceship, left_held: bool, right_held: bool, dt: int) -> Spaceship {
    Spaceship {
        x: clamped(
            s.x + direction(left_held, right_held) * SPACESHIP_SPEED * dt,
            LEFT_BOUND as int,
            RIGHT_BOUND as int,
        ) as i64,
    }
}

/// The laser a fire press creates: at the ship's horizontal center, half
/// the ship's height above it, climbing at the fixed laser speed.
pub open spec fn fired_laser(s: Spaceship) -> Laser {
    Laser {
        pos: Vec2 { x: s.x, y: (SPACESHIP_Y + HALF_SPACESHIP_SIZE_Y) as i64 },
        vel: Velocity(Vec2 { x: 0, y: LASER_SPEED }),
    }
}

/// The alien the spawner creates at horizontal position `x`: at the spawn
/// height, descending at the fixed alien speed.
pub open spec fn spawned_alien(x: i64) -> Alien {
    Alien {
        pos: Vec2 { x, y: ALIEN_SPAWN_Y },
        vel: Velocity(Vec2 { x: 0, y: (-ALIEN_SPEED) as i64 }),
    }
}

/// The lasers present when the collision engine runs: the old ones moved,
/// plus the one a fire press adds above the already-moved spaceship.
pub open spec fn tick_mid_lasers(
    w: World,
    left_held: bool,
    right_held: bool,
    fire_pressed: bool,
    dt: int,
) -> Seq<Laser> {
    let moved = moved_lasers(w.lasers@, dt);
    if fire_pressed {
        moved.push(fired_laser(moved_spaceship(w.spaceship, left_held, right_held, dt)))
    } else {
        moved
    }
}

/// What a tick in play needs to run without a machine-limit fault: time
/// flows forward, no entity integrates out of the coordinate range, the
/// entity counts and the countdown stay representable, the score stays in
/// its range, and there are lives enough for every alien that reaches the
/// spaceship (score overflow and life underflow are fatal faults, not
/// gameplay).
pub open spec fn tick_preconditions(
    w: World,
    left_held: bool,
    right_held: bool,
    fire_pressed: bool,
    dt: int,
) -> bool {
    let ship1 = moved_spaceship(w.spaceship, left_held, right_held, dt);
    let aliens1 = moved_aliens(w.aliens@, dt);
    let lasers1 = tick_mid_lasers(w, left_held, right_held, fire_pressed, dt);
    &&& 0 <= dt
    &&& all_moves_fit(w, dt)
    &&& w.aliens@.len() <= 1_000_000_000
    &&& w.lasers@.len() < 1_000_000_000
    &&& w.spawn_timer.elapsed + dt <= i64::MAX
    &&& w.score + 3 * pair_count(aliens1, lasers1) <= i16::MAX
    &&& w.score - bottom_wall_hit_count(aliens1) >= i16::MIN
    &&& spaceship_hit_count(aliens1, ship1) <= w.lives
}

/// Relies on rand's `thread_rng` and `Rng::gen_range` on `low..high`: a
/// uniformly distributed sample in `[low, high)`. `gen_range` panics on an
/// empty range, which the precondition rules out.
#[verifier::external_body]
fn random_uniform(low: i64, high: i64) -> (r: i64)
    requires
        low < high,
    ensures
        low <= r < high,
{
    rand::thread_rng().gen_range(low..high)
}

impl World {
    /// The state every system preserves: the spawn countdown is within its
    /// period and the spaceship is inside the playfield bounds.
    pub open spec fn wf(self) -> bool {
        &&& self.spawn_timer.wf()
        &&& LEFT_BOUND <= self.spaceship.x <= RIGHT_BOUND
    }

    /// A fresh game: at the menu with the welcome text up, full lives, no
    /// score, no entities, the spaceship centered, the countdown at zero.
    pub fn setup() -> (w: World)
        ensures
            w.state == GameState::MainMenu,
            w.score == 0,
            w.lives == 3,
            w.spawn_timer.elapsed == 0,
            !w.spawn_timer.finished,
            w.spaceship.x == 0,
            w.lasers@.len() == 0,
            w.aliens@.len() == 0,
            w.instructions_shown,
            w.wf(),
    {
        World {
            state: GameState::MainMenu,
            score: 0,
            lives: 3,
            spawn_timer: AlienSpawnTimer::default(),
            spaceship: Spaceship { x: 0 },
            lasers: Vec::new(),
            aliens: Vec::new(),
            instructions_shown: true,
        }
    }

    /// Advance every entity that carries a velocity by `velocity * dt`.
    /// No bounds clamping happens here: where an entity may go is the
    /// collision engine's concern.
    #[verifier::loop_isolation(false)]
    pub fn apply_velocity(&mut self, dt: i64)
        requires
            0 <= dt,
            all_moves_fit(*old(self), dt as int),
        ensures
            final(self).lasers@ == moved_lasers(old(self).lasers@, dt as int),
            final(self).aliens@ == moved_aliens(old(self).aliens@, dt as int),
            final(self).state == old(self).state,
            final(self).score == old(self).score,
            final(self).lives == old(self).lives,
            final(self).spawn_timer == old(self).spawn_timer,
            final(self).spaceship == old(self).spaceship,
            final(self).instructions_shown == old(self).instructions_shown,
    {
        let ghost w0 = *old(self);
        let mut i: usize = 0;
        let n = self.lasers.len();
        while i < n
            invariant
                i <= n,
                self.lasers@.len() == n,
                forall|j: int| 0 <= j < i ==> self.lasers@[j] == moved_laser(w0.lasers@[j], dt as int),
                forall|j: int| i <= j < n ==> self.lasers@[j] == w0.lasers@[j],
                self.aliens@ == w0.aliens@,
                self.state == w0.state,
                self.score == w0.score,
                self.lives == w0.lives,
                self.spawn_timer == w0.spawn_timer,
                self.spaceship == w0.spaceship,
                self.instructions_shown == w0.instructions_shown,
            decreases n - i,
        {
            let l = self.lasers[i];
            proof {
                assert(all_moves_fit(w0, dt as int));
                assert(l == w0.lasers@[i as int]);
                assert(move_fits(l.pos, l.vel, dt as int));
            }
            let nx: i128 = (l.pos.x as i128) + (l.vel.0.x as i128) * (dt as i128);
            let ny: i128 = (l.pos.y as i128) + (l.vel.0.y as i128) * (dt as i128);
            self.lasers.set(i, Laser { pos: Vec2 { x: nx as i64, y: ny as i64 }, vel: l.vel });
            i = i + 1;
        }
        let mut i: usize = 0;
        let n = self.aliens.len();
        while i < n
            invariant
                i <= n,
                self.aliens@.len() == n,
                forall|j: int| 0 <= j < i ==> self.aliens@[j] == moved_alien(w0.aliens@[j], dt as int),
                forall|j: int| i <= j < n ==> self.aliens@[j] == w0.aliens@[j],
                self.lasers@ == moved_lasers(w0.lasers@, dt as int),
                self.state == w0.state,
                self.score == w0.score,
                self.lives == w0.lives,
                self.spawn_timer == w0.spawn_timer,
                self.spaceship == w0.spaceship,
                self.instructions_shown == w0.instructions_shown,
            decreases n - i,
        {
            let a = self.aliens[i];
            proof {
                assert(all_moves_fit(w0, dt as int));
                assert(a == w0.aliens@[i as int]);
                assert(move_fits(a.pos, a.vel, dt as int));
            }
            let nx: i128 = (a.pos.x as i128) + (a.vel.0.x as i128) * (dt as i128);
            let ny: i128 = (a.pos.y as i128) + (a.vel.0.y as i128) * (dt as i128);
            self.aliens.set(i, Alien { pos: Vec2 { x: nx as i64, y: ny as i64 }, vel: a.vel });
            i = i + 1;
        }
        proof {
            assert(self.lasers@ =~= moved_lasers(w0.lasers@, dt as int));
            assert(self.aliens@ =~= moved_aliens(w0.aliens@, dt as int));
        }
    }

    /// Move the spaceship by the held direction keys for `dt`
    /// milliseconds, clamped so it never overlaps a side wall.
    pub fn move_spaceship(&mut self, left_held: bool, right_held: bool, dt: i64)
        requires
            0 <= dt,
        ensures
            final(self).spaceship == moved_spaceship(old(self).spaceship, left_held, right_held, dt as int),
            LEFT_BOUND <= final(self).spaceship.x <= RIGHT_BOUND,
            final(self).lasers@ == old(self).lasers@,
            final(self).aliens@ == old(self).aliens@,
            final(self).state == old(self).state,
            final(self).score == old(self).score,
            final(self).lives == old(self).lives,
            final(self).spawn_timer == old(self).spawn_timer,
            final(self).instructions_shown == old(self).instructions_shown,
    {
        let step: i128 = (SPACESHIP_SPEED as i128) * (dt as i128);
        let mut displacement: i128 = 0;
        if left_held {
            displacement = displacement - step;
        }
        if right_held {
            displacement = displacement + step;
        }
        proof {
            // `dt` fits in 64 bits, so the displacement and the clamp
            // target below stay far inside the 128-bit range.
            assert(-700 * 0x8000_0000_0000_0000 <= displacement <= 700 * 0x8000_0000_0000_0000);
        }
        let target: i128 = (self.spaceship.x as i128) + displacement;
        proof {
            let d = direction(left_held, right_held);
            if left_held == right_held {
                assert(d == 0);
                assert(d * SPACESHIP_SPEED * (dt as int) == 0) by (nonlinear_arith)
                    requires
                        d == 0,
                ;
            } else if right_held {
                assert(d == 1);
                assert(d * SPACESHIP_SPEED * (dt as int) == SPACESHIP_SPEED * (dt as int))
                    by (nonlinear_arith)
                    requires
                        d == 1,
                ;
            } else {
                assert(d == -1);
                assert(d * SPACESHIP_SPEED * (dt as int) == -(SPACESHIP_SPEED * (dt as int)))
                    by (nonlinear_arith)
                    requires
                        d == -1,
                ;
            }
            assert(target == old(self).spaceship.x + d * SPACESHIP_SPEED * (dt as int));
        }
        let new_x: i128 = if target < LEFT_BOUND as i128 {
            LEFT_BOUND as i128
        } else if target > RIGHT_BOUND as i128 {
            RIGHT_BOUND as i128
        } else {
            target
        };
        self.spaceship = Spaceship { x: new_x as i64 };
    }

    /// On a fire press, spawn exactly one laser above the spaceship; each
    /// call with the edge trigger down adds nothing.
    pub fn fire_laser(&mut self, fire_pressed: bool)
        ensures
            fire_pressed ==> final(self).lasers@ == old(self).lasers@.push(
                fired_laser(old(self).spaceship),
            ),
            !fire_pressed ==> final(self).lasers@ == old(self).lasers@,
            final(self).aliens@ == old(self).aliens@,
            final(self).state == old(self).state,
            final(self).score == old(self).score,
            final(self).lives == old(self).lives,
            final(self).spawn_timer == old(self).spawn_timer,
            final(self).spaceship == old(self).spaceship,
            final(self).instructions_shown == old(self).instructions_shown,
    {
        if fire_pressed {
            let y = SPACESHIP_Y + HALF_SPACESHIP_SIZE_Y;
            self.lasers.push(Laser {
                pos: Vec2 { x: self.spaceship.x, y },
                vel: Velocity(Vec2 { x: 0, y: LASER_SPEED }),
            });
        }
    }

    /// Advance the spawn countdown by `dt` milliseconds.
    pub fn tick_alien_spawn_timer(&mut self, dt: i64)
        requires
            old(self).spawn_timer.wf(),
            0 <= dt,
            old(self).spawn_timer.elapsed + dt <= i64::MAX,
        ensures
            final(self).spawn_timer == ticked_timer(old(self).spawn_timer, dt as int),
            final(self).spawn_timer.wf(),
            final(self).lasers@ == old(self).lasers@,
            final(self).aliens@ == old(self).aliens@,
            final(self).state == old(self).state,
            final(self).score == old(self).score,
            final(self).lives == old(self).lives,
            final(self).spaceship == old(self).spaceship,
            final(self).instructions_shown == old(self).instructions_shown,
    {
        self.spawn_timer.tick(dt);
    }

    /// Place a new alien at horizontal position `x`, at the spawn height,
    /// descending.
    pub fn spawn_alien_at(&mut self, x: i64)
        ensures
            final(self).aliens@ == old(self).aliens@.push(spawned_alien(x)),
            final(self).lasers@ == old(self).lasers@,
            final(self).state == old(self).state,
            final(self).score == old(self).score,
            final(self).lives == old(self).lives,
            final(self).spawn_timer == old(self).spawn_timer,
            final(self).spaceship == old(self).spaceship,
            final(self).instructions_shown == old(self).instructions_shown,
    {
        self.aliens.push(Alien {
            pos: Vec2 { x, y: ALIEN_SPAWN_Y },
            vel: Velocity(Vec2 { x: 0, y: -ALIEN_SPEED }),
        });
    }

    /// If the countdown fired this tick, spawn one alien at a random
    /// horizontal position along the top edge, offset inward so it fits
    /// between the side walls.
    pub fn spawn_alien(&mut self)
        ensures
            !old(self).spawn_timer.finished ==> *final(self) == *old(self),
            old(self).spawn_timer.finished ==> exists|x: i64|
                #![auto]
                ALIEN_SPAWN_X_MIN <= x < ALIEN_SPAWN_X_MAX && final(self).aliens@ == old(
                    self,
                ).aliens@.push(spawned_alien(x)),
            final(self).lasers@ == old(self).lasers@,
            final(self).state == old(self).state,
            final(self).score == old(self).score,
            final(self).lives == old(self).lives,
            final(self).spawn_timer == old(self).spawn_timer,
            final(self).spaceship == old(self).spaceship,
            final(self).instructions_shown == old(self).instructions_shown,
    {
        if self.spawn_timer.finished {
            let x = random_uniform(ALIEN_SPAWN_X_MIN, ALIEN_SPAWN_X_MAX);
            self.spawn_alien_at(x);
        }
    }

    /// The score the display layer shows.
    pub fn update_scoreboard(&self) -> (score: i16)
        ensures
            score == self.score,
    {
        self.score
    }

    /// The state-check pass: report the lives the display layer shows, and
    /// end the game the moment they run out.
    pub fn update_lives_remaining(&mut self) -> (lives: u16)
        ensures
            lives == old(self).lives,
            final(self).state == (if old(self).lives < 1 {
                GameState::GameOver
            } else {
                old(self).state
            }),
            final(self).lasers@ == old(self).lasers@,
            final(self).aliens@ == old(self).aliens@,
            final(self).score == old(self).score,
            final(self).lives == old(self).lives,
            final(self).spawn_timer == old(self).spawn_timer,
            final(self).spaceship == old(self).spaceship,
            final(self).instructions_shown == old(self).instructions_shown,
    {
        let lives_remaining = self.lives;
        if lives_remaining < 1 {
            self.state = GameState::GameOver;
        }
        lives_remaining
    }

    /// One simulation tick, the systems chained in their fixed order:
    /// integrate, move the spaceship, fire, resolve collisions, advance
    /// the spawn countdown, spawn, then the state check. The simulation
    /// systems run only in play; at the menu only the start key is read,
    /// and a finished game changes nothing any more.
    ///
    /// Returns the number of collision signals of this tick.
    pub fn tick(
        &mut self,
        dt: i64,
        left_held: bool,
        right_held: bool,
        fire_pressed: bool,
        start_pressed: bool,
    ) -> (events: u64)
        requires
            old(self).wf(),
            old(self).state == GameState::InGame ==> tick_preconditions(
                *old(self),
                left_held,
                right_held,
                fire_pressed,
                dt as int,
            ),
        ensures
            final(self).wf(),
            old(self).state == GameState::InGame ==> ({
                let ship1 = moved_spaceship(old(self).spaceship, left_held, right_held, dt as int);
                let aliens1 = moved_aliens(old(self).aliens@, dt as int);
                let lasers1 = tick_mid_lasers(*old(self), left_held, right_held, fire_pressed, dt as int);
                let timer1 = ticked_timer(old(self).spawn_timer, dt as int);
                let aliens2 = surviving_aliens(aliens1, lasers1, ship1);
                &&& final(self).spaceship == ship1
                &&& final(self).lasers@ == surviving_lasers(lasers1, aliens1)
                &&& final(self).score == old(self).score + 3 * pair_count(aliens1, lasers1)
                    - bottom_wall_hit_count(aliens1)
                &&& final(self).lives == old(self).lives - spaceship_hit_count(aliens1, ship1)
                &&& final(self).spawn_timer == timer1
                &&& (timer1.finished ==> exists|x: i64|
                    #![auto]
                    ALIEN_SPAWN_X_MIN <= x < ALIEN_SPAWN_X_MAX && final(self).aliens@
                        == aliens2.push(spawned_alien(x)))
                &&& (!timer1.finished ==> final(self).aliens@ == aliens2)
                &&& final(self).state == (if final(self).lives < 1 {
                    GameState::GameOver
                } else {
                    GameState::InGame
                })
                &&& final(self).instructions_shown == old(self).instructions_shown
                &&& events == collision_event_count(aliens1, lasers1, ship1)
            }),
            old(self).state == GameState::MainMenu ==> ({
                &&& (start_pressed ==> final(self).state == GameState::InGame
                    && !final(self).instructions_shown)
                &&& (!start_pressed ==> *final(self) == *old(self))
                &&& final(self).lasers@ == old(self).lasers@
                &&& final(self).aliens@ == old(self).aliens@
                &&& final(self).score == old(self).score
                &&& final(self).lives == old(self).lives
                &&& final(self).spawn_timer == old(self).spawn_timer
                &&& final(self).spaceship == old(self).spaceship
                &&& events == 0
            }),
            old(self).state == GameState::GameOver ==> *final(self) == *old(self) && events == 0,
    {
        match self.state {
            GameState::MainMenu => {
                self.start_game(start_pressed);
                0
            },
            GameState::GameOver => 0,
            GameState::InGame => {
                self.apply_velocity(dt);
                self.move_spaceship(left_held, right_held, dt);
                self.fire_laser(fire_pressed);
                let events = self.check_for_collisions();
                self.tick_alien_spawn_timer(dt);
                self.spawn_alien();
                self.update_lives_remaining();
                events
            },
        }
    }

    /// At the menu, a press of the start key takes down the welcome text
    /// and begins play; anything else changes nothing.
    pub fn start_game(&mut self, start_pressed: bool)
        ensures
            (start_pressed && old(self).state == GameState::MainMenu) ==> {
                &&& final(self).state == GameState::InGame
                &&& !final(self).instructions_shown
            },
            !(start_pressed && old(self).state == GameState::MainMenu) ==> *final(self) == *old(self),
            final(self).lasers@ == old(self).lasers@,
            final(self).aliens@ == old(self).aliens@,
            final(self).score == old(self).score,
            final(self).lives == old(self).lives,
            final(self).spawn_timer == old(self).spawn_timer,
            final(self).spaceship == old(self).spaceship,
    {
        if start_pressed {
            match self.state {
                GameState::MainMenu => {
                    self.instructions_shown = false;
                    self.state = GameState::InGame;
                },
                _ => {},
            }
        }
    }
}

} // verus!
