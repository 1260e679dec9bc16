//! The collision engine: axis-aligned overlap tests between lasers,
//! aliens, the spaceship and the walls, and the outcomes they resolve to
//! (score changes, life loss, despawns).

use vstd::prelude::*;

use crate::components::{wall_rect, Alien, Laser, Spaceship, WallLocation};
use crate::constants::{
    ALIEN_SIZE_X, ALIEN_SIZE_Y, LASER_SIZE_X, LASER_SIZE_Y, SPACESHIP_SIZE_X, SPACESHIP_SIZE_Y,
    SPACESHIP_Y,
};
use crate::geometry::{collide, rects_overlap, Rect, Vec2};
use crate::world::World;

verus! {

/// A laser's collision rectangle: its position with the fixed laser size.
pub open spec fn laser_rect(l: Laser) -> Rect {
    Rect { center: l.pos, size: Vec2 { x: LASER_SIZE_X, y: LASER_SIZE_Y } }
}

/// An alien's collision rectangle: its position with the fixed alien size.
pub open spec fn alien_rect(a: Alien) -> Rect {
    Rect { center: a.pos, size: Vec2 { x: ALIEN_SIZE_X, y: ALIEN_SIZE_Y } }
}

/// The spaceship's collision rectangle at its fixed height.
pub open spec fn spaceship_rect(s: Spaceship) -> Rect {
    Rect {
        center: Vec2 { x: s.x, y: SPACESHIP_Y },
        size: Vec2 { x: SPACESHIP_SIZE_X, y: SPACESHIP_SIZE_Y },
    }
}

/// How many lasers of `lasers` overlap the rectangle `r`.
pub open spec fn laser_hit_count(r: Rect, lasers: Seq<Laser>) -> nat
    decreases lasers.len(),
{
    if lasers.len() == 0 {
        0
    } else {
        laser_hit_count(r, lasers.drop_last()) + (if rects_overlap(
            laser_rect(lasers.last()),
            r,
        ) {
            1nat
        } else {
            0nat
        })
    }
}

/// How many aliens of `aliens` overlap the rectangle `r`.
pub open spec fn alien_overlap_count(r: Rect, aliens: Seq<Alien>) -> nat
    decreases aliens.len(),
{
    if aliens.len() == 0 {
        0
    } else {
        alien_overlap_count(r, aliens.drop_last()) + (if rects_overlap(
            r,
            alien_rect(aliens.last()),
        ) {
            1nat
        } else {
            0nat
        })
    }
}

/// How many (alien, laser) pairs overlap. Every pair counts: the score
/// bonus is paid per pair even when one alien is struck by several lasers
/// in the same tick, because despawns only take effect after the whole
/// pass.
pub open spec fn pair_count(aliens: Seq<Alien>, lasers: Seq<Laser>) -> nat
    decreases aliens.len(),
{
    if aliens.len() == 0 {
        0
    } else {
        pair_count(aliens.drop_last(), lasers) + laser_hit_count(
            alien_rect(aliens.last()),
            lasers,
        )
    }
}

/// Is the alien struck by at least one laser this tick?
pub open spec fn alien_hit_by_laser(a: Alien, lasers: Seq<Laser>) -> bool {
    laser_hit_count(alien_rect(a), lasers) > 0
}

/// Does the alien overlap the spaceship this tick?
pub open spec fn alien_hits_spaceship(a: Alien, s: Spaceship) -> bool {
    rects_overlap(spaceship_rect(s), alien_rect(a))
}

/// Has the alien reached the bottom wall?
pub open spec fn alien_hits_bottom_wall(a: Alien) -> bool {
    rects_overlap(wall_rect(WallLocation::Bottom), alien_rect(a))
}

/// An alien leaves the world when any of the three independent checks
/// fires: a laser strike, touching the spaceship, or reaching the bottom
/// wall. Destruction is idempotent, so satisfying several at once still
/// removes the alien exactly once.
pub open spec fn alien_destroyed(a: Alien, lasers: Seq<Laser>, s: Spaceship) -> bool {
    alien_hit_by_laser(a, lasers) || alien_hits_spaceship(a, s) || alien_hits_bottom_wall(a)
}

/// A laser leaves the world exactly when it strikes some alien.
pub open spec fn laser_destroyed(l: Laser, aliens: Seq<Alien>) -> bool {
    alien_overlap_count(laser_rect(l), aliens) > 0
}

/// How many aliens overlap the spaceship: each one costs a life.
pub open spec fn spaceship_hit_count(aliens: Seq<Alien>, s: Spaceship) -> nat {
    alien_overlap_count(spaceship_rect(s), aliens)
}

/// How many aliens reached the bottom wall: each one costs a point.
pub open spec fn bottom_wall_hit_count(aliens: Seq<Alien>) -> nat {
    alien_overlap_count(wall_rect(WallLocation::Bottom), aliens)
}

/// The aliens that are still there after the pass, in their original
/// order.
pub open spec fn surviving_aliens(aliens: Seq<Alien>, lasers: Seq<Laser>, s: Spaceship) -> Seq<
    Alien,
>
    decreases aliens.len(),
{
    if aliens.len() == 0 {
        Seq::empty()
    } else {
        let rest = surviving_aliens(aliens.drop_last(), lasers, s);
        if alien_destroyed(aliens.last(), lasers, s) {
            rest
        } else {
            rest.push(aliens.last())
        }
    }
}

/// The lasers that are still there after the pass, in their original
/// order. The test is against the aliens present at the start of the
/// pass: a laser that strikes an alien is consumed even when that alien
/// was also destroyed by another check.
pub open spec fn surviving_lasers(lasers: Seq<Laser>, aliens: Seq<Alien>) -> Seq<Laser>
    decreases lasers.len(),
{
    if lasers.len() == 0 {
        Seq::empty()
    } else {
        let rest = surviving_lasers(lasers.drop_last(), aliens);
        if laser_destroyed(lasers.last(), aliens) {
            rest
        } else {
            rest.push(lasers.last())
        }
    }
}

/// One collision signal goes out per overlapping (collidable, laser)
/// pair, the collidables being the aliens, the spaceship and the four
/// walls. The display layer may play a sound per signal.
pub open spec fn collision_event_count(aliens: Seq<Alien>, lasers: Seq<Laser>, s: Spaceship) -> nat {
    pair_count(aliens, lasers) + laser_hit_count(spaceship_rect(s), lasers) + laser_hit_count(
        wall_rect(WallLocation::Left),
        lasers,
    ) + laser_hit_count(wall_rect(WallLocation::Right), lasers) + laser_hit_count(
        wall_rect(WallLocation::Bottom),
        lasers,
    ) + laser_hit_count(wall_rect(WallLocation::Top), lasers)
}

/// Count the lasers overlapping `r`, one inclusive overlap test per
/// laser.
#[verifier::loop_isolation(false)]
fn count_laser_hits(r: &Rect, lasers: &Vec<Laser>) -> (count: u64)
    requires
        lasers@.len() <= 1_000_000_000,
    ensures
        count == laser_hit_count(*r, lasers@),
        count <= lasers@.len(),
{
    let mut count: u64 = 0;
    let mut j: usize = 0;
    let m = lasers.len();
    while j < m
        invariant
            j <= m,
            count == laser_hit_count(*r, lasers@.take(j as int)),
            count <= j,
        decreases m - j,
    {
        let l = lasers[j];
        let l_rect = Rect { center: l.pos, size: Vec2 { x: LASER_SIZE_X, y: LASER_SIZE_Y } };
        proof {
            assert(lasers@.take(j as int + 1).drop_last() =~= lasers@.take(j as int));
            assert(lasers@.take(j as int + 1).last() == lasers@[j as int]);
            assert(l_rect == laser_rect(lasers@[j as int]));
        }
        if collide(&l_rect, r) {
            count = count + 1;
        }
        j = j + 1;
    }
    proof {
        assert(lasers@.take(m as int) =~= lasers@);
    }
    count
}

/// Does the laser's rectangle overlap any alien's?
#[verifier::loop_isolation(false)]
fn laser_strikes_some_alien(l: &Laser, aliens: &Vec<Alien>) -> (hit: bool)
    ensures
        hit == laser_destroyed(*l, aliens@),
{
    let l_rect = Rect { center: l.pos, size: Vec2 { x: LASER_SIZE_X, y: LASER_SIZE_Y } };
    let mut count: u64 = 0;
    let mut j: usize = 0;
    let n = aliens.len();
    while j < n
        invariant
            j <= n,
            count == alien_overlap_count(laser_rect(*l), aliens@.take(j as int)),
            count <= j,
        decreases n - j,
    {
        let a = aliens[j];
        let a_rect = Rect { center: a.pos, size: Vec2 { x: ALIEN_SIZE_X, y: ALIEN_SIZE_Y } };
        proof {
            assert(aliens@.take(j as int + 1).drop_last() =~= aliens@.take(j as int));
            assert(aliens@.take(j as int + 1).last() == aliens@[j as int]);
            assert(a_rect == alien_rect(aliens@[j as int]));
        }
        if collide(&l_rect, &a_rect) {
            count = count + 1;
        }
        j = j + 1;
    }
    proof {
        assert(aliens@.take(n as int) =~= aliens@);
    }
    count > 0
}

impl World {
    /// Resolve every collision of this tick in one pass over the
    /// tick-start state, then apply the outcomes at once, which makes the
    /// deferred, idempotent destruction explicit:
    ///
    /// - each overlapping (alien, laser) pair pays the +3 bonus and marks
    ///   both for despawn;
    /// - each alien overlapping the spaceship costs one life and is
    ///   marked;
    /// - each alien overlapping the bottom wall costs one point and is
    ///   marked, independently of the other two checks;
    /// - one collision signal per overlapping (collidable, laser) pair is
    ///   returned for the display layer.
    ///
    /// The preconditions only rule out machine-limit faults: score
    /// overflow and life underflow, which are fatal rather than gameplay.
    #[verifier::loop_isolation(false)]
    pub fn check_for_collisions(&mut self) -> (events: u64)
        requires
            old(self).aliens@.len() <= 1_000_000_000,
            old(self).lasers@.len() <= 1_000_000_000,
            old(self).score + 3 * pair_count(old(self).aliens@, old(self).lasers@) <= i16::MAX,
            old(self).score - bottom_wall_hit_count(old(self).aliens@) >= i16::MIN,
            spaceship_hit_count(old(self).aliens@, old(self).spaceship) <= old(self).lives,
        ensures
            final(self).score == old(self).score + 3 * pair_count(
                old(self).aliens@,
                old(self).lasers@,
            ) - bottom_wall_hit_count(old(self).aliens@),
            final(self).lives == old(self).lives - spaceship_hit_count(
                old(self).aliens@,
                old(self).spaceship,
            ),
            final(self).aliens@ == surviving_aliens(
                old(self).aliens@,
                old(self).lasers@,
                old(self).spaceship,
            ),
            final(self).lasers@ == surviving_lasers(old(self).lasers@, old(self).aliens@),
            events == collision_event_count(
                old(self).aliens@,
                old(self).lasers@,
                old(self).spaceship,
            ),
            final(self).state == old(self).state,
            final(self).spawn_timer == old(self).spawn_timer,
            final(self).spaceship == old(self).spaceship,
            final(self).instructions_shown == old(self).instructions_shown,
    {
        let ghost w0 = *old(self);
        let ship_rect = Rect {
            center: Vec2 { x: self.spaceship.x, y: SPACESHIP_Y },
            size: Vec2 { x: SPACESHIP_SIZE_X, y: SPACESHIP_SIZE_Y },
        };
        let bottom_position = WallLocation::Bottom.position();
        let bottom_size = WallLocation::Bottom.size();
        let bottom_rect = Rect { center: bottom_position, size: bottom_size };
        proof {
            assert(ship_rect == spaceship_rect(w0.spaceship));
            assert(bottom_rect == wall_rect(WallLocation::Bottom));
        }

        let mut pairs: u64 = 0;
        let mut ship_hits: u64 = 0;
        let mut bottoms: u64 = 0;
        let mut new_aliens: Vec<Alien> = Vec::new();
        let n = self.aliens.len();
        let mut i: usize = 0;
        while i < n
            invariant
                i <= n,
                pairs == pair_count(w0.aliens@.take(i as int), w0.lasers@),
                pairs <= (i as int) * 1_000_000_000,
                ship_hits == spaceship_hit_count(w0.aliens@.take(i as int), w0.spaceship),
                ship_hits <= i,
                bottoms == bottom_wall_hit_count(w0.aliens@.take(i as int)),
                bottoms <= i,
                new_aliens@ == surviving_aliens(
                    w0.aliens@.take(i as int),
                    w0.lasers@,
                    w0.spaceship,
                ),
            decreases n - i,
        {
            let a = self.aliens[i];
            let a_rect = Rect { center: a.pos, size: Vec2 { x: ALIEN_SIZE_X, y: ALIEN_SIZE_Y } };
            proof {
                assert(w0.aliens@.take(i as int + 1).drop_last() =~= w0.aliens@.take(i as int));
                assert(w0.aliens@.take(i as int + 1).last() == w0.aliens@[i as int]);
                assert(a_rect == alien_rect(a));
            }
            let hits = count_laser_hits(&a_rect, &self.lasers);
            pairs = pairs + hits;
            let ship_hit = collide(&ship_rect, &a_rect);
            if ship_hit {
                ship_hits = ship_hits + 1;
            }
            let bottom_hit = collide(&bottom_rect, &a_rect);
            if bottom_hit {
                bottoms = bottoms + 1;
            }
            if hits == 0 && !ship_hit && !bottom_hit {
                new_aliens.push(a);
            }
            i = i + 1;
        }
        proof {
            assert(w0.aliens@.take(n as int) =~= w0.aliens@);
        }

        let mut events: u64 = pairs;
        let ship_laser_hits = count_laser_hits(&ship_rect, &self.lasers);
        events = events + ship_laser_hits;
        let left_position = WallLocation::Left.position();
        let left_size = WallLocation::Left.size();
        let left_rect = Rect { center: left_position, size: left_size };
        let right_position = WallLocation::Right.position();
        let right_size = WallLocation::Right.size();
        let right_rect = Rect { center: right_position, size: right_size };
        let top_position = WallLocation::Top.position();
        let top_size = WallLocation::Top.size();
        let top_rect = Rect { center: top_position, size: top_size };
        proof {
            assert(left_rect == wall_rect(WallLocation::Left));
            assert(right_rect == wall_rect(WallLocation::Right));
            assert(top_rect == wall_rect(WallLocation::Top));
        }
        let left_hits = count_laser_hits(&left_rect, &self.lasers);
        events = events + left_hits;
        let right_hits = count_laser_hits(&right_rect, &self.lasers);
        events = events + right_hits;
        let bottom_hits = count_laser_hits(&bottom_rect, &self.lasers);
        events = events + bottom_hits;
        let top_hits = count_laser_hits(&top_rect, &self.lasers);
        events = events + top_hits;

        let mut new_lasers: Vec<Laser> = Vec::new();
        let m = self.lasers.len();
        let mut j: usize = 0;
        while j < m
            invariant
                j <= m,
                new_lasers@ == surviving_lasers(w0.lasers@.take(j as int), w0.aliens@),
            decreases m - j,
        {
            let l = self.lasers[j];
            proof {
                assert(w0.lasers@.take(j as int + 1).drop_last() =~= w0.lasers@.take(j as int));
                assert(w0.lasers@.take(j as int + 1).last() == w0.lasers@[j as int]);
            }
            let struck = laser_strikes_some_alien(&l, &self.aliens);
            if !struck {
                new_lasers.push(l);
            }
            j = j + 1;
        }
        proof {
            assert(w0.lasers@.take(m as int) =~= w0.lasers@);
        }

        self.aliens = new_aliens;
        self.lasers = new_lasers;
        let new_score: i64 = (self.score as i64) + 3 * (pairs as i64) - (bottoms as i64);
        proof {
            assert(i16::MIN <= new_score <= i16::MAX);
        }
        self.score = new_score as i16;
        let new_lives: u64 = (self.lives as u64) - ship_hits;
        proof {
            assert(new_lives <= u16::MAX);
        }
        self.lives = new_lives as u16;
        events
    }
}

} // verus!
