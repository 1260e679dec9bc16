//! The general laws of the simulation, each proved once and for all
//! inputs: integration is exact and additive, the spaceship can never
//! leave its bounds, an edge trigger fires once per press however long the
//! key is held, and the collision pass removes exactly the struck
//! entities.

use vstd::prelude::*;

use crate::collision::{
    alien_destroyed, alien_hits_bottom_wall, laser_destroyed, surviving_aliens, surviving_lasers,
};
use crate::components::{just_pressed, Alien, Laser, Spaceship, Velocity};
use crate::constants::{LEFT_BOUND, RIGHT_BOUND};
use crate::geometry::Vec2;
use crate::world::{move_fits, moved_point, moved_spaceship};

verus! {

/// Law: one integration step advances each coordinate by exactly
/// `velocity * dt` — no rounding, no clamping — whenever the result stays
/// in the coordinate range.
pub proof fn lemma_integration_exact(p: Vec2, v: Velocity, dt: int)
    requires
        move_fits(p, v, dt),
    ensures
        moved_point(p, v, dt).x == p.x + v.0.x * dt,
        moved_point(p, v, dt).y == p.y + v.0.y * dt,
{
}

/// Law: integrating for `dt1` and then for `dt2` lands exactly where one
/// integration over `dt1 + dt2` does, for every position, velocity and
/// pair of non-negative elapsed times whose total stays in range.
pub proof fn lemma_integration_additive(p: Vec2, v: Velocity, dt1: int, dt2: int)
    requires
        0 <= dt1,
        0 <= dt2,
        move_fits(p, v, dt1 + dt2),
    ensures
        moved_point(moved_point(p, v, dt1), v, dt2) == moved_point(p, v, dt1 + dt2),
{
    assert(v.0.x * dt1 + v.0.x * dt2 == v.0.x * (dt1 + dt2)) by (nonlinear_arith);
    assert(v.0.y * dt1 + v.0.y * dt2 == v.0.y * (dt1 + dt2)) by (nonlinear_arith);
    // The midpoint lies between the start and the end, so it is in range
    // too and its truncating cast is the identity.
    assert(v.0.x * dt1 == 0 || (0 < v.0.x * dt1 <= v.0.x * (dt1 + dt2)) || (v.0.x * (dt1 + dt2)
        <= v.0.x * dt1 < 0)) by (nonlinear_arith)
        requires
            0 <= dt1 && 0 <= dt2,
    ;
    assert(v.0.y * dt1 == 0 || (0 < v.0.y * dt1 <= v.0.y * (dt1 + dt2)) || (v.0.y * (dt1 + dt2)
        <= v.0.y * dt1 < 0)) by (nonlinear_arith)
        requires
            0 <= dt1 && 0 <= dt2,
    ;
    assert(move_fits(p, v, dt1));
}

/// The spaceship after a whole run of moves: each entry of `moves` is one
/// tick's input, `(left held, right held, elapsed milliseconds)`.
pub open spec fn spaceship_after_moves(s: Spaceship, moves: Seq<(bool, bool, i64)>) -> Spaceship
    decreases moves.len(),
{
    if moves.len() == 0 {
        s
    } else {
        moved_spaceship(
            spaceship_after_moves(s, moves.drop_last()),
            moves.last().0,
            moves.last().1,
            moves.last().2 as int,
        )
    }
}

/// Law: after any sequence of at least one move the spaceship stands
/// inside `[LEFT_BOUND, RIGHT_BOUND]`, whatever keys were held and
/// whatever the elapsed times were: every step clamps, so in particular
/// no run of inputs can drive the ship into a side wall.
pub proof fn lemma_spaceship_stays_in_bounds(s: Spaceship, moves: Seq<(bool, bool, i64)>)
    requires
        moves.len() >= 1,
    ensures
        LEFT_BOUND <= spaceship_after_moves(s, moves).x <= RIGHT_BOUND,
{
    let prev = spaceship_after_moves(s, moves.drop_last());
    let last = moves.last();
    assert(spaceship_after_moves(s, moves) == moved_spaceship(prev, last.0, last.1, last.2 as int));
}

/// The edge trigger the fire key sees at tick `i` of a run: the key's
/// level at tick `i` against its level just before, which for the first
/// tick is the level before the run.
pub open spec fn press_at(before: bool, held: Seq<bool>, i: int) -> bool {
    just_pressed(
        if i == 0 {
            before
        } else {
            held[i - 1]
        },
        held[i],
    )
}

/// Law: holding the fire key down across a whole run of ticks raises the
/// edge trigger at the first tick and never again, so the run fires
/// exactly one laser in total ([`crate::world::World::fire_laser`] adds
/// one laser per raised trigger and none otherwise).
pub proof fn lemma_hold_fires_once(before: bool, held: Seq<bool>)
    requires
        !before,
        forall|i: int| 0 <= i < held.len() ==> held[i],
    ensures
        forall|i: int| 0 <= i < held.len() ==> (#[trigger] press_at(before, held, i) <==> i == 0),
{
}

/// Law: the collision pass keeps exactly the aliens that no check fired
/// for. An alien struck by a laser, touching the spaceship, or at the
/// bottom wall is removed; any other alien present survives.
pub proof fn lemma_surviving_aliens_membership(
    aliens: Seq<Alien>,
    lasers: Seq<Laser>,
    s: Spaceship,
    a: Alien,
)
    ensures
        surviving_aliens(aliens, lasers, s).contains(a) <==> (aliens.contains(a)
            && !alien_destroyed(a, lasers, s)),
    decreases aliens.len(),
{
    broadcast use vstd::seq_lib::lemma_seq_contains_after_push;

    if aliens.len() == 0 {
        assert(!aliens.contains(a));
    } else {
        let rest = aliens.drop_last();
        lemma_surviving_aliens_membership(rest, lasers, s, a);
        assert(aliens =~= rest.push(aliens.last()));
    }
}

/// Law: the collision pass keeps exactly the lasers that struck no alien;
/// a laser overlapping any alien of the tick is consumed.
pub proof fn lemma_surviving_lasers_membership(lasers: Seq<Laser>, aliens: Seq<Alien>, l: Laser)
    ensures
        surviving_lasers(lasers, aliens).contains(l) <==> (lasers.contains(l) && !laser_destroyed(
            l,
            aliens,
        )),
    decreases lasers.len(),
{
    broadcast use vstd::seq_lib::lemma_seq_contains_after_push;

    if lasers.len() == 0 {
        assert(!lasers.contains(l));
    } else {
        let rest = lasers.drop_last();
        lemma_surviving_lasers_membership(rest, aliens, l);
        assert(lasers =~= rest.push(lasers.last()));
    }
}

/// Law: an alien at the bottom wall is destroyed whatever else happened
/// to it that tick — the three checks are independent, so a laser strike
/// in the same tick changes neither its removal nor the point it costs.
pub proof fn lemma_bottom_wall_destroys(a: Alien, lasers: Seq<Laser>, s: Spaceship)
    requires
        alien_hits_bottom_wall(a),
    ensures
        alien_destroyed(a, lasers, s),
{
}

} // verus!
