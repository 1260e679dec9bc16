//! The entities and small state machines the simulation is made of.

use vstd::prelude::*;

use crate::constants::{
    ALIEN_SPAWN_TIME, BOTTOM_WALL, LEFT_WALL, RIGHT_WALL, TOP_WALL, WALL_THICKNESS,
};
use crate::geometry::{Rect, Vec2, Vec3};

verus! {

/// The player's ship. It sits at the fixed height
/// [`crate::constants::SPACESHIP_Y`] and is driven directly by input, so
/// only its horizontal position is state.
#[derive(Clone, Copy, Debug, PartialEq, Eq, Structural)]
pub struct Spaceship {
    pub x: i64,
}

/// A velocity in world units per second, attached to lasers and aliens.
#[derive(Clone, Copy, Debug, PartialEq, Eq, Structural)]
pub struct Velocity(pub Vec2);

/// A projectile fired by the spaceship.
#[derive(Clone, Copy, Debug, PartialEq, Eq, Structural)]
pub struct Laser {
    pub pos: Vec2,
    pub vel: Velocity,
}

/// An enemy descending from the top of the arena.
#[derive(Clone, Copy, Debug, PartialEq, Eq, Structural)]
pub struct Alien {
    pub pos: Vec2,
    pub vel: Velocity,
}

/// Which side of the arena a wall is located on.
#[derive(Clone, Copy, Debug, PartialEq, Eq, Structural)]
pub enum WallLocation {
    Left,
    Right,
    Bottom,
    Top,
}

/// Where the wall on the given side is centered.
pub open spec fn wall_position(loc: WallLocation) -> Vec2 {
    match loc {
        WallLocation::Left => Vec2 { x: LEFT_WALL, y: 0 },
        WallLocation::Right => Vec2 { x: RIGHT_WALL, y: 0 },
        WallLocation::Bottom => Vec2 { x: 0, y: BOTTOM_WALL },
        WallLocation::Top => Vec2 { x: 0, y: TOP_WALL },
    }
}

/// Full extents of the wall on the given side: each wall spans its whole
/// arena edge and overhangs by one thickness so the corners are closed.
pub open spec fn wall_size(loc: WallLocation) -> Vec2 {
    match loc {
        WallLocation::Left | WallLocation::Right => Vec2 {
            x: WALL_THICKNESS,
            y: ((TOP_WALL - BOTTOM_WALL) + WALL_THICKNESS) as i64,
        },
        WallLocation::Bottom | WallLocation::Top => Vec2 {
            x: ((RIGHT_WALL - LEFT_WALL) + WALL_THICKNESS) as i64,
            y: WALL_THICKNESS,
        },
    }
}

/// The wall's collision rectangle.
pub open spec fn wall_rect(loc: WallLocation) -> Rect {
    Rect { center: wall_position(loc), size: wall_size(loc) }
}

impl WallLocation {
    pub fn position(&self) -> (r: Vec2)
        ensures
            r == wall_position(*self),
    {
        match self {
            WallLocation::Left => Vec2 { x: LEFT_WALL, y: 0 },
            WallLocation::Right => Vec2 { x: RIGHT_WALL, y: 0 },
            WallLocation::Bottom => Vec2 { x: 0, y: BOTTOM_WALL },
            WallLocation::Top => Vec2 { x: 0, y: TOP_WALL },
        }
    }

    /// The wall's position with the z coordinate sprites are ordered by.
    pub fn position_3d(&self) -> (r: Vec3)
        ensures
            r.x == wall_position(*self).x,
            r.y == wall_position(*self).y,
            r.z == 0,
    {
        let p = self.position();
        Vec3 { x: p.x, y: p.y, z: 0 }
    }

    pub fn size(&self) -> (r: Vec2)
        ensures
            r == wall_size(*self),
    {
        let arena_height = TOP_WALL - BOTTOM_WALL;
        let arena_width = RIGHT_WALL - LEFT_WALL;
        // Make sure we haven't messed up our constants
        assert(arena_height > 0);
        assert(arena_width > 0);
        match self {
            WallLocation::Left | WallLocation::Right => Vec2 {
                x: WALL_THICKNESS,
                y: arena_height + WALL_THICKNESS,
            },
            WallLocation::Bottom | WallLocation::Top => Vec2 {
                x: arena_width + WALL_THICKNESS,
                y: WALL_THICKNESS,
            },
        }
    }
}

/// Everything that defines a wall in our game: the static collision
/// rectangle the renderer also draws.
#[derive(Clone, Copy, Debug, PartialEq, Eq, Structural)]
pub struct WallBundle {
    pub rect: Rect,
}

impl WallBundle {
    pub fn new(location: WallLocation) -> (r: WallBundle)
        ensures
            r.rect == wall_rect(location),
    {
        let position = location.position();
        let size = location.size();
        WallBundle { rect: Rect { center: position, size } }
    }
}

/// The game flow: a fresh game starts at the menu, play begins on the
/// start key, and running out of lives ends it for good.
#[derive(Clone, Copy, Debug, PartialEq, Eq, Structural)]
pub enum GameState {
    MainMenu,
    InGame,
    GameOver,
}

/// The repeating countdown that gates alien creation.
///
/// `elapsed` is how far (in milliseconds) the current period has run;
/// `finished` says whether the countdown crossed its period during the most
/// recent [`AlienSpawnTimer::tick`].
#[derive(Clone, Copy, Debug, PartialEq, Eq, Structural)]
pub struct AlienSpawnTimer {
    pub elapsed: i64,
    pub finished: bool,
}

/// The countdown after `dt` more milliseconds have passed: finished
/// exactly when the period was crossed (however many times), keeping the
/// remainder so no elapsed time is ever lost.
pub open spec fn ticked_timer(t: AlienSpawnTimer, dt: int) -> AlienSpawnTimer {
    AlienSpawnTimer {
        elapsed: ((t.elapsed + dt) % (ALIEN_SPAWN_TIME as int)) as i64,
        finished: t.elapsed + dt >= ALIEN_SPAWN_TIME,
    }
}

impl AlienSpawnTimer {
    /// The elapsed part of the period never reaches the period itself.
    pub open spec fn wf(self) -> bool {
        0 <= self.elapsed < ALIEN_SPAWN_TIME
    }

    /// Advance the countdown by `dt` milliseconds. Crossing the period any
    /// number of times marks the timer finished for this tick and keeps
    /// only the remainder, so a late tick cannot stall the countdown.
    pub fn tick(&mut self, dt: i64)
        requires
            old(self).wf(),
            0 <= dt,
            old(self).elapsed + dt <= i64::MAX,
        ensures
            final(self).wf(),
            *final(self) == ticked_timer(*old(self), dt as int),
    {
        let total = self.elapsed + dt;
        if total >= ALIEN_SPAWN_TIME {
            self.finished = true;
            self.elapsed = total % ALIEN_SPAWN_TIME;
        } else {
            self.finished = false;
            self.elapsed = total;
        }
    }
}

impl Default for AlienSpawnTimer {
    /// A countdown at the start of its period that has not fired yet.
    fn default() -> (t: Self)
        ensures
            t.elapsed == 0,
            !t.finished,
    {
        AlienSpawnTimer { elapsed: 0, finished: false }
    }
}

/// True exactly when a key that was up on the previous tick is down now:
/// the edge trigger that firing and starting are driven by.
pub open spec fn just_pressed(prev_held: bool, held_now: bool) -> bool {
    held_now && !prev_held
}

/// Remembers whether a key was held on the previous tick, so that a press
/// can be told apart from a key merely still held.
#[derive(Clone, Copy, Debug, PartialEq, Eq, Structural)]
pub struct KeyState {
    pub held: bool,
}

impl KeyState {
    /// A key that is not held.
    pub fn new() -> (k: KeyState)
        ensures
            !k.held,
    {
        KeyState { held: false }
    }

    /// Record the key's level for this tick and report whether this tick is
    /// the rising edge.
    pub fn update(&mut self, held_now: bool) -> (pressed: bool)
        ensures
            final(self).held == held_now,
            pressed == just_pressed(old(self).held, held_now),
    {
        let pressed = held_now && !self.held;
        self.held = held_now;
        pressed
    }
}

} // verus!
