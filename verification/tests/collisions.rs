use space_invaders::components::{Alien, GameState, Laser, Velocity};
use space_invaders::geometry::{collide, Rect, Vec2};
use space_invaders::world::World;

fn world_in_game() -> World {
    let mut w = World::setup();
    w.start_game(true);
    w
}

fn alien_at(x: i64, y: i64) -> Alien {
    Alien { pos: Vec2 { x, y }, vel: Velocity(Vec2 { x: 0, y: -300 }) }
}

fn laser_at(x: i64, y: i64) -> Laser {
    Laser { pos: Vec2 { x, y }, vel: Velocity(Vec2 { x: 0, y: 700 }) }
}

#[test]
fn overlap_is_inclusive_at_the_edge() {
    let a = Rect { center: Vec2 { x: 0, y: 0 }, size: Vec2 { x: 10, y: 10 } };
    let touching = Rect { center: Vec2 { x: 10, y: 0 }, size: Vec2 { x: 10, y: 10 } };
    let apart = Rect { center: Vec2 { x: 11, y: 0 }, size: Vec2 { x: 10, y: 10 } };
    assert!(collide(&a, &touching));
    assert!(!collide(&a, &apart));
    assert!(collide(&a, &a));
}

#[test]
fn laser_strike_pays_three_and_removes_both() {
    let mut w = world_in_game();
    w.aliens.push(alien_at(0, 100_000));
    w.lasers.push(laser_at(0, 100_000));
    let events = w.check_for_collisions();
    assert_eq!(w.score, 3);
    assert_eq!(w.lives, 3);
    assert_eq!(w.aliens.len(), 0);
    assert_eq!(w.lasers.len(), 0);
    assert_eq!(events, 1);
}

#[test]
fn each_overlapping_pair_pays() {
    // Two lasers on one alien: the bonus is paid per pair, both lasers
    // are consumed, the alien is removed once.
    let mut w = world_in_game();
    w.aliens.push(alien_at(0, 100_000));
    w.lasers.push(laser_at(-10_000, 100_000));
    w.lasers.push(laser_at(10_000, 100_000));
    let events = w.check_for_collisions();
    assert_eq!(w.score, 6);
    assert_eq!(w.aliens.len(), 0);
    assert_eq!(w.lasers.len(), 0);
    assert_eq!(events, 2);
}

#[test]
fn missed_shot_touches_nothing() {
    let mut w = world_in_game();
    w.aliens.push(alien_at(200_000, 100_000));
    w.lasers.push(laser_at(0, 100_000));
    let events = w.check_for_collisions();
    assert_eq!(w.score, 0);
    assert_eq!(w.aliens.len(), 1);
    assert_eq!(w.lasers.len(), 1);
    assert_eq!(events, 0);
}

#[test]
fn alien_at_bottom_wall_costs_a_point() {
    let mut w = world_in_game();
    w.aliens.push(alien_at(0, -290_000));
    let events = w.check_for_collisions();
    assert_eq!(w.score, -1);
    assert_eq!(w.aliens.len(), 0);
    assert_eq!(w.lives, 3);
    assert_eq!(events, 0);
}

#[test]
fn bottom_wall_check_is_independent_of_laser_strikes() {
    // An alien both struck by a laser and at the bottom wall pays the
    // bonus and the penalty in the same tick and is removed once.
    let mut w = world_in_game();
    w.aliens.push(alien_at(0, -290_000));
    w.lasers.push(laser_at(0, -290_000));
    let events = w.check_for_collisions();
    assert_eq!(w.score, 3 - 1);
    assert_eq!(w.aliens.len(), 0);
    assert_eq!(w.lasers.len(), 0);
    // The wall the alien sits on also overlaps the laser: two signals.
    assert_eq!(events, 2);
}

#[test]
fn alien_reaching_spaceship_costs_a_life() {
    let mut w = world_in_game();
    w.aliens.push(alien_at(0, -240_000));
    w.check_for_collisions();
    assert_eq!(w.lives, 2);
    assert_eq!(w.score, 0);
    assert_eq!(w.aliens.len(), 0);
}

#[test]
fn untouched_entities_survive_in_order() {
    let mut w = world_in_game();
    w.aliens.push(alien_at(-300_000, 100_000));
    w.aliens.push(alien_at(0, 100_000));
    w.aliens.push(alien_at(300_000, 100_000));
    w.lasers.push(laser_at(0, 100_000));
    w.check_for_collisions();
    assert_eq!(w.aliens.len(), 2);
    assert_eq!(w.aliens[0].pos.x, -300_000);
    assert_eq!(w.aliens[1].pos.x, 300_000);
    assert_eq!(w.lasers.len(), 0);
    assert_eq!(w.score, 3);
}

#[test]
fn laser_passes_through_walls_but_signals() {
    // A laser over the left wall sends a collision signal and flies on.
    let mut w = world_in_game();
    w.lasers.push(laser_at(-450_000, 0));
    let events = w.check_for_collisions();
    assert_eq!(w.lasers.len(), 1);
    assert_eq!(events, 1);
}

#[test]
fn losing_the_last_life_ends_the_game() {
    // Lives at one and an alien overlapping the spaceship: the life is
    // lost, the alien destroyed, and the state check ends the game.
    let mut w = world_in_game();
    w.lives = 1;
    w.aliens.push(alien_at(0, -240_000));
    w.check_for_collisions();
    assert_eq!(w.lives, 0);
    assert_eq!(w.aliens.len(), 0);
    assert_eq!(w.state, GameState::InGame);
    w.update_lives_remaining();
    assert_eq!(w.state, GameState::GameOver);
}

#[test]
fn game_over_through_a_whole_tick() {
    let mut w = world_in_game();
    w.lives = 1;
    w.aliens.push(alien_at(0, -240_000));
    w.tick(0, false, false, false, false);
    assert_eq!(w.lives, 0);
    assert_eq!(w.state, GameState::GameOver);
    // Game over is terminal: further ticks change nothing.
    w.tick(1_000, true, false, true, true);
    assert_eq!(w.state, GameState::GameOver);
    assert_eq!(w.aliens.len(), 0);
    assert_eq!(w.score, 0);
}
