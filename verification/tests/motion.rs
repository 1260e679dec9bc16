use space_invaders::components::{GameState, Laser, Velocity};
use space_invaders::geometry::Vec2;
use space_invaders::world::World;

fn world_in_game() -> World {
    let mut w = World::setup();
    w.start_game(true);
    assert_eq!(w.state, GameState::InGame);
    w
}

#[test]
fn integration_advances_by_velocity_times_dt() {
    let mut w = world_in_game();
    w.lasers.push(Laser {
        pos: Vec2 { x: 1_000, y: 2_000 },
        vel: Velocity(Vec2 { x: 50, y: -20 }),
    });
    w.apply_velocity(10);
    assert_eq!(w.lasers[0].pos.x, 1_500);
    assert_eq!(w.lasers[0].pos.y, 1_800);
}

#[test]
fn integration_is_additive() {
    let mut once = world_in_game();
    once.lasers.push(Laser {
        pos: Vec2 { x: -4_000, y: 9_000 },
        vel: Velocity(Vec2 { x: 33, y: 700 }),
    });
    let mut twice = world_in_game();
    twice.lasers.push(Laser {
        pos: Vec2 { x: -4_000, y: 9_000 },
        vel: Velocity(Vec2 { x: 33, y: 700 }),
    });
    once.apply_velocity(777);
    twice.apply_velocity(300);
    twice.apply_velocity(477);
    assert_eq!(once.lasers[0].pos, twice.lasers[0].pos);
    assert_eq!(once.lasers[0].pos.x, -4_000 + 33 * 777);
}

#[test]
fn zero_dt_moves_nothing() {
    let mut w = world_in_game();
    w.lasers.push(Laser {
        pos: Vec2 { x: 5, y: 6 },
        vel: Velocity(Vec2 { x: 700, y: 700 }),
    });
    w.apply_velocity(0);
    assert_eq!(w.lasers[0].pos, Vec2 { x: 5, y: 6 });
}

#[test]
fn moving_left_for_one_second_clamps_to_left_bound() {
    // From the center at speed 700 units/s, one second would reach -700
    // units; the ship stops at the left bound instead.
    let mut w = world_in_game();
    assert_eq!(w.spaceship.x, 0);
    w.move_spaceship(true, false, 1_000);
    assert_eq!(w.spaceship.x, -375_000);
}

#[test]
fn moving_right_for_one_second_clamps_to_right_bound() {
    let mut w = world_in_game();
    w.move_spaceship(false, true, 1_000);
    assert_eq!(w.spaceship.x, 375_000);
}

#[test]
fn short_moves_are_unclamped() {
    let mut w = world_in_game();
    // 700 units/s for 100 ms is 70 units.
    w.move_spaceship(false, true, 100);
    assert_eq!(w.spaceship.x, 70_000);
    w.move_spaceship(true, false, 40);
    assert_eq!(w.spaceship.x, 70_000 - 28_000);
}

#[test]
fn opposite_keys_cancel() {
    let mut w = world_in_game();
    w.move_spaceship(true, true, 1_000);
    assert_eq!(w.spaceship.x, 0);
    w.move_spaceship(false, false, 1_000);
    assert_eq!(w.spaceship.x, 0);
}

#[test]
fn any_input_sequence_keeps_spaceship_in_bounds() {
    let mut w = world_in_game();
    let moves = [
        (true, false, 2_000),
        (true, true, 50),
        (false, true, 5_000),
        (false, false, 1),
        (true, false, 10),
        (false, true, 100_000),
        (true, false, 3),
    ];
    for (left, right, dt) in moves {
        w.move_spaceship(left, right, dt);
        assert!(w.spaceship.x >= -375_000);
        assert!(w.spaceship.x <= 375_000);
    }
}

#[test]
fn spawned_alien_height_and_fall() {
    // The spawn height is the top wall offset by half the alien's width
    // (the game's deliberate quirk): 300 - 35 = 265 units. One second of
    // falling at 300 units/s brings it down by 300 units.
    let mut w = world_in_game();
    w.spawn_alien_at(12_345);
    assert_eq!(w.aliens[0].pos.x, 12_345);
    assert_eq!(w.aliens[0].pos.y, 265_000);
    assert_eq!(w.aliens[0].vel.0.x, 0);
    assert_eq!(w.aliens[0].vel.0.y, -300);
    w.apply_velocity(1_000);
    assert_eq!(w.aliens[0].pos.y, -35_000);
}
