use space_invaders::components::{AlienSpawnTimer, GameState, KeyState};
use space_invaders::world::World;

#[test]
fn a_fresh_game_waits_at_the_menu() {
    let w = World::setup();
    assert_eq!(w.state, GameState::MainMenu);
    assert_eq!(w.score, 0);
    assert_eq!(w.lives, 3);
    assert!(w.instructions_shown);
    assert_eq!(w.spaceship.x, 0);
    assert_eq!(w.lasers.len(), 0);
    assert_eq!(w.aliens.len(), 0);
}

#[test]
fn the_menu_ignores_everything_but_start() {
    let mut w = World::setup();
    let events = w.tick(1_000, true, false, true, false);
    assert_eq!(w.state, GameState::MainMenu);
    assert_eq!(w.spaceship.x, 0);
    assert_eq!(w.lasers.len(), 0);
    assert_eq!(events, 0);
}

#[test]
fn start_begins_play_and_takes_down_the_instructions() {
    let mut w = World::setup();
    w.tick(16, false, false, false, true);
    assert_eq!(w.state, GameState::InGame);
    assert!(!w.instructions_shown);
}

#[test]
fn edge_trigger_rises_once_per_press() {
    let mut key = KeyState::new();
    assert!(key.update(true));
    assert!(!key.update(true));
    assert!(!key.update(true));
    assert!(!key.update(false));
    assert!(key.update(true));
}

#[test]
fn holding_fire_yields_exactly_one_laser() {
    // The fire key goes down before the first tick and stays down: the
    // edge trigger rises once, so the whole run fires one laser.
    let mut w = World::setup();
    w.start_game(true);
    let mut fire_key = KeyState::new();
    for _ in 0..5 {
        let pressed = fire_key.update(true);
        w.tick(10, false, false, pressed, false);
    }
    assert_eq!(w.lasers.len(), 1);
}

#[test]
fn each_press_fires_one_laser() {
    let mut w = World::setup();
    w.start_game(true);
    let mut fire_key = KeyState::new();
    let levels = [true, false, true, true, false, true];
    for level in levels {
        let pressed = fire_key.update(level);
        w.tick(10, false, false, pressed, false);
    }
    assert_eq!(w.lasers.len(), 3);
}

#[test]
fn a_fired_laser_starts_above_the_spaceship() {
    let mut w = World::setup();
    w.start_game(true);
    w.move_spaceship(false, true, 100);
    w.fire_laser(true);
    assert_eq!(w.lasers.len(), 1);
    assert_eq!(w.lasers[0].pos.x, w.spaceship.x);
    // Half the ship's height above its fixed position of -240 units.
    assert_eq!(w.lasers[0].pos.y, -230_000);
    assert_eq!(w.lasers[0].vel.0.x, 0);
    assert_eq!(w.lasers[0].vel.0.y, 700);
}

#[test]
fn countdown_accumulates_across_ticks() {
    let mut t = AlienSpawnTimer::default();
    t.tick(400);
    assert!(!t.finished);
    assert_eq!(t.elapsed, 400);
    t.tick(600);
    assert!(t.finished);
    assert_eq!(t.elapsed, 0);
    t.tick(999);
    assert!(!t.finished);
}

#[test]
fn countdown_keeps_the_remainder_after_a_late_tick() {
    let mut t = AlienSpawnTimer::default();
    t.tick(2_500);
    assert!(t.finished);
    assert_eq!(t.elapsed, 500);
}

#[test]
fn the_spawner_places_aliens_inside_the_top_edge() {
    // A one-second tick fires the countdown; the new alien's horizontal
    // position is random but always fits between the side walls.
    for _ in 0..20 {
        let mut w = World::setup();
        w.start_game(true);
        let before = w.aliens.len();
        w.tick(1_000, false, false, false, false);
        assert_eq!(w.aliens.len(), before + 1);
        let a = &w.aliens[before];
        assert!(a.pos.x >= -415_000);
        assert!(a.pos.x < 415_000);
        assert_eq!(a.pos.y, 265_000);
    }
}

#[test]
fn no_spawn_before_the_period() {
    let mut w = World::setup();
    w.start_game(true);
    w.tick(999, false, false, false, false);
    assert_eq!(w.aliens.len(), 0);
    w.tick(1, false, false, false, false);
    assert_eq!(w.aliens.len(), 1);
}

#[test]
fn the_scoreboard_reports_the_score() {
    let mut w = World::setup();
    assert_eq!(w.update_scoreboard(), 0);
    w.score = -7;
    assert_eq!(w.update_scoreboard(), -7);
}

#[test]
fn the_state_check_reports_lives_and_only_acts_at_zero() {
    let mut w = World::setup();
    w.start_game(true);
    assert_eq!(w.update_lives_remaining(), 3);
    assert_eq!(w.state, GameState::InGame);
    w.lives = 0;
    assert_eq!(w.update_lives_remaining(), 0);
    assert_eq!(w.state, GameState::GameOver);
}
