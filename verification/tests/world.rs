use carritos::entities::{Car, CollisionEvent, Enemy, MoveY, Player, Wall};
use carritos::gate::PeriodicGate;
use carritos::state::{GameData, GameState, Scoreboard, SCORE_INTERVAL};
use carritos::systems::play_explosion_sound;
use carritos::tile_screen::PLAYER_Y;
use carritos::world::{menu, FrameInput, World};

fn quiet_frame() -> FrameInput {
    FrameInput {
        delta: 0,
        left_pressed: false,
        right_pressed: false,
        boost_pressed: false,
        boost_released: false,
        start_pressed: false,
    }
}

fn playing_world() -> World {
    World {
        state: GameState::Playing,
        player: Some(Player { car: Car { column: 1 } }),
        enemies: Vec::new(),
        walls: Vec::new(),
        scoreboard: Scoreboard { score: 0, highscore: 0 },
        game_data: GameData::new(),
        score_gate: PeriodicGate::new(SCORE_INTERVAL),
        pending_collision: None,
        motor_running: true,
    }
}

fn enemy_at(column: usize, y: i32) -> Enemy {
    Enemy { car: Car { column }, move_y: MoveY { y }, alive: true }
}

#[test]
fn fresh_world_shows_the_menu_over_wall_rows() {
    let world = World::new();
    assert_eq!(world.state, GameState::Menu);
    assert!(world.player.is_none());
    assert!(world.enemies.is_empty());
    assert_eq!(world.walls.len(), 6);
    let ys: Vec<i32> = world.walls.iter().map(|w| w.move_y.y).collect();
    assert_eq!(ys, vec![2, 12, 22, 32, 42, 52]);
    assert_eq!(world.scoreboard.score, 0);
    assert_eq!(world.scoreboard.highscore, 0);
    assert!(!world.motor_running);
}

#[test]
fn start_press_hands_the_menu_over_to_a_run() {
    let mut world = World::new();
    menu(&mut world, true);
    assert_eq!(world.state, GameState::Playing);
    assert_eq!(world.player, Some(Player { car: Car { column: 1 } }));
    assert_eq!(world.enemies.len(), 4);
    let ys: Vec<i32> = world.enemies.iter().map(|e| e.move_y.y).collect();
    assert_eq!(ys, vec![58, 76, 94, 112]);
    for enemy in &world.enemies {
        assert!(enemy.car.column <= 2);
        assert!(enemy.alive);
    }
    assert_eq!(world.walls.len(), 12);
    assert!(world.motor_running);
}

#[test]
fn menu_without_start_changes_nothing() {
    let mut world = World::new();
    let before_walls = world.walls.clone();
    menu(&mut world, false);
    assert_eq!(world.state, GameState::Menu);
    assert_eq!(world.walls, before_walls);
    assert!(world.player.is_none());
}

#[test]
fn menu_frame_accrues_no_score_whatever_the_elapsed_time() {
    let mut world = World::new();
    world.scoreboard = Scoreboard { score: 0, highscore: 500 };
    let mut input = quiet_frame();
    input.delta = 5000;
    input.left_pressed = true;
    input.boost_pressed = true;
    world.frame(input);
    assert_eq!(world.state, GameState::Menu);
    assert_eq!(world.scoreboard.score, 0);
    assert_eq!(world.scoreboard.highscore, 500);
    assert!(world.enemies.is_empty());
    assert_eq!(world.walls.len(), 6);
    assert!(!world.game_data.is_boosting);
}

#[test]
fn collision_in_the_player_lane_ends_the_run() {
    let mut world = playing_world();
    world.scoreboard = Scoreboard { score: 400, highscore: 300 };
    world.enemies.push(enemy_at(1, PLAYER_Y));
    world.frame(quiet_frame());
    assert_eq!(world.state, GameState::Menu);
    assert!(world.player.is_none());
    assert!(world.enemies.is_empty());
    assert_eq!(world.walls.len(), 6);
    assert_eq!(world.scoreboard.score, 0);
    assert_eq!(world.scoreboard.highscore, 400);
    assert_eq!(world.game_data.speed_factor, 100);
    assert_eq!(world.pending_collision, Some(CollisionEvent));
    assert!(!world.motor_running);
}

#[test]
fn collision_keeps_a_larger_old_highscore() {
    let mut world = playing_world();
    world.scoreboard = Scoreboard { score: 400, highscore: 900 };
    world.enemies.push(enemy_at(1, PLAYER_Y));
    world.frame(quiet_frame());
    assert_eq!(world.scoreboard.highscore, 900);
    assert_eq!(world.scoreboard.score, 0);
}

#[test]
fn obstacle_in_another_lane_does_not_collide() {
    let mut world = playing_world();
    world.enemies.push(enemy_at(0, PLAYER_Y));
    world.frame(quiet_frame());
    assert_eq!(world.state, GameState::Playing);
    assert_eq!(world.enemies.len(), 1);
    assert!(world.player.is_some());
}

#[test]
fn obstacle_on_the_window_edge_does_not_collide() {
    let mut world = playing_world();
    // The window is strict on both sides: y at its top or bottom
    // bound does not touch the player.
    world.enemies.push(enemy_at(1, PLAYER_Y + 8));
    world.enemies.push(enemy_at(1, PLAYER_Y - 9));
    world.frame(quiet_frame());
    assert_eq!(world.state, GameState::Playing);
}

#[test]
fn collision_sees_the_same_frames_advance() {
    // Just above the window before the frame; the frame's own
    // vertical advance drops it into the window, and collision
    // resolution must see that post-advance position.
    let mut world = playing_world();
    world.enemies.push(enemy_at(1, PLAYER_Y + 9));
    let mut input = quiet_frame();
    input.delta = 80;
    world.frame(input);
    assert_eq!(world.state, GameState::Menu);
    assert!(world.pending_collision.is_some());
}

#[test]
fn collision_sees_the_same_frames_lane_shift() {
    let mut world = playing_world();
    world.player = Some(Player { car: Car { column: 0 } });
    world.enemies.push(enemy_at(1, PLAYER_Y));
    let mut input = quiet_frame();
    input.right_pressed = true;
    world.frame(input);
    assert_eq!(world.state, GameState::Menu);
}

#[test]
fn explosion_plays_once_after_a_collision_frame() {
    let mut world = playing_world();
    world.enemies.push(enemy_at(1, PLAYER_Y));
    world.frame(quiet_frame());
    assert!(play_explosion_sound(&mut world.pending_collision));
    assert!(!play_explosion_sound(&mut world.pending_collision));
}

#[test]
fn score_accrues_on_the_unscaled_second_while_playing() {
    let mut world = playing_world();
    let mut input = quiet_frame();
    input.delta = 1000;
    world.frame(input);
    assert_eq!(world.scoreboard.score, 100);
    assert_eq!(world.game_data.speed_factor, 100);
}

#[test]
fn scoring_cadence_ignores_the_boost_scale() {
    let mut world = playing_world();
    world.game_data.is_boosting = true;
    let mut input = quiet_frame();
    input.delta = 500;
    world.frame(input);
    // Half a second, even at double simulation speed, accrues
    // nothing: the scoring gate runs on unscaled wall time.
    assert_eq!(world.scoreboard.score, 0);
    world.frame(input);
    assert_eq!(world.scoreboard.score, 100);
}

#[test]
fn frame_recycles_what_scrolls_past_the_bottom() {
    let mut world = playing_world();
    // One tile above the obstacle respawn limit; the frame's
    // advance pushes it past the limit and the recycler teleports
    // it back to the top band.
    world.enemies.push(enemy_at(0, -11));
    world.walls.push(Wall { move_y: MoveY { y: -7 }, alive: true });
    let mut input = quiet_frame();
    input.delta = 80;
    world.frame(input);
    assert_eq!(world.enemies[0].move_y.y, 58);
    assert!(world.enemies[0].car.column <= 2);
    assert!(world.enemies[0].alive);
    assert_eq!(world.walls[0].move_y.y, 50);
}

#[test]
fn a_full_run_from_menu_to_collision_and_back() {
    let mut world = World::new();
    let mut start = quiet_frame();
    start.start_pressed = true;
    world.frame(start);
    assert_eq!(world.state, GameState::Playing);
    assert_eq!(world.enemies.len(), 4);
    assert_eq!(world.walls.len(), 12);
    assert!(world.motor_running);

    // Earn a couple of accrual ticks.
    let mut second = quiet_frame();
    second.delta = 1000;
    world.frame(second);
    world.frame(second);
    assert_eq!(world.scoreboard.score, 200);

    // Force a collision right on the player.
    world.enemies[0] = enemy_at(world.player.as_ref().unwrap().car.column, PLAYER_Y);
    world.frame(quiet_frame());
    assert_eq!(world.state, GameState::Menu);
    assert_eq!(world.scoreboard.score, 0);
    assert_eq!(world.scoreboard.highscore, 200);
    assert!(world.player.is_none());
    assert!(world.enemies.is_empty());
}

#[test]
fn frame_ready_rejects_a_delta_that_would_overflow() {
    let world = playing_world();
    let mut input = quiet_frame();
    input.delta = u64::MAX;
    assert!(!world.frame_ready(input));
    input.delta = 16;
    assert!(world.frame_ready(input));
}
