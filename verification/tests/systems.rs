use carritos::entities::{
    Car, Enemy, MoveY, Player, Wall, ENEMY_RESPAWN_LIMIT, ENEMY_TOP_Y, WALL_RESPAWN_LIMIT,
    WALL_TOP_Y,
};
use carritos::state::{GameData, GameState, Scoreboard};
use carritos::systems::{
    accelerate, boost_player, enemy_respawn, increment_scoreboard, move_player,
    play_explosion_sound, play_motor_sound, update_scoreboard, wall_respawn, COLLISION_BOTTOM,
    COLLISION_TOP,
};
use carritos::tile_screen::{PLAYER_Y, TILE};

fn playing() -> GameState {
    GameState::Playing
}

#[test]
fn lane_shift_left_moves_one_lane() {
    let mut player = Player { car: Car { column: 1 } };
    move_player(&mut player, &playing(), true, false);
    assert_eq!(player.car.column, 0);
}

#[test]
fn lane_shift_left_at_leftmost_lane_is_a_no_op() {
    let mut player = Player { car: Car { column: 0 } };
    move_player(&mut player, &playing(), true, false);
    assert_eq!(player.car.column, 0);
}

#[test]
fn lane_shift_right_at_rightmost_lane_is_a_no_op() {
    let mut player = Player { car: Car { column: 2 } };
    move_player(&mut player, &playing(), false, true);
    assert_eq!(player.car.column, 2);
}

#[test]
fn lane_shift_ignored_in_menu() {
    let mut player = Player { car: Car { column: 1 } };
    move_player(&mut player, &GameState::Menu, true, false);
    assert_eq!(player.car.column, 1);
}

#[test]
fn lane_stays_in_range_under_any_input_series() {
    let mut player = Player { car: Car { column: 1 } };
    let shifts = [
        (true, false),
        (true, false),
        (true, false),
        (false, true),
        (false, true),
        (false, true),
        (false, true),
        (true, true),
    ];
    for (left, right) in shifts {
        move_player(&mut player, &playing(), left, right);
        assert!(player.car.column <= 2);
    }
    assert_eq!(player.car.column, 2);
}

#[test]
fn boost_press_sets_the_flag() {
    let mut data = GameData::new();
    boost_player(&mut data, true, false);
    assert!(data.is_boosting);
}

#[test]
fn boost_release_clears_the_flag() {
    let mut data = GameData::new();
    boost_player(&mut data, true, false);
    boost_player(&mut data, false, true);
    assert!(!data.is_boosting);
}

#[test]
fn boost_release_wins_over_press_in_one_frame() {
    let mut data = GameData::new();
    boost_player(&mut data, true, true);
    assert!(!data.is_boosting);
}

#[test]
fn accelerate_drops_entities_one_tile_when_gate_fires() {
    let mut enemies = vec![Enemy {
        car: Car { column: 0 },
        move_y: MoveY { y: 20 },
        alive: true,
    }];
    let mut walls = vec![Wall { move_y: MoveY { y: 10 }, alive: true }];
    let mut data = GameData::new();
    accelerate(&mut enemies, &mut walls, &mut data, 80);
    assert_eq!(enemies[0].move_y.y, 20 - TILE);
    assert_eq!(walls[0].move_y.y, 10 - TILE);
    assert_eq!(data.move_timer.accumulated, 0);
}

#[test]
fn accelerate_moves_nothing_before_the_gate_fires() {
    let mut enemies = vec![Enemy {
        car: Car { column: 0 },
        move_y: MoveY { y: 20 },
        alive: true,
    }];
    let mut walls = vec![Wall { move_y: MoveY { y: 10 }, alive: true }];
    let mut data = GameData::new();
    accelerate(&mut enemies, &mut walls, &mut data, 40);
    assert_eq!(enemies[0].move_y.y, 20);
    assert_eq!(walls[0].move_y.y, 10);
    assert_eq!(data.move_timer.accumulated, 4000);
}

#[test]
fn boosting_doubles_the_advance_rate() {
    let mut enemies: Vec<Enemy> = Vec::new();
    let mut walls: Vec<Wall> = Vec::new();
    let mut data = GameData::new();
    data.is_boosting = true;
    // 40 ms at double rate fills the 80 ms interval exactly.
    accelerate(&mut enemies, &mut walls, &mut data, 40);
    assert_eq!(data.move_timer.accumulated, 0);
}

#[test]
fn recycled_obstacle_returns_to_the_top_band_alive() {
    let mut enemies = vec![Enemy {
        car: Car { column: 2 },
        move_y: MoveY { y: ENEMY_RESPAWN_LIMIT - 1 },
        alive: true,
    }];
    enemy_respawn(&mut enemies);
    assert_eq!(enemies[0].move_y.y, ENEMY_TOP_Y);
    assert!(enemies[0].car.column <= 2);
    assert!(enemies[0].alive);
}

#[test]
fn obstacle_above_the_limit_is_left_alone() {
    let mut enemies = vec![Enemy {
        car: Car { column: 2 },
        move_y: MoveY { y: ENEMY_RESPAWN_LIMIT },
        alive: true,
    }];
    enemy_respawn(&mut enemies);
    assert_eq!(enemies[0].move_y.y, ENEMY_RESPAWN_LIMIT);
    assert_eq!(enemies[0].car.column, 2);
}

#[test]
fn repeated_recycling_keeps_lane_and_band_valid() {
    let mut enemies = vec![Enemy {
        car: Car { column: 1 },
        move_y: MoveY { y: ENEMY_RESPAWN_LIMIT - 1 },
        alive: true,
    }];
    for _ in 0..50 {
        enemy_respawn(&mut enemies);
        assert!(enemies[0].car.column <= 2);
        assert_eq!(enemies[0].move_y.y, ENEMY_TOP_Y);
        assert!(enemies[0].alive);
        enemies[0].move_y.y = ENEMY_RESPAWN_LIMIT - 1;
    }
}

#[test]
fn recycled_wall_returns_to_the_wall_band() {
    let mut walls = vec![Wall { move_y: MoveY { y: WALL_RESPAWN_LIMIT - 1 }, alive: true }];
    wall_respawn(&mut walls);
    assert_eq!(walls[0].move_y.y, WALL_TOP_Y);
    assert!(walls[0].alive);
}

#[test]
fn wall_above_the_limit_is_left_alone() {
    let mut walls = vec![Wall { move_y: MoveY { y: WALL_RESPAWN_LIMIT }, alive: true }];
    wall_respawn(&mut walls);
    assert_eq!(walls[0].move_y.y, WALL_RESPAWN_LIMIT);
}

#[test]
fn score_accrual_adds_the_fixed_increment() {
    let mut board = Scoreboard { score: 0, highscore: 0 };
    let mut data = GameData::new();
    increment_scoreboard(&mut board, &mut data, &playing());
    assert_eq!(board.score, 100);
    assert_eq!(board.highscore, 0);
    assert_eq!(data.speed_factor, 100);
}

#[test]
fn score_accrual_is_gated_off_in_menu() {
    let mut board = Scoreboard { score: 700, highscore: 900 };
    let mut data = GameData::new();
    increment_scoreboard(&mut board, &mut data, &GameState::Menu);
    assert_eq!(board.score, 700);
    assert_eq!(data.speed_factor, 100);
}

#[test]
fn difficulty_steps_up_at_one_thousand_points() {
    // Speed factors are hundredths: 100 is normal speed, 102 is two
    // hundredths above it.
    let mut board = Scoreboard { score: 900, highscore: 0 };
    let mut data = GameData::new();
    increment_scoreboard(&mut board, &mut data, &playing());
    assert_eq!(board.score, 1000);
    assert_eq!(data.speed_factor, 102);
}

#[test]
fn difficulty_counts_whole_thousands_only() {
    let mut board = Scoreboard { score: 2400, highscore: 0 };
    let mut data = GameData::new();
    increment_scoreboard(&mut board, &mut data, &playing());
    assert_eq!(board.score, 2500);
    assert_eq!(data.speed_factor, 104);
}

#[test]
fn scoreboard_projection_reads_without_mutating() {
    let board = Scoreboard { score: 400, highscore: 1200 };
    let (score, highscore) = update_scoreboard(&board);
    assert_eq!(score, 400);
    assert_eq!(highscore, 1200);
    assert_eq!(board.score, 400);
    assert_eq!(board.highscore, 1200);
}

#[test]
fn motor_start_reports_only_the_first_start() {
    let mut motor_running = false;
    assert!(play_motor_sound(&mut motor_running));
    assert!(motor_running);
    assert!(!play_motor_sound(&mut motor_running));
    assert!(motor_running);
}

#[test]
fn explosion_event_is_drained_exactly_once() {
    let mut pending = Some(carritos::entities::CollisionEvent);
    assert!(play_explosion_sound(&mut pending));
    assert!(pending.is_none());
    assert!(!play_explosion_sound(&mut pending));
}

#[test]
fn collision_window_spans_four_tiles_and_a_half_around_the_player() {
    assert_eq!(COLLISION_TOP, PLAYER_Y + TILE * 4);
    assert_eq!(COLLISION_BOTTOM, PLAYER_Y - TILE * 4 - 1);
}

#[test]
fn simultaneous_edges_apply_left_then_right() {
    // Both edges in one frame: the left shift is applied first, then
    // the right shift, so a car in the leftmost lane ends one lane
    // to the right.
    let mut player = Player { car: Car { column: 0 } };
    move_player(&mut player, &playing(), true, true);
    assert_eq!(player.car.column, 1);
    let mut centered = Player { car: Car { column: 1 } };
    move_player(&mut centered, &playing(), true, true);
    assert_eq!(centered.car.column, 1);
}
