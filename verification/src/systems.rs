//! The per-frame simulation steps: lane shifting, boost handling,
//! the gated vertical advance, recycling, collision resolution,
//! score accrual with difficulty scaling, and the read-only
//! projections handed to the presentation layer.

use vstd::prelude::*;
use vstd::arithmetic::div_mod::lemma_div_is_ordered;
use crate::entities::{
    Car, CollisionEvent, Enemy, MoveY, Player, Wall, ENEMY_RESPAWN_LIMIT, ENEMY_TOP_Y,
    WALL_RESPAWN_LIMIT, WALL_TOP_Y,
};
use crate::gate::{gate_after, gate_fires};
use crate::state::{
    game_data_default, GameData, GameState, Scoreboard, BASE_SPEED_FACTOR, MAX_SPEED_FACTOR,
    SCORE_INCREMENT, SCORE_PER_STEP, SPEED_STEP,
};
use crate::spawner::random_lane;
use crate::tile_screen::{HALF_TILE, LANE_COUNT, PLAYER_Y, TILE};
use crate::world::World;

verus! {

/// Top of the collision window: obstacles strictly below this y can
/// touch the player.
pub const COLLISION_TOP: i32 = PLAYER_Y + TILE * 4;

/// Bottom of the collision window: obstacles strictly above this y
/// can touch the player.
pub const COLLISION_BOTTOM: i32 = PLAYER_Y - TILE * 4 - HALF_TILE;

/// The lane column after one frame of lane-shift input: a pressed
/// left edge shifts one lane left unless already in the leftmost
/// lane, then a pressed right edge shifts one lane right unless
/// already in the rightmost lane. Out-of-range shifts clamp to a
/// no-op rather than wrap.
pub open spec fn shifted_column(column: int, left: bool, right: bool) -> int {
    let after_left = if left && column > 0 {
        column - 1
    } else {
        column
    };
    if right && after_left < LANE_COUNT - 1 {
        after_left + 1
    } else {
        after_left
    }
}

/// The lane column after a whole series of per-frame lane-shift
/// inputs, each a (left edge, right edge) pair.
pub open spec fn run_shifts(column: int, shifts: Seq<(bool, bool)>) -> int
    decreases shifts.len(),
{
    if shifts.len() == 0 {
        column
    } else {
        run_shifts(shifted_column(column, shifts[0].0, shifts[0].1), shifts.drop_first())
    }
}

/// One lane shift keeps the lane in range, and shifting out of range
/// is a no-op: left at the leftmost lane and right at the rightmost
/// lane leave the column unchanged.
pub proof fn lemma_shift_in_range(column: int, left: bool, right: bool)
    requires
        0 <= column < LANE_COUNT,
    ensures
        0 <= shifted_column(column, left, right) < LANE_COUNT,
        column == 0 && left && !right ==> shifted_column(column, left, right) == column,
        column == LANE_COUNT - 1 && right && !left ==> shifted_column(column, left, right)
            == column,
{
}

/// Lane bound: under every series of lane-shift inputs, a lane that
/// starts in range stays in range.
pub proof fn lemma_lane_always_in_range(column: int, shifts: Seq<(bool, bool)>)
    requires
        0 <= column < LANE_COUNT,
    ensures
        0 <= run_shifts(column, shifts) < LANE_COUNT,
    decreases shifts.len(),
{
    if shifts.len() > 0 {
        lemma_shift_in_range(column, shifts[0].0, shifts[0].1);
        lemma_lane_always_in_range(
            shifted_column(column, shifts[0].0, shifts[0].1),
            shifts.drop_first(),
        );
    }
}

/// Shifts the player's lane by the frame's edge-triggered lane
/// controls; a no-op outside the playing state. At most one lane is
/// crossed per control edge per frame.
pub fn move_player(player: &mut Player, state: &GameState, left_pressed: bool, right_pressed: bool)
    requires
        old(player).wf(),
    ensures
        final(player).wf(),
        *state == GameState::Playing ==> final(player).car.column == shifted_column(
            old(player).car.column as int,
            left_pressed,
            right_pressed,
        ),
        *state != GameState::Playing ==> *final(player) == *old(player),
{
    if *state != GameState::Playing {
        return ;
    }
    if left_pressed && player.car.column > 0 {
        player.car.column = player.car.column - 1;
    }
    if right_pressed && player.car.column < LANE_COUNT - 1 {
        player.car.column = player.car.column + 1;
    }
}

/// The boost flag after one frame of boost-control edges: a release
/// always clears it, otherwise a press sets it.
pub open spec fn boosting_after(current: bool, pressed: bool, released: bool) -> bool {
    if released {
        false
    } else if pressed {
        true
    } else {
        current
    }
}

/// Flips the boost flag on the frame's boost-control edges. Purely a
/// flag flip: no motion happens here.
pub fn boost_player(game_data: &mut GameData, boost_pressed: bool, boost_released: bool)
    ensures
        final(game_data).is_boosting == boosting_after(
            old(game_data).is_boosting,
            boost_pressed,
            boost_released,
        ),
        final(game_data).move_timer == old(game_data).move_timer,
        final(game_data).boost_factor == old(game_data).boost_factor,
        final(game_data).speed_factor == old(game_data).speed_factor,
{
    if boost_pressed {
        game_data.is_boosting = true;
    }
    if boost_released {
        game_data.is_boosting = false;
    }
}

/// Whether this frame's delta makes the vertical-advance timer fire,
/// given the tunables in force when the advance timer ticks.
pub open spec fn advance_fires(game_data: GameData, delta: u64) -> bool {
    gate_fires(
        game_data.move_timer.accumulated as int,
        game_data.move_timer.interval as int,
        delta as int * game_data.scale(),
    )
}

/// How far every vertically-moving entity drops this frame: one tile
/// when the advance gate fires, nothing otherwise.
pub open spec fn advance_step(game_data: GameData, delta: u64) -> int {
    if advance_fires(game_data, delta) {
        TILE as int
    } else {
        0
    }
}

/// Feeds the frame delta, scaled by the current (possibly boosted)
/// speed factor, to the vertical-advance timer; when a tick fires,
/// every vertically-moving entity drops by one tile.
pub fn accelerate(
    enemies: &mut Vec<Enemy>,
    walls: &mut Vec<Wall>,
    game_data: &mut GameData,
    delta: u64,
)
    requires
        old(game_data).wf(),
        old(game_data).move_timer.accumulated + delta * old(game_data).scale() <= u64::MAX,
        forall|i: int| 0 <= i < old(enemies).len() ==> #[trigger] old(enemies)[i].wf(),
        forall|i: int| 0 <= i < old(walls).len() ==> #[trigger] old(walls)[i].wf(),
    ensures
        final(game_data).wf(),
        final(game_data).is_boosting == old(game_data).is_boosting,
        final(game_data).boost_factor == old(game_data).boost_factor,
        final(game_data).speed_factor == old(game_data).speed_factor,
        final(game_data).move_timer.interval == old(game_data).move_timer.interval,
        final(game_data).move_timer.accumulated == gate_after(
            old(game_data).move_timer.accumulated as int,
            old(game_data).move_timer.interval as int,
            delta as int * old(game_data).scale(),
        ),
        final(enemies).len() == old(enemies).len(),
        final(walls).len() == old(walls).len(),
        forall|i: int| #![trigger final(enemies)[i]]
            0 <= i < old(enemies).len() ==> {
                &&& final(enemies)[i].car == old(enemies)[i].car
                &&& final(enemies)[i].alive == old(enemies)[i].alive
                &&& final(enemies)[i].move_y.y == old(enemies)[i].move_y.y - advance_step(
                    *old(game_data),
                    delta,
                )
            },
        forall|i: int| #![trigger final(walls)[i]]
            0 <= i < old(walls).len() ==> {
                &&& final(walls)[i].alive == old(walls)[i].alive
                &&& final(walls)[i].move_y.y == old(walls)[i].move_y.y - advance_step(
                    *old(game_data),
                    delta,
                )
            },
{
    let scale = game_data.current_scale();
    let fired = game_data.move_timer.tick(delta, scale);
    if !fired {
        return ;
    }
    let enemy_count = enemies.len();
    let mut i: usize = 0;
    while i < enemy_count
        invariant
            i <= enemy_count,
            enemies.len() == enemy_count,
            enemy_count == old(enemies).len(),
            forall|j: int| 0 <= j < enemy_count ==> #[trigger] old(enemies)[j].wf(),
            forall|j: int| #![trigger enemies[j]]
                0 <= j < i ==> {
                    &&& enemies[j].car == old(enemies)[j].car
                    &&& enemies[j].alive == old(enemies)[j].alive
                    &&& enemies[j].move_y.y == old(enemies)[j].move_y.y - TILE
                },
            forall|j: int| i <= j < enemy_count ==> enemies[j] == old(enemies)[j],
        decreases enemy_count - i,
    {
        proof {
            assert(old(enemies)[i as int].wf());
        }
        let e = enemies[i];
        enemies[i] = Enemy {
            car: e.car,
            move_y: MoveY { y: e.move_y.y - TILE },
            alive: e.alive,
        };
        i = i + 1;
    }
    let wall_count = walls.len();
    let mut k: usize = 0;
    while k < wall_count
        invariant
            k <= wall_count,
            walls.len() == wall_count,
            wall_count == old(walls).len(),
            forall|j: int| 0 <= j < wall_count ==> #[trigger] old(walls)[j].wf(),
            forall|j: int| #![trigger walls[j]]
                0 <= j < k ==> {
                    &&& walls[j].alive == old(walls)[j].alive
                    &&& walls[j].move_y.y == old(walls)[j].move_y.y - TILE
                },
            forall|j: int| k <= j < wall_count ==> walls[j] == old(walls)[j],
        decreases wall_count - k,
    {
        proof {
            assert(old(walls)[k as int].wf());
        }
        let w = walls[k];
        walls[k] = Wall { move_y: MoveY { y: w.move_y.y - TILE }, alive: w.alive };
        k = k + 1;
    }
}

/// Recycles obstacles: any obstacle that has scrolled below the
/// obstacle respawn limit is teleported back to the top band, in a
/// lane drawn afresh at random; its alive flag is untouched.
pub fn enemy_respawn(enemies: &mut Vec<Enemy>)
    ensures
        final(enemies).len() == old(enemies).len(),
        forall|i: int| #![trigger final(enemies)[i]]
            0 <= i < old(enemies).len() ==> {
                &&& old(enemies)[i].move_y.y >= ENEMY_RESPAWN_LIMIT ==> final(enemies)[i]
                    == old(enemies)[i]
                &&& old(enemies)[i].move_y.y < ENEMY_RESPAWN_LIMIT ==> {
                    &&& final(enemies)[i].move_y.y == ENEMY_TOP_Y
                    &&& final(enemies)[i].car.column < LANE_COUNT
                    &&& final(enemies)[i].alive == old(enemies)[i].alive
                }
            },
{
    let count = enemies.len();
    let mut i: usize = 0;
    while i < count
        invariant
            i <= count,
            enemies.len() == count,
            count == old(enemies).len(),
            forall|j: int| #![trigger enemies[j]]
                0 <= j < i ==> {
                    &&& old(enemies)[j].move_y.y >= ENEMY_RESPAWN_LIMIT ==> enemies[j]
                        == old(enemies)[j]
                    &&& old(enemies)[j].move_y.y < ENEMY_RESPAWN_LIMIT ==> {
                        &&& enemies[j].move_y.y == ENEMY_TOP_Y
                        &&& enemies[j].car.column < LANE_COUNT
                        &&& enemies[j].alive == old(enemies)[j].alive
                    }
                },
            forall|j: int| i <= j < count ==> enemies[j] == old(enemies)[j],
        decreases count - i,
    {
        let e = enemies[i];
        if e.move_y.y < ENEMY_RESPAWN_LIMIT {
            let column = random_lane();
            enemies[i] = Enemy {
                car: Car { column },
                move_y: MoveY { y: ENEMY_TOP_Y },
                alive: e.alive,
            };
        }
        i = i + 1;
    }
}

/// Recycles wall rows: any wall row that has scrolled below the wall
/// respawn limit is teleported back to the wall top band; its alive
/// flag is untouched.
pub fn wall_respawn(walls: &mut Vec<Wall>)
    ensures
        final(walls).len() == old(walls).len(),
        forall|i: int| #![trigger final(walls)[i]]
            0 <= i < old(walls).len() ==> {
                &&& old(walls)[i].move_y.y >= WALL_RESPAWN_LIMIT ==> final(walls)[i]
                    == old(walls)[i]
                &&& old(walls)[i].move_y.y < WALL_RESPAWN_LIMIT ==> {
                    &&& final(walls)[i].move_y.y == WALL_TOP_Y
                    &&& final(walls)[i].alive == old(walls)[i].alive
                }
            },
{
    let count = walls.len();
    let mut i: usize = 0;
    while i < count
        invariant
            i <= count,
            walls.len() == count,
            count == old(walls).len(),
            forall|j: int| #![trigger walls[j]]
                0 <= j < i ==> {
                    &&& old(walls)[j].move_y.y >= WALL_RESPAWN_LIMIT ==> walls[j] == old(walls)[j]
                    &&& old(walls)[j].move_y.y < WALL_RESPAWN_LIMIT ==> {
                        &&& walls[j].move_y.y == WALL_TOP_Y
                        &&& walls[j].alive == old(walls)[j].alive
                    }
                },
            forall|j: int| i <= j < count ==> walls[j] == old(walls)[j],
        decreases count - i,
    {
        let w = walls[i];
        if w.move_y.y < WALL_RESPAWN_LIMIT {
            walls[i] = Wall { move_y: MoveY { y: WALL_TOP_Y }, alive: w.alive };
        }
        i = i + 1;
    }
}

/// Whether an obstacle touches the player: its y lies strictly
/// inside the collision window around the player's fixed y, and it
/// sits in exactly the player's lane.
pub open spec fn collides_with(player: Player, enemy: Enemy) -> bool {
    &&& enemy.move_y.y < COLLISION_TOP
    &&& enemy.move_y.y > COLLISION_BOTTOM
    &&& enemy.car.column == player.car.column
}

/// Whether any obstacle in the sequence touches the player.
pub open spec fn any_collision(player: Player, enemies: Seq<Enemy>) -> bool {
    exists|i: int| 0 <= i < enemies.len() && collides_with(player, #[trigger] enemies[i])
}

/// Resolves collisions: if any obstacle shares the player's lane
/// with its y inside the collision window, the run ends — a
/// collision event is raised, every entity is despawned, the score
/// is committed to the high score and reset, the run tunables return
/// to defaults, the motor stops and the state returns to the menu.
/// Without a collision the world is left untouched.
pub fn check_collisions(world: &mut World)
    requires
        old(world).wf(),
        old(world).state == GameState::Playing,
    ensures
        final(world).wf(),
        !old(world).collision_now() ==> *final(world) == *old(world),
        old(world).collision_now() ==> {
            &&& final(world).state == GameState::Menu
            &&& final(world).player is None
            &&& final(world).enemies.len() == 0
            &&& final(world).walls.len() == 0
            &&& final(world).scoreboard.score == 0
            &&& final(world).scoreboard.highscore == (if old(world).scoreboard.score > old(
                world,
            ).scoreboard.highscore {
                old(world).scoreboard.score
            } else {
                old(world).scoreboard.highscore
            })
            &&& final(world).game_data == game_data_default()
            &&& final(world).pending_collision == Some(CollisionEvent)
            &&& !final(world).motor_running
            &&& final(world).score_gate == old(world).score_gate
        },
{
    let player = world.player.unwrap();
    let count = world.enemies.len();
    let mut i: usize = 0;
    let mut found: bool = false;
    while i < count
        invariant
            i <= count,
            count == world.enemies.len(),
            *world == *old(world),
            found == exists|j: int|
                0 <= j < i && collides_with(player, #[trigger] world.enemies[j]),
            player == old(world).player->Some_0,
        decreases count - i,
    {
        let e = world.enemies[i];
        if e.move_y.y < COLLISION_TOP && e.move_y.y > COLLISION_BOTTOM && e.car.column
            == player.car.column {
            found = true;
        }
        i = i + 1;
    }
    if found {
        world.pending_collision = Some(CollisionEvent);
        world.walls.clear();
        world.enemies.clear();
        world.player = None;
        if world.scoreboard.score > world.scoreboard.highscore {
            world.scoreboard.highscore = world.scoreboard.score;
        }
        world.scoreboard.score = 0;
        world.game_data = GameData::new();
        world.motor_running = false;
        world.state = GameState::Menu;
    }
}

/// The speed factor the difficulty rule assigns to a score: one
/// `SPEED_STEP` above base speed for every full `SCORE_PER_STEP`
/// points.
pub open spec fn speed_for_score(score: int) -> int {
    BASE_SPEED_FACTOR + (score / SCORE_PER_STEP as int) * SPEED_STEP
}

/// Accrues one score increment and recomputes the difficulty speed
/// factor from the new score; a no-op outside the playing state.
pub fn increment_scoreboard(
    scoreboard: &mut Scoreboard,
    game_data: &mut GameData,
    state: &GameState,
)
    requires
        old(game_data).wf(),
        *state == GameState::Playing ==> old(scoreboard).score + SCORE_INCREMENT <= usize::MAX,
    ensures
        final(game_data).wf(),
        *state == GameState::Playing ==> {
            &&& final(scoreboard).score == old(scoreboard).score + SCORE_INCREMENT
            &&& final(scoreboard).highscore == old(scoreboard).highscore
            &&& final(game_data).speed_factor == speed_for_score(final(scoreboard).score as int)
            &&& final(game_data).move_timer == old(game_data).move_timer
            &&& final(game_data).is_boosting == old(game_data).is_boosting
            &&& final(game_data).boost_factor == old(game_data).boost_factor
        },
        *state != GameState::Playing ==> *final(scoreboard) == *old(scoreboard)
            && *final(game_data) == *old(game_data),
{
    if *state != GameState::Playing {
        return ;
    }
    scoreboard.score = scoreboard.score + SCORE_INCREMENT;
    let steps = (scoreboard.score as u64) / SCORE_PER_STEP;
    proof {
        lemma_div_is_ordered(scoreboard.score as int, u64::MAX as int, SCORE_PER_STEP as int);
        assert(steps <= u64::MAX / SCORE_PER_STEP);
        assert(steps * SPEED_STEP <= (u64::MAX / SCORE_PER_STEP) * SPEED_STEP);
    }
    game_data.speed_factor = BASE_SPEED_FACTOR + steps * SPEED_STEP;
    proof {
        assert(game_data.speed_factor <= MAX_SPEED_FACTOR);
    }
}

/// The read-only projection of the score bookkeeping handed to the
/// presentation layer each frame: the score and the high score, in
/// that order. Never mutates the scoreboard.
pub fn update_scoreboard(scoreboard: &Scoreboard) -> (shown: (usize, usize))
    ensures
        shown.0 == scoreboard.score,
        shown.1 == scoreboard.highscore,
{
    (scoreboard.score, scoreboard.highscore)
}

/// Marks the ambient motor audio as running and reports whether it
/// was newly started, so the audio layer can avoid double-starting
/// the looping track.
pub fn play_motor_sound(motor_running: &mut bool) -> (started: bool)
    ensures
        *final(motor_running),
        started == !*old(motor_running),
{
    let started = !*motor_running;
    *motor_running = true;
    started
}

/// Drains the single-slot collision event and reports whether one
/// was pending, so the audio layer can play the explosion effect
/// exactly once per collision.
pub fn play_explosion_sound(pending_collision: &mut Option<CollisionEvent>) -> (play: bool)
    ensures
        *final(pending_collision) is None,
        play == (*old(pending_collision) is Some),
{
    let play = pending_collision.is_some();
    *pending_collision = None;
    play
}

} // verus!
