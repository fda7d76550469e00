//! Spawning: the initial player, wall rows and obstacle rows of a
//! run.
//!
//! Wall rows and obstacle rows are stacked above the screen with a
//! fixed per-row offset, so they scroll into view one after another;
//! each obstacle row starts in a lane drawn at random.

use vstd::prelude::*;
use crate::entities::{Car, Enemy, MoveY, Player, Wall, ENEMY_TOP_Y};
use crate::tile_screen::{CAR_SPACING, LANE_COUNT, SCREEN_Y, TILE, WALL_SPACING};

verus! {

/// Number of wall rows a spawn call creates.
pub const WALL_ROWS: usize = 6;

/// Number of obstacle rows a spawn call creates.
pub const ENEMY_ROWS: usize = 4;

/// The lane column the player starts in.
pub const PLAYER_START_COLUMN: usize = 1;

/// The y coordinate of the `row`-th spawned wall row.
pub open spec fn wall_spawn_y(row: int) -> int {
    SCREEN_Y + TILE + row * (TILE * WALL_SPACING)
}

/// The y coordinate of the `row`-th spawned obstacle row.
pub open spec fn enemy_spawn_y(row: int) -> int {
    ENEMY_TOP_Y + row * (TILE * CAR_SPACING)
}

/// Relies on rand's `Rng::gen_range`, through `thread_rng`: the result
/// is drawn from the half-open range given to it, so the lane is
/// always below `LANE_COUNT`; the range is non-empty, so the call
/// cannot panic.
#[verifier::external_body]
pub(crate) fn random_lane() -> (lane: usize)
    ensures
        lane < LANE_COUNT,
{
    rand::Rng::gen_range(&mut rand::thread_rng(), 0..LANE_COUNT)
}

/// Appends the wall rows of a fresh run: `WALL_ROWS` rows stacked
/// upward from just above the bottom edge, one wall spacing apart.
pub fn spawn_walls(walls: &mut Vec<Wall>)
    ensures
        final(walls).len() == old(walls).len() + WALL_ROWS,
        forall|i: int| 0 <= i < old(walls).len() ==> final(walls)[i] == old(walls)[i],
        forall|i: int| #![trigger final(walls)[i]]
            old(walls).len() <= i < final(walls).len() ==> final(walls)[i] == (Wall {
                move_y: MoveY { y: wall_spawn_y(i - old(walls).len()) as i32 },
                alive: true,
            }),
{
    let base_len = walls.len();
    let mut row: usize = 0;
    while row < WALL_ROWS
        invariant
            row <= WALL_ROWS,
            walls.len() == base_len + row,
            base_len == old(walls).len(),
            forall|i: int| 0 <= i < base_len ==> walls[i] == old(walls)[i],
            forall|j: int| #![trigger walls[j]]
                base_len <= j < walls.len() ==> walls[j] == (Wall {
                    move_y: MoveY { y: wall_spawn_y(j - base_len) as i32 },
                    alive: true,
                }),
        decreases WALL_ROWS - row,
    {
        proof {
            assert(TILE * WALL_SPACING == 10);
            assert(row <= 5);
            assert((row as i32) * (TILE * WALL_SPACING) <= 50);
        }
        let y = SCREEN_Y + TILE + (row as i32) * (TILE * WALL_SPACING);
        walls.push(Wall { move_y: MoveY { y }, alive: true });
        row = row + 1;
    }
}

/// Appends the obstacle rows of a fresh run: `ENEMY_ROWS` rows
/// stacked upward from the obstacle top band, one car spacing apart,
/// each in a lane drawn at random.
pub fn spawn_enemies(enemies: &mut Vec<Enemy>)
    ensures
        final(enemies).len() == old(enemies).len() + ENEMY_ROWS,
        forall|i: int| 0 <= i < old(enemies).len() ==> final(enemies)[i] == old(enemies)[i],
        forall|i: int| #![trigger final(enemies)[i]]
            old(enemies).len() <= i < final(enemies).len() ==> {
                &&& final(enemies)[i].car.column < LANE_COUNT
                &&& final(enemies)[i].move_y.y == enemy_spawn_y(i - old(enemies).len())
                &&& final(enemies)[i].alive
            },
{
    let base_len = enemies.len();
    let mut row: usize = 0;
    while row < ENEMY_ROWS
        invariant
            row <= ENEMY_ROWS,
            enemies.len() == base_len + row,
            base_len == old(enemies).len(),
            forall|i: int| 0 <= i < base_len ==> enemies[i] == old(enemies)[i],
            forall|j: int| #![trigger enemies[j]]
                base_len <= j < enemies.len() ==> {
                    &&& enemies[j].car.column < LANE_COUNT
                    &&& enemies[j].move_y.y == enemy_spawn_y(j - base_len)
                    &&& enemies[j].alive
                },
        decreases ENEMY_ROWS - row,
    {
        proof {
            assert(TILE * CAR_SPACING == 18);
            assert(row <= 3);
            assert((row as i32) * (TILE * CAR_SPACING) <= 54);
        }
        let column = random_lane();
        let y = ENEMY_TOP_Y + (row as i32) * (TILE * CAR_SPACING);
        enemies.push(Enemy { car: Car { column }, move_y: MoveY { y }, alive: true });
        proof {
            assert(enemies[base_len + row as int] == (Enemy {
                car: Car { column },
                move_y: MoveY { y },
                alive: true,
            }));
            assert(y == enemy_spawn_y(row as int));
        }
        row = row + 1;
    }
}

/// The player of a fresh run: a car in the middle lane.
pub fn spawn_player() -> (player: Player)
    ensures
        player == (Player { car: Car { column: PLAYER_START_COLUMN } }),
{
    Player { car: Car { column: PLAYER_START_COLUMN } }
}

} // verus!
