//! The entity records of the simulation world.
//!
//! The world is an explicit arena: the player's car, the obstacle
//! cars and the scrolling wall rows are plain records with a lane
//! column, a vertical position in half-tile units and an alive flag.
//! Obstacles and walls scroll downward and are recycled back to a
//! fixed top band once they cross their respawn limit, so their
//! positions always stay inside a known band.

use vstd::prelude::*;
use crate::tile_screen::{
    LANE_COUNT, TILE, PLAYER_Y, SCREEN_TOP, SCREEN_Y, CAR_SPACING, WALL_SPACING,
};

verus! {

/// The y coordinate at which a recycled obstacle reappears.
pub const ENEMY_TOP_Y: i32 = SCREEN_TOP + TILE * CAR_SPACING;

/// Obstacles whose y has fallen below this limit are recycled.
pub const ENEMY_RESPAWN_LIMIT: i32 = PLAYER_Y - TILE * (CAR_SPACING - 1);

/// The highest y an obstacle ever occupies: the top initial row.
pub const ENEMY_MAX_Y: i32 = ENEMY_TOP_Y + 3 * TILE * CAR_SPACING;

/// The y coordinate at which a recycled wall row reappears.
pub const WALL_TOP_Y: i32 = SCREEN_TOP + TILE * WALL_SPACING;

/// Wall rows whose y has fallen below this limit are recycled.
pub const WALL_RESPAWN_LIMIT: i32 = PLAYER_Y - TILE * (WALL_SPACING + 1);

/// The highest y a wall row ever occupies: the top initial row.
pub const WALL_MAX_Y: i32 = SCREEN_Y + TILE + 5 * TILE * WALL_SPACING;

/// The lane-holding component of a car: its column index.
#[derive(Clone, Copy, PartialEq, Eq, Structural, Debug)]
pub struct Car {
    /// The lane column the car occupies.
    pub column: usize,
}

impl Car {
    /// A car is well formed when its column is a real lane.
    pub open spec fn wf(self) -> bool {
        self.column < LANE_COUNT
    }
}

/// The vertical-motion component: a y position that the periodic
/// advance decreases by one tile per fired tick.
#[derive(Clone, Copy, PartialEq, Eq, Structural, Debug)]
pub struct MoveY {
    /// Vertical position, in half-tile units.
    pub y: i32,
}

/// The player's entity: a car pinned at `PLAYER_Y`, free only to
/// change lanes.
#[derive(Clone, Copy, PartialEq, Eq, Structural, Debug)]
pub struct Player {
    /// The player's lane-holding car.
    pub car: Car,
}

impl Player {
    /// The player is well formed when its car sits in a real lane.
    pub open spec fn wf(self) -> bool {
        self.car.wf()
    }
}

/// An obstacle car scrolling down one of the lanes.
#[derive(Clone, Copy, PartialEq, Eq, Structural, Debug)]
pub struct Enemy {
    /// The lane-holding car of the obstacle.
    pub car: Car,
    /// The vertical position of the obstacle.
    pub move_y: MoveY,
    /// Whether the obstacle is live; the world holds no dead records.
    pub alive: bool,
}

impl Enemy {
    /// An obstacle is well formed when it is alive, sits in a real
    /// lane and lies inside the obstacle band.
    pub open spec fn wf(self) -> bool {
        &&& self.car.wf()
        &&& self.alive
        &&& ENEMY_RESPAWN_LIMIT <= self.move_y.y <= ENEMY_MAX_Y
    }
}

/// A wall row scrolling down beside the lanes.
#[derive(Clone, Copy, PartialEq, Eq, Structural, Debug)]
pub struct Wall {
    /// The vertical position of the wall row.
    pub move_y: MoveY,
    /// Whether the wall row is live; the world holds no dead records.
    pub alive: bool,
}

impl Wall {
    /// A wall row is well formed when it is alive and lies inside the
    /// wall band.
    pub open spec fn wf(self) -> bool {
        &&& self.alive
        &&& WALL_RESPAWN_LIMIT <= self.move_y.y <= WALL_MAX_Y
    }
}

/// The game-over event: raised by collision resolution, held in a
/// single slot and drained once per frame by the audio layer.
#[derive(Clone, Copy, PartialEq, Eq, Structural, Debug)]
pub struct CollisionEvent;

} // verus!
