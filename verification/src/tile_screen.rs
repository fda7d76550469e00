//! The integer coordinate system of the simulation.
//!
//! Space is measured in half-tile units: one tile of the board is
//! `TILE` units wide and high, and the screen origin sits at
//! (`SCREEN_X`, `SCREEN_Y`). The player and every obstacle occupy one
//! of three lane columns; a column index maps to the x coordinate of
//! its center through `TileScreen::column_to_coord`.

use vstd::prelude::*;

verus! {

/// One board tile, in half-tile units.
pub const TILE: i32 = 2;

/// Half of one board tile.
pub const HALF_TILE: i32 = 1;

/// Number of lane columns; lanes are indexed 0, 1 and 2.
pub const LANE_COUNT: usize = 3;

/// Width of one lane column: three tiles.
pub const COLUMN_SIZE: i32 = TILE * 3;

/// Tiles of padding between the leftmost lane and the screen edge.
pub const PADDING: i32 = 2;

/// x coordinate of the left edge of the screen.
pub const SCREEN_X: i32 = 0;

/// y coordinate of the bottom edge of the screen.
pub const SCREEN_Y: i32 = 0;

/// Height of the visible board, in tiles.
pub const SCREEN_HEIGHT: i32 = 20;

/// y coordinate of the top edge of the screen.
pub const SCREEN_TOP: i32 = SCREEN_Y + SCREEN_HEIGHT * TILE;

/// Fixed y coordinate of the player's car anchor.
pub const PLAYER_Y: i32 = SCREEN_Y + HALF_TILE * 4;

/// Vertical distance between consecutive wall rows, in tiles.
pub const WALL_SPACING: i32 = 5;

/// Vertical distance between consecutive obstacle rows, in tiles.
pub const CAR_SPACING: i32 = 9;

/// The x coordinate of the center of a lane column, as a function of
/// the column index.
pub open spec fn column_coord(column: int) -> int {
    SCREEN_X + column * COLUMN_SIZE + HALF_TILE * 3 + TILE * PADDING
}

/// Helpers tying lane columns to board coordinates.
pub struct TileScreen {}

impl TileScreen {
    /// Maps a lane column index to the x coordinate of its center.
    pub fn column_to_coord(column: usize) -> (x: i32)
        requires
            column < LANE_COUNT,
        ensures
            x == column_coord(column as int),
    {
        SCREEN_X + (column as i32) * COLUMN_SIZE + HALF_TILE * 3 + TILE * PADDING
    }
}

} // verus!
