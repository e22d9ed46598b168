//! Tile classification and tile lookup on the static map grid.

use vstd::prelude::*;

verus! {

/// The number of tile columns of the grid.
pub const GRID_WIDTH: usize = 60;

/// The number of tile rows of the grid.
pub const GRID_HEIGHT: usize = 34;

/// The side of a tile, as a fixed-point length.
pub const TILE_SIDE: i32 = 16000;

/// The tile index that stands for the open ground beyond the grid.
pub const OPEN_TILE: u8 = 255;

/// Whether a tile index blocks movement and projectiles.
pub open spec fn wall_tile(t: u8) -> bool {
    t < 23 || t == 56 || t == 57 || t == 58 || t == 69 || t == 70 || t == 71
}

/// Whether a tile index is water.
pub open spec fn water_tile(t: u8) -> bool {
    72 <= t <= 93
}

/// Classifies a tile index as wall.
pub fn is_wall_tile(t: u8) -> (wall: bool)
    ensures
        wall == wall_tile(t),
{
    t < 23 || t == 56 || t == 57 || t == 58 || t == 69 || t == 70 || t == 71
}

/// Classifies a tile index as water.
pub fn is_water_tile(t: u8) -> (water: bool)
    ensures
        water == water_tile(t),
{
    t >= 72 && t <= 93
}

/// Whether the point `(x, y)` lies on the grid: not left of or above its
/// origin, and within its 60 columns and 34 rows of 16 units each.
pub open spec fn on_grid(x: int, y: int) -> bool {
    0 <= x < 60 * 16000 && 0 <= y < 34 * 16000
}

/// The tile under the point `(x, y)`: the grid's entry where the point
/// lies on the grid and the data reaches that far, open ground elsewhere.
pub open spec fn tile_at(data: Seq<u8>, x: int, y: int) -> u8 {
    let tx = x / 16000;
    let ty = y / 16000;
    if on_grid(x, y) && tx + ty * 60 < data.len() {
        data[tx + ty * 60]
    } else {
        OPEN_TILE
    }
}

/// Off the grid, on every side, the ground is open: neither wall nor
/// water.
pub proof fn lemma_open_beyond_grid(data: Seq<u8>, x: int, y: int)
    requires
        x < 0 || y < 0 || x >= 960000 || y >= 544000,
    ensures
        tile_at(data, x, y) == OPEN_TILE,
        !wall_tile(tile_at(data, x, y)),
        !water_tile(tile_at(data, x, y)),
{
}

/// Looks up the tile under the point `(x, y)`.
pub fn get_tile_at(data: &[u8], x: i32, y: i32) -> (t: u8)
    ensures
        t == tile_at(data@, x as int, y as int),
{
    if x < 0 || y < 0 {
        return OPEN_TILE;
    }
    let tx: usize = (x / TILE_SIDE) as usize;
    let ty: usize = (y / TILE_SIDE) as usize;
    if tx < GRID_WIDTH && ty < GRID_HEIGHT && tx + ty * GRID_WIDTH < data.len() {
        data[tx + ty * GRID_WIDTH]
    } else {
        OPEN_TILE
    }
}

} // verus!
