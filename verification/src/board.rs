//! The board and the player position.
//!
//! The board is a square of tiles at integer world coordinates: columns and
//! rows run from `-half_extent` to `half_extent - 1` on the horizontal axes
//! `x` and `z`. The vertical axis `y` is bounded by a ground and a maximum
//! elevation. Because a tile selection seats the player half a unit above the
//! ground, vertical coordinates are measured in half-units throughout: a
//! position with elevation `e` stores `y2 == 2 * e`, and the seated position
//! stores `y2 == 2 * ground_elevation + 1`. All coordinates are then exact
//! integers.

use vstd::prelude::*;

verus! {

/// The fixed parameters of one board variant.
#[derive(Clone, Copy, PartialEq, Eq, Structural, Debug)]
pub struct Board {
    /// Half the side length of the square board, in tiles.
    pub half_extent: i64,
    /// The lowest elevation the player may occupy, in whole units.
    pub ground_elevation: i64,
    /// The highest elevation the player may occupy, in whole units.
    pub max_elevation: i64,
}

impl Board {
    /// A board is well formed when it has at least one tile ring, its
    /// elevation band is wide enough to hold the seated position half a unit
    /// above ground, and its parameters are small enough that every
    /// coordinate computation fits comfortably in an `i64`.
    pub open spec fn wf(self) -> bool {
        &&& 1 <= self.half_extent <= 100_000
        &&& -100_000 <= self.ground_elevation
        &&& self.ground_elevation < self.max_elevation <= 100_000
    }

    /// Runtime check of [`Board::wf`], for callers that receive a board from
    /// outside the library.
    pub fn check_wf(&self) -> (r: bool)
        ensures
            r == self.wf(),
    {
        1 <= self.half_extent && self.half_extent <= 100_000
            && -100_000 <= self.ground_elevation
            && self.ground_elevation < self.max_elevation
            && self.max_elevation <= 100_000
    }
}

/// The position of the tracked player entity: `x` and `z` in whole units,
/// the vertical coordinate in half-units (see the module documentation).
#[derive(Clone, Copy, PartialEq, Eq, Structural, Debug)]
pub struct Pos {
    pub x: i64,
    /// Twice the elevation: `y2 == 2 * e` for a player at elevation `e`,
    /// `y2 == 2 * ground_elevation + 1` for a player seated on a tile.
    pub y2: i64,
    pub z: i64,
}

impl Pos {
    /// The position at horizontal coordinates `(x, z)` and whole-unit
    /// elevation `y`.
    pub fn at_elevation(x: i64, y: i64, z: i64) -> (r: Pos)
        requires
            -0x2000_0000_0000_0000 <= y <= 0x2000_0000_0000_0000,
        ensures
            r.x == x,
            r.y2 == 2 * y,
            r.z == z,
    {
        Pos { x, y2: 2 * y, z }
    }

    /// A position is within the board when both horizontal coordinates lie in
    /// the tile range `[-half_extent, half_extent - 1]` and the vertical
    /// coordinate lies in the elevation band `[ground, max]`.
    pub open spec fn in_bounds(self, b: Board) -> bool {
        &&& -b.half_extent <= self.x <= b.half_extent - 1
        &&& -b.half_extent <= self.z <= b.half_extent - 1
        &&& 2 * b.ground_elevation <= self.y2 <= 2 * b.max_elevation
    }
}

/// A grid coordinate: the column `x` and row `z` of one tile.
#[derive(Clone, Copy, PartialEq, Eq, Structural, Debug)]
pub struct GridPos {
    pub x: i64,
    pub z: i64,
}

} // verus!
