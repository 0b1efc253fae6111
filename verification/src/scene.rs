//! The scene: the player, the grid tiles, the hover indicators and the
//! movement-UI flag, held as an explicit arena of positioned records instead
//! of an ambient entity registry. Tiles and indicators are addressed by their
//! index in the vectors that hold them.

use vstd::prelude::*;

use crate::board::Board;
use crate::board::Pos;

verus! {

/// The process-wide movement-UI flag, flipped on the press and release edges
/// of the designated toggle key.
#[derive(Clone, Copy, PartialEq, Eq, Structural, Debug)]
pub struct MovementUiState {
    pub enabled: bool,
}

impl Default for MovementUiState {
    /// The movement UI starts disabled.
    fn default() -> (r: Self)
        ensures
            !r.enabled,
    {
        MovementUiState { enabled: false }
    }
}

/// One cell of the grid: a world position and a selection flag. The vertical
/// coordinate records where the tile is rendered; movement reads only the
/// horizontal coordinates and seats the player half a unit above ground.
#[derive(Clone, Copy, PartialEq, Eq, Structural, Debug)]
pub struct GridTile {
    pub x: i64,
    pub y: i64,
    pub z: i64,
    /// Set by the picking collaborator when the tile is selected; cleared by
    /// the mover when the selection is consumed.
    pub selected: bool,
}

impl GridTile {
    /// A tile belongs on the board when its horizontal coordinates lie in the
    /// tile range.
    pub open spec fn wf(self, b: Board) -> bool {
        &&& -b.half_extent <= self.x <= b.half_extent - 1
        &&& -b.half_extent <= self.z <= b.half_extent - 1
    }

    /// Runtime check of [`GridTile::wf`], for callers that build tiles from
    /// outside the library.
    pub fn check_wf(&self, b: &Board) -> (r: bool)
        requires
            b.wf(),
        ensures
            r == self.wf(*b),
    {
        -b.half_extent <= self.x && self.x <= b.half_extent - 1
            && -b.half_extent <= self.z && self.z <= b.half_extent - 1
    }
}

/// A transient visual marker over the hovered tile, tagged with the grid
/// coordinate it represents.
#[derive(Clone, Copy, PartialEq, Eq, Structural, Debug)]
pub struct MovementHoverIndicator {
    pub x: i64,
    pub z: i64,
}

/// The whole mutable state the movers work on, once per tick.
pub struct Scene {
    pub board: Board,
    pub player: Pos,
    pub tiles: Vec<GridTile>,
    pub indicators: Vec<MovementHoverIndicator>,
    pub ui: MovementUiState,
}

/// The mathematical model of a [`Scene`]: the same record over sequences.
#[verifier::ext_equal]
pub struct SceneModel {
    pub board: Board,
    pub player: Pos,
    pub tiles: Seq<GridTile>,
    pub indicators: Seq<MovementHoverIndicator>,
    pub enabled: bool,
}

impl View for Scene {
    type V = SceneModel;

    open spec fn view(&self) -> SceneModel {
        SceneModel {
            board: self.board,
            player: self.player,
            tiles: self.tiles@,
            indicators: self.indicators@,
            enabled: self.ui.enabled,
        }
    }
}

impl SceneModel {
    /// Well-formedness: the board parameters are sound, the player is on the
    /// board, and every tile belongs on it.
    pub open spec fn wf(self) -> bool {
        &&& self.board.wf()
        &&& self.player.in_bounds(self.board)
        &&& forall|i: int| 0 <= i < self.tiles.len() ==> self.tiles[i].wf(self.board)
    }

    /// The indicator invariant: at most one indicator exists, and none
    /// persists while the movement UI is disabled. Established at
    /// construction and preserved by every tick.
    pub open spec fn indicators_ok(self) -> bool {
        &&& self.indicators.len() <= 1
        &&& !self.enabled ==> self.indicators.len() == 0
    }
}

impl Scene {
    /// Well-formedness of the executable scene, stated over its model.
    pub open spec fn wf(self) -> bool {
        self@.wf()
    }

    /// Builds the scene as it stands after setup: the player at the centre of
    /// the board at the given elevation, the grid as supplied, no indicator,
    /// and the movement UI disabled.
    pub fn new(board: Board, tiles: Vec<GridTile>, initial_elevation: i64) -> (s: Scene)
        requires
            board.wf(),
            board.ground_elevation <= initial_elevation <= board.max_elevation,
            forall|i: int| 0 <= i < tiles@.len() ==> tiles@[i].wf(board),
        ensures
            s.wf(),
            s@.indicators_ok(),
            s@.board == board,
            s@.player.x == 0,
            s@.player.y2 == 2 * initial_elevation,
            s@.player.z == 0,
            s@.tiles == tiles@,
            s@.indicators.len() == 0,
            !s@.enabled,
    {
        Scene {
            board,
            player: Pos { x: 0, y2: 2 * initial_elevation, z: 0 },
            tiles,
            indicators: Vec::new(),
            ui: MovementUiState { enabled: false },
        }
    }
}

} // verus!
