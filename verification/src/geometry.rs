//! Row geometry: one row's wall layout, the wall-membership test and the
//! cell kind derived from it. The specification-level functions work over
//! mathematical integers, so the tunnel laws can be stated without fixing
//! an index type.

use vstd::prelude::*;

use crate::index::TunnelIndex;
use crate::index::sat_add_int;

verus! {

/// What a single cell of the corridor holds.
#[derive(Clone, Copy, Debug, PartialEq, Eq, Structural)]
pub enum TunnelCellType {
    Player,
    Floor,
    Wall,
}

/// One row of wall geometry: the rightmost column occupied by the left
/// wall, and the number of passable columns before the right wall begins.
#[derive(Clone, Copy)]
pub struct TunnelWalls<T: TunnelIndex> {
    pub left_wall: T,
    pub gap_to_right_wall: T,
}

/// Whether column `col` lies in a wall of the row `(left, gap)`.
///
/// The passable columns are those strictly right of the left wall and at
/// most `left + gap` (clamped at the type's maximum `max`).
pub open spec fn wall_hit(left: int, gap: int, col: int, max: int) -> bool {
    col <= left || col > sat_add_int(left, gap, max)
}

/// The kind of the cell at `(row, col)`: the player's own cell on the
/// front row, else wall or floor by the row's wall test.
pub open spec fn cell_kind(
    left: int,
    gap: int,
    player: int,
    row: int,
    col: int,
    max: int,
) -> TunnelCellType {
    if row == 0 && col == player {
        TunnelCellType::Player
    } else if wall_hit(left, gap, col, max) {
        TunnelCellType::Wall
    } else {
        TunnelCellType::Floor
    }
}

/// The rows of a wall buffer as pairs of left-wall position and gap
/// width, in buffer order.
pub open spec fn models_of<T: TunnelIndex>(walls: Seq<TunnelWalls<T>>) -> Seq<(int, int)> {
    walls.map(|i: int, w: TunnelWalls<T>| w.model())
}

impl<T: TunnelIndex> TunnelWalls<T> {
    /// The mathematical position of the left wall.
    pub open spec fn left(self) -> int {
        self.left_wall.as_int()
    }

    /// The mathematical width of the gap.
    pub open spec fn gap(self) -> int {
        self.gap_to_right_wall.as_int()
    }

    /// The row as a pair of integers, for the specification level.
    pub open spec fn model(self) -> (int, int) {
        (self.left(), self.gap())
    }

    /// Whether `column` lies in a wall of this row.
    pub fn in_wall(&self, column: T) -> (r: bool)
        ensures
            r == wall_hit(self.left(), self.gap(), column.as_int(), T::max_int()),
    {
        !self.left_wall.lt(column) || self.left_wall.sat_add(self.gap_to_right_wall).lt(column)
    }

    /// The kind of the cell at `(row, column)` for a player at `player`.
    pub fn cell_type(&self, player: T, row: T, column: T) -> (r: TunnelCellType)
        ensures
            r == cell_kind(
                self.left(),
                self.gap(),
                player.as_int(),
                row.as_int(),
                column.as_int(),
                T::max_int(),
            ),
    {
        if row.is_zero() && column.eq(player) {
            TunnelCellType::Player
        } else if self.in_wall(column) {
            TunnelCellType::Wall
        } else {
            TunnelCellType::Floor
        }
    }
}

} // verus!
