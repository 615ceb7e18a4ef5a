//! The cell enumerator: a lazy, restartable pass over every buffered row
//! crossed with every column, in row-major order, without materializing a
//! grid. The cursor advances the row only when the column range wraps
//! back to its start.
//!
//! When the buffered row count cannot be represented in the index type,
//! the enumeration degrades to an empty sequence instead of producing
//! wrong row indices; a zero-width corridor yields no cells either.

use vstd::prelude::*;

use std::collections::VecDeque;

use crate::geometry::TunnelCellType;
use crate::geometry::TunnelWalls;
use crate::geometry::cell_kind;
use crate::geometry::models_of;
use crate::index::TunnelIndex;

verus! {

/// A cursor over the cells of a tunnel's buffered rows. Obtain one from
/// [`crate::engine::Tunnel::iter`]; each call of [`TunnelIterator::next`]
/// yields one `(row, column, kind)` triple until the rows are exhausted.
pub struct TunnelIterator<'a, T: TunnelIndex> {
    player: T,
    width: T,
    n_rows: T,
    row: T,
    col: T,
    walls: &'a VecDeque<TunnelWalls<T>>,
}

impl<'a, T: TunnelIndex> TunnelIterator<'a, T> {
    /// The player column the cells are classified against.
    pub closed spec fn player_col(self) -> int {
        self.player.as_int()
    }

    /// The corridor width: the column range of every row.
    pub closed spec fn width(self) -> int {
        self.width.as_int()
    }

    /// How many rows the enumeration covers: the buffered row count, or
    /// zero when that count does not fit the index type.
    pub closed spec fn n_rows(self) -> int {
        self.n_rows.as_int()
    }

    /// The row the cursor stands on.
    pub closed spec fn pos_row(self) -> int {
        self.row.as_int()
    }

    /// The column the cursor stands on.
    pub closed spec fn pos_col(self) -> int {
        self.col.as_int()
    }

    /// The enumerated rows as pairs of left-wall position and gap width.
    pub closed spec fn rows_model(self) -> Seq<(int, int)> {
        models_of(self.walls@)
    }

    #[verifier::type_invariant]
    closed spec fn inv(self) -> bool {
        &&& 0 <= self.width() <= T::max_int()
        &&& 0 <= self.n_rows() <= self.walls@.len()
        &&& 0 <= self.pos_row() <= self.n_rows()
        &&& if self.width() > 0 {
            0 <= self.pos_col() < self.width()
        } else {
            self.pos_col() == 0
        }
    }

    /// A fresh cursor at the first row and column. A row count the index
    /// type cannot represent degrades to an empty enumeration.
    pub(crate) fn new(walls: &'a VecDeque<TunnelWalls<T>>, player: T, width: T) -> (r: Self)
        ensures
            r.player_col() == player.as_int(),
            r.width() == width.as_int(),
            r.rows_model() == models_of(walls@),
            r.n_rows() == if walls@.len() <= T::max_int() {
                walls@.len() as int
            } else {
                0int
            },
            r.pos_row() == 0,
            r.pos_col() == 0,
    {
        let n_rows = match T::from_row_count(walls.len()) {
            Some(val) => val,
            None => T::from_small(0),
        };
        proof {
            width.lemma_in_range();
            n_rows.lemma_in_range();
        }
        TunnelIterator { player, width, n_rows, row: T::from_small(0), col: T::from_small(0), walls }
    }

    /// Yields the cell under the cursor and advances it: first along the
    /// columns of the current row, then to the next row when the column
    /// range wraps. Returns `None` exactly when the rows are exhausted or
    /// the corridor has no columns.
    pub fn next(&mut self) -> (r: Option<(T, T, TunnelCellType)>)
        ensures
            final(self).player_col() == old(self).player_col(),
            final(self).width() == old(self).width(),
            final(self).n_rows() == old(self).n_rows(),
            final(self).rows_model() == old(self).rows_model(),
            match r {
                Some(cell) => {
                    &&& old(self).pos_row() < old(self).n_rows()
                    &&& old(self).width() > 0
                    &&& cell.0.as_int() == old(self).pos_row()
                    &&& cell.1.as_int() == old(self).pos_col()
                    &&& cell.2 == cell_kind(
                        old(self).rows_model()[old(self).pos_row()].0,
                        old(self).rows_model()[old(self).pos_row()].1,
                        old(self).player_col(),
                        old(self).pos_row(),
                        old(self).pos_col(),
                        T::max_int(),
                    )
                    &&& if old(self).pos_col() + 1 == old(self).width() {
                        final(self).pos_col() == 0 && final(self).pos_row() == old(self).pos_row()
                            + 1
                    } else {
                        final(self).pos_col() == old(self).pos_col() + 1 && final(self).pos_row()
                            == old(self).pos_row()
                    }
                },
                None => {
                    &&& (old(self).pos_row() >= old(self).n_rows() || old(self).width() == 0)
                    &&& final(self).pos_row() == old(self).pos_row()
                    &&& final(self).pos_col() == old(self).pos_col()
                },
            },
    {
        proof {
            use_type_invariant(&*self);
            self.n_rows.lemma_in_range();
        }
        if self.row.lt(self.n_rows) && !self.width.is_zero() {
            proof {
                vstd::std_specs::vecdeque::axiom_spec_len(self.walls);
            }
            let geometry: TunnelWalls<T> = self.walls[self.row.to_usize()];
            proof {
                assert(geometry.model() == self.rows_model()[self.pos_row()]);
            }
            let kind = geometry.cell_type(self.player, self.row, self.col);
            let item = Some((self.row, self.col, kind));
            let next_col = self.col.sat_add(T::from_small(1));
            if next_col.eq(self.width) {
                self.col = T::from_small(0);
                self.row = self.row.sat_add(T::from_small(1));
            } else {
                self.col = next_col;
            }
            item
        } else {
            None
        }
    }
}

} // verus!
