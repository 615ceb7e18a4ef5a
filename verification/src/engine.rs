//! The tunnel state machine: player position, corridor width and a bounded
//! buffer of row geometries, together with the narrowing rules that evolve
//! the corridor row by row.
//!
//! Nothing is assumed of a [`TunnelBuilder`]: every contract below holds
//! for every choice a builder can make, so the well-formedness of the
//! buffered rows is an invariant for any sequence of generator decisions.

use vstd::prelude::*;

use std::collections::VecDeque;

use crate::cells::TunnelIterator;
use crate::geometry::TunnelWalls;
use crate::geometry::wall_hit;
use crate::index::TunnelIndex;
use crate::index::rows_to_loop_iterations;
use crate::index::sat_add_int;
use crate::index::sat_sub_int;

verus! {

/// The per-row decision a builder supplies: narrow the corridor from the
/// left, or (when it is already minimal) shift it back towards the left
/// edge by moving the right wall.
pub enum TunnelBuilderChoice {
    MoveLeftWall,
    MoveRightWall,
}

/// The pluggable strategy that shapes the corridor: where the player
/// starts, and one directional decision per generated row.
///
/// Implementations live with the caller (scripted sequences in tests, a
/// random source in a game). The engine promises its contracts for every
/// possible answer, so no contract is stated here.
pub trait TunnelBuilder {
    /// The player's starting column; the engine performs no bounds check.
    fn choose_player_start<T: TunnelIndex>(&mut self, max: T) -> T;

    /// The directional decision consumed once per generated row.
    fn choose_step(&mut self) -> TunnelBuilderChoice;
}

/// The row that seeds an empty buffer: left wall at column zero and a gap
/// spanning all but the two border columns (clamped at zero for widths
/// below two).
pub open spec fn seed_row(width: int) -> (int, int) {
    (0, sat_sub_int(width, 2))
}

/// One narrowing step applied to a cloned back row.
///
/// The gap first shrinks by one unless it is already minimal. Then the
/// builder's choice is applied: `MoveLeftWall` pushes the left wall one
/// column rightward only if at least three columns would remain before
/// the right edge; `MoveRightWall` pulls the whole corridor one column
/// leftward, and only when the gap is already minimal — otherwise it is a
/// deliberate no-op.
pub open spec fn narrowed_row(
    row: (int, int),
    choice: TunnelBuilderChoice,
    width: int,
    max: int,
) -> (int, int) {
    let gap = if row.1 > 1 {
        row.1 - 1
    } else {
        row.1
    };
    match choice {
        TunnelBuilderChoice::MoveLeftWall => if sat_add_int(row.0, 3, max) < width {
            (row.0 + 1, gap)
        } else {
            (row.0, gap)
        },
        TunnelBuilderChoice::MoveRightWall => if gap == 1 {
            (sat_sub_int(row.0, 1), gap)
        } else {
            (row.0, gap)
        },
    }
}

/// The row buffer with its seed row supplied when it is empty.
pub open spec fn seeded(rows: Seq<(int, int)>, width: int) -> Seq<(int, int)> {
    if rows.len() == 0 {
        seq![seed_row(width)]
    } else {
        rows
    }
}

/// The row buffer after one row advance: seeded if empty, then one
/// narrowed copy of the back row appended.
pub open spec fn advanced(
    rows: Seq<(int, int)>,
    choice: TunnelBuilderChoice,
    width: int,
    max: int,
) -> Seq<(int, int)> {
    seeded(rows, width).push(narrowed_row(seeded(rows, width).last(), choice, width, max))
}

/// The row buffer after one row advance for each choice in `choices`,
/// in order: what repeated [`Tunnel::add_one_row`] builds.
pub open spec fn advanced_many(
    rows: Seq<(int, int)>,
    choices: Seq<TunnelBuilderChoice>,
    width: int,
    max: int,
) -> Seq<(int, int)>
    decreases choices.len(),
{
    if choices.len() == 0 {
        rows
    } else {
        advanced_many(advanced(rows, choices[0], width, max), choices.drop_first(), width, max)
    }
}

/// Well-formedness of one buffered row of a corridor of the given width.
///
/// At widths of at least three, the gap never falls below one, the left
/// wall leaves at least three columns before the right edge, and the
/// passable range ends before the last column. At smaller widths the row
/// degenerates to a zero gap at column zero.
pub open spec fn row_wf(row: (int, int), width: int, max: int) -> bool {
    &&& 0 <= row.0 <= max
    &&& 0 <= row.1 <= max
    &&& width >= 3 ==> row.1 >= 1 && row.0 + 3 <= width && row.0 + row.1 <= width - 1
    &&& width < 3 ==> row == (0int, 0int)
}

/// The scrolling corridor: the player's column, the fixed corridor width
/// and the buffered row geometries, front first.
pub struct Tunnel<T: TunnelIndex> {
    player: T,
    screen_width: T,
    walls: VecDeque<TunnelWalls<T>>,
}

impl<T: TunnelIndex> Tunnel<T> {
    /// The player's current column.
    pub closed spec fn player_col(self) -> int {
        self.player.as_int()
    }

    /// The corridor width, fixed for the tunnel's lifetime.
    pub closed spec fn width(self) -> int {
        self.screen_width.as_int()
    }

    /// The buffered rows as pairs of left-wall position and gap width,
    /// front row first.
    pub closed spec fn rows(self) -> Seq<(int, int)> {
        crate::geometry::models_of(self.walls@)
    }

    /// Every buffered row of a real tunnel is well formed for the
    /// tunnel's width, whatever the builder chose.
    #[verifier::type_invariant]
    closed spec fn inv(self) -> bool {
        &&& 0 <= self.width() <= T::max_int()
        &&& forall|i: int|
            0 <= i < self.walls@.len() ==> row_wf(
                (#[trigger] self.walls@[i]).model(),
                self.width(),
                T::max_int(),
            )
    }

    /// The buffered rows are exactly the models of the buffered walls.
    proof fn lemma_rows_are_wall_models(self)
        ensures
            self.rows().len() == self.walls@.len(),
            forall|i: int|
                0 <= i < self.walls@.len() ==> self.rows()[i] == (
                #[trigger] self.walls@[i]).model(),
    {
    }

    /// Builds a tunnel: the builder places the player, then the lookahead
    /// buffer is pre-filled with `max(rows - 3, 0)` generated rows. With
    /// fewer than four rows the buffer stays empty until the first step.
    pub fn new<B: TunnelBuilder>(b: &mut B, rows: T, cols: T) -> (t: Tunnel<T>)
        ensures
            t.width() == cols.as_int(),
            t.rows().len() == if sat_sub_int(rows.as_int(), 3) == 0 {
                0int
            } else {
                sat_sub_int(rows.as_int(), 3) + 1
            },
            sat_sub_int(rows.as_int(), 3) > 0 ==> t.rows()[0] == seed_row(cols.as_int()),
            exists|choices: Seq<TunnelBuilderChoice>|
                choices.len() == sat_sub_int(rows.as_int(), 3) && t.rows() == advanced_many(
                    Seq::empty(),
                    choices,
                    cols.as_int(),
                    T::max_int(),
                ),
            cols.as_int() >= 3 ==> forall|i: int|
                0 <= i < t.rows().len() ==> (#[trigger] t.rows()[i]).1 >= 1,
    {
        proof {
            cols.lemma_in_range();
        }
        let player = b.choose_player_start(cols);
        let mut t = Tunnel { player, screen_width: cols, walls: VecDeque::new() };
        let iterations = rows_to_loop_iterations(rows);
        proof {
            iterations.lemma_in_range();
            assert(t.rows() =~= Seq::<(int, int)>::empty());
            assert(advanced_many(
                Seq::empty(),
                Seq::<TunnelBuilderChoice>::empty(),
                cols.as_int(),
                T::max_int(),
            ) == Seq::<(int, int)>::empty());
        }
        let mut i = T::from_small(0);
        while i.lt(iterations)
            invariant
                iterations.as_int() == sat_sub_int(rows.as_int(), 3),
                iterations.as_int() <= T::max_int(),
                0 <= i.as_int() <= iterations.as_int(),
                t.width() == cols.as_int(),
                t.rows().len() == if i.as_int() == 0 {
                    0int
                } else {
                    i.as_int() + 1
                },
                i.as_int() > 0 ==> t.rows()[0] == seed_row(cols.as_int()),
                exists|choices: Seq<TunnelBuilderChoice>|
                    choices.len() == i.as_int() && t.rows() == advanced_many(
                        Seq::empty(),
                        choices,
                        cols.as_int(),
                        T::max_int(),
                    ),
            decreases iterations.as_int() - i.as_int(),
        {
            let ghost w = cols.as_int();
            let ghost m = T::max_int();
            let ghost pre = t.rows();
            let ghost cs = choose|cs: Seq<TunnelBuilderChoice>|
                cs.len() == i.as_int() && pre == advanced_many(Seq::empty(), cs, w, m);
            t.add_one_row(b);
            proof {
                let c = choose|c: TunnelBuilderChoice| t.rows() == advanced(pre, c, w, m);
                assert(t.rows() == seeded(pre, w).push(
                    narrowed_row(seeded(pre, w).last(), c, w, m),
                ));
                assert(t.rows()[0] == seeded(pre, w)[0]);
                crate::laws::lemma_advanced_many_snoc(Seq::empty(), cs, c, w, m);
                assert(t.rows() == advanced_many(Seq::empty(), cs.push(c), w, m));
            }
            i = i.sat_add(T::from_small(1));
        }
        proof {
            use_type_invariant(&t);
            t.lemma_rows_are_wall_models();
            assert forall|j: int| cols.as_int() >= 3 && 0 <= j < t.rows().len() implies (
            #[trigger] t.rows()[j]).1 >= 1 by {
                assert(row_wf(t.walls@[j].model(), t.width(), T::max_int()));
            }
        }
        t
    }

    /// Appends one generated row: clones the back row (seeding an empty
    /// buffer first), applies one narrowing step driven by the builder's
    /// choice, and pushes the result to the back.
    pub fn add_one_row<B: TunnelBuilder>(&mut self, b: &mut B)
        ensures
            final(self).width() == old(self).width(),
            final(self).player_col() == old(self).player_col(),
            exists|choice: TunnelBuilderChoice|
                final(self).rows() == advanced(
                    old(self).rows(),
                    choice,
                    old(self).width(),
                    T::max_int(),
                ),
            old(self).width() >= 3 ==> forall|i: int|
                0 <= i < final(self).rows().len() ==> (#[trigger] final(self).rows()[i]).1 >= 1,
    {
        let ghost w = old(self).width();
        let ghost m = T::max_int();
        let base = self.clone_last_row();
        proof {
            use_type_invariant(&*self);
            self.lemma_rows_are_wall_models();
            assert(self.rows().last() == base.model());
            assert(row_wf(self.walls@[self.walls@.len() - 1].model(), w, m));
        }
        let ghost basem = base.model();
        let mut new_row = base;
        if T::from_small(1).lt(new_row.gap_to_right_wall) {
            new_row.gap_to_right_wall = new_row.gap_to_right_wall.sat_sub(T::from_small(1));
        }
        let choice = b.choose_step();
        match choice {
            TunnelBuilderChoice::MoveLeftWall => {
                if new_row.left_wall.sat_add(T::from_small(3)).lt(self.screen_width) {
                    new_row.left_wall = new_row.left_wall.sat_add(T::from_small(1));
                }
            },
            TunnelBuilderChoice::MoveRightWall => {
                if new_row.gap_to_right_wall.eq(T::from_small(1)) {
                    new_row.left_wall = new_row.left_wall.sat_sub(T::from_small(1));
                }
            },
        }
        proof {
            assert(new_row.model() == narrowed_row(basem, choice, w, m));
            crate::laws::lemma_narrowed_row_wf(basem, choice, w, m);
        }
        let ghost wpre = self.walls@;
        let mut walls: VecDeque<TunnelWalls<T>> = VecDeque::new();
        std::mem::swap(&mut self.walls, &mut walls);
        walls.push_back(new_row);
        proof {
            assert forall|i: int| 0 <= i < walls@.len() implies row_wf(
                (#[trigger] walls@[i]).model(),
                w,
                m,
            ) by {
                if i < wpre.len() {
                    assert(walls@[i] == wpre[i]);
                } else {
                    assert(walls@[i] == new_row);
                }
            }
        }
        std::mem::swap(&mut self.walls, &mut walls);
        proof {
            self.lemma_rows_are_wall_models();
            assert(self.rows() =~= seeded(old(self).rows(), w).push(
                narrowed_row(seeded(old(self).rows(), w).last(), choice, w, m),
            ));
            assert(self.rows() == advanced(old(self).rows(), choice, w, m));
            use_type_invariant(&*self);
            assert forall|i: int| w >= 3 && 0 <= i < self.rows().len() implies (
            #[trigger] self.rows()[i]).1 >= 1 by {
                assert(row_wf(self.walls@[i].model(), w, m));
            }
        }
    }

    /// Clones the back row, seeding an empty buffer with the full-width
    /// single-gap row first.
    fn clone_last_row(&mut self) -> (r: TunnelWalls<T>)
        ensures
            final(self).width() == old(self).width(),
            final(self).player_col() == old(self).player_col(),
            final(self).rows() == seeded(old(self).rows(), old(self).width()),
            r.model() == seeded(old(self).rows(), old(self).width()).last(),
    {
        proof {
            use_type_invariant(&*self);
        }
        let n: usize = self.walls.len();
        if n > 0 {
            let r: TunnelWalls<T> = self.walls[n - 1];
            proof {
                self.lemma_rows_are_wall_models();
                assert(r.model() == self.rows()[n - 1]);
            }
            r
        } else {
            let seed = TunnelWalls {
                left_wall: T::from_small(0),
                gap_to_right_wall: self.screen_width.sat_sub(T::from_small(2)),
            };
            proof {
                assert(seed.model() == seed_row(old(self).width()));
                crate::laws::lemma_seed_row_wf(old(self).width(), T::max_int());
            }
            let mut walls: VecDeque<TunnelWalls<T>> = VecDeque::new();
            std::mem::swap(&mut self.walls, &mut walls);
            walls.push_back(seed);
            std::mem::swap(&mut self.walls, &mut walls);
            proof {
                self.lemma_rows_are_wall_models();
                assert(self.rows() =~= seq![seed_row(old(self).width())]);
            }
            seed
        }
    }

    /// Saturating move one column left: at column zero the player stays.
    pub fn move_player_left(&mut self)
        ensures
            final(self).player_col() == sat_sub_int(old(self).player_col(), 1),
            final(self).width() == old(self).width(),
            final(self).rows() == old(self).rows(),
    {
        proof {
            use_type_invariant(&*self);
        }
        self.player = self.player.sat_sub(T::from_small(1));
    }

    /// Saturating move one column right: at the index type's maximum the
    /// player stays.
    pub fn move_player_right(&mut self)
        ensures
            final(self).player_col() == sat_add_int(old(self).player_col(), 1, T::max_int()),
            final(self).width() == old(self).width(),
            final(self).rows() == old(self).rows(),
    {
        proof {
            use_type_invariant(&*self);
        }
        self.player = self.player.sat_add(T::from_small(1));
    }

    /// The collision test: true exactly when the buffer is non-empty and
    /// the player's column lies in a wall of the front row. An empty
    /// tunnel is collision-free by convention.
    pub fn is_collision(&self) -> (r: bool)
        ensures
            r == (self.rows().len() > 0 && wall_hit(
                self.rows()[0].0,
                self.rows()[0].1,
                self.player_col(),
                T::max_int(),
            )),
    {
        if self.walls.len() > 0 {
            let front: TunnelWalls<T> = self.walls[0];
            proof {
                self.lemma_rows_are_wall_models();
            }
            front.in_wall(self.player)
        } else {
            false
        }
    }

    /// A fresh cell enumerator over the buffered rows, positioned at the
    /// first row and column. A buffered row count the index type cannot
    /// represent degrades to an empty enumeration.
    pub fn iter<'a>(&'a self) -> (r: TunnelIterator<'a, T>)
        ensures
            r.player_col() == self.player_col(),
            r.width() == self.width(),
            r.rows_model() == self.rows(),
            r.n_rows() == if self.rows().len() <= T::max_int() {
                self.rows().len() as int
            } else {
                0int
            },
            r.pos_row() == 0,
            r.pos_col() == 0,
    {
        TunnelIterator::new(&self.walls, self.player, self.screen_width)
    }

    /// One tick of forward motion: appends a generated row, then drops
    /// the front row.
    pub fn step<B: TunnelBuilder>(&mut self, b: &mut B)
        ensures
            final(self).width() == old(self).width(),
            final(self).player_col() == old(self).player_col(),
            exists|choice: TunnelBuilderChoice|
                final(self).rows() == advanced(
                    old(self).rows(),
                    choice,
                    old(self).width(),
                    T::max_int(),
                ).drop_first(),
            final(self).rows().len() == if old(self).rows().len() == 0 {
                1int
            } else {
                old(self).rows().len() as int
            },
            old(self).width() >= 3 ==> forall|i: int|
                0 <= i < final(self).rows().len() ==> (#[trigger] final(self).rows()[i]).1 >= 1,
    {
        let ghost w = old(self).width();
        let ghost m = T::max_int();
        self.add_one_row(b);
        proof {
            use_type_invariant(&*self);
        }
        let ghost grown = self.rows();
        let ghost gwalls = self.walls@;
        let mut walls: VecDeque<TunnelWalls<T>> = VecDeque::new();
        std::mem::swap(&mut self.walls, &mut walls);
        let _ = walls.pop_front();
        proof {
            assert forall|i: int| 0 <= i < walls@.len() implies row_wf(
                (#[trigger] walls@[i]).model(),
                w,
                m,
            ) by {
                assert(walls@[i] == gwalls[i + 1]);
                assert(row_wf(gwalls[i + 1].model(), w, m));
            }
        }
        std::mem::swap(&mut self.walls, &mut walls);
        proof {
            self.lemma_rows_are_wall_models();
            let c = choose|c: TunnelBuilderChoice| grown == advanced(old(self).rows(), c, w, m);
            assert(self.rows() =~= grown.drop_first());
            assert(self.rows() == advanced(old(self).rows(), c, w, m).drop_first());
            use_type_invariant(&*self);
            assert forall|i: int| w >= 3 && 0 <= i < self.rows().len() implies (
            #[trigger] self.rows()[i]).1 >= 1 by {
                assert(row_wf(self.walls@[i].model(), w, m));
            }
        }
    }
}

} // verus!
