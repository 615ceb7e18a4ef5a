//! The laws of the corridor: properties of the seeding and narrowing
//! rules that hold for every builder choice, stated over the
//! specification-level row model and proved once for all index types.

use vstd::prelude::*;

use crate::engine::TunnelBuilderChoice;
use crate::engine::advanced;
use crate::engine::advanced_many;
use crate::engine::narrowed_row;
use crate::engine::row_wf;
use crate::engine::seed_row;
use crate::geometry::wall_hit;
use crate::index::sat_add_int;
use crate::index::sat_sub_int;

verus! {

/// The seed row of any corridor is well formed for its width.
pub proof fn lemma_seed_row_wf(width: int, max: int)
    requires
        0 <= width <= max,
    ensures
        row_wf(seed_row(width), width, max),
{
}

/// One narrowing step keeps a well-formed row well formed, whatever the
/// builder chose: in particular the left wall never overtakes the right
/// edge, and the arithmetic never leaves the index type's range.
pub proof fn lemma_narrowed_row_wf(
    row: (int, int),
    choice: TunnelBuilderChoice,
    width: int,
    max: int,
)
    requires
        row_wf(row, width, max),
        0 <= width <= max,
    ensures
        row_wf(narrowed_row(row, choice, width, max), width, max),
{
}

/// Once a row's gap is at least one, no narrowing step takes it below
/// one, for either builder choice: the narrowing rule refuses to close
/// the corridor.
pub proof fn lemma_narrowed_row_gap_positive(
    row: (int, int),
    choice: TunnelBuilderChoice,
    width: int,
    max: int,
)
    requires
        row.1 >= 1,
    ensures
        narrowed_row(row, choice, width, max).1 >= 1,
{
}

/// Advancing through a sequence of choices and then once more is the
/// same as advancing once after the sequence: the fold over choices can
/// be peeled from the back.
pub proof fn lemma_advanced_many_snoc(
    rows: Seq<(int, int)>,
    choices: Seq<TunnelBuilderChoice>,
    choice: TunnelBuilderChoice,
    width: int,
    max: int,
)
    ensures
        advanced_many(rows, choices.push(choice), width, max) == advanced(
            advanced_many(rows, choices, width, max),
            choice,
            width,
            max,
        ),
    decreases choices.len(),
{
    let snoc = choices.push(choice);
    if choices.len() == 0 {
        assert(snoc[0] == choice);
        assert(snoc.drop_first() =~= Seq::<TunnelBuilderChoice>::empty());
        let once = advanced(rows, choice, width, max);
        assert(advanced_many(rows, snoc, width, max) == advanced_many(
            once,
            snoc.drop_first(),
            width,
            max,
        ));
        assert(advanced_many(once, Seq::empty(), width, max) == once);
        assert(advanced_many(rows, choices, width, max) == rows);
    } else {
        assert(snoc[0] == choices[0]);
        assert(snoc.drop_first() =~= choices.drop_first().push(choice));
        let head = advanced(rows, choices[0], width, max);
        assert(advanced_many(rows, snoc, width, max) == advanced_many(
            head,
            snoc.drop_first(),
            width,
            max,
        ));
        lemma_advanced_many_snoc(head, choices.drop_first(), choice, width, max);
        assert(advanced_many(rows, choices, width, max) == advanced_many(
            head,
            choices.drop_first(),
            width,
            max,
        ));
    }
}

/// At a corridor width of at least three, a freshly seeded front row is
/// passable exactly on the columns `1 ..= width - 2`.
pub proof fn lemma_seed_row_passable(width: int, max: int, col: int)
    requires
        3 <= width <= max,
    ensures
        !wall_hit(seed_row(width).0, seed_row(width).1, col, max) <==> 1 <= col <= width - 2,
{
}

/// The collision test holds exactly outside the passable range: a column
/// strictly right of the left wall and at most `left + gap` is free, and
/// both boundary columns collide. At widths below three the range is
/// empty and every column collides.
pub proof fn lemma_wall_hit_iff_outside_passable(row: (int, int), col: int, width: int, max: int)
    requires
        row_wf(row, width, max),
        0 <= width <= max,
    ensures
        wall_hit(row.0, row.1, col, max) <==> !(row.0 < col && col <= row.0 + row.1),
{
}

/// Moving left saturates at column zero: repeating the move there is
/// idempotent.
pub proof fn lemma_move_left_at_zero_idempotent(player: int)
    requires
        player == 0,
    ensures
        sat_sub_int(player, 1) == player,
{
}

/// Moving right saturates at the index type's maximum: repeating the
/// move there is idempotent.
pub proof fn lemma_move_right_at_max_idempotent(player: int, max: int)
    requires
        player == max,
        max >= 0,
    ensures
        sat_add_int(player, 1, max) == player,
{
}

/// A corridor of width zero collides at every column: its seed row, and
/// any row narrowed from it, leaves no passable column, so the first
/// step of such a tunnel puts a wall under every possible player
/// position.
pub proof fn lemma_zero_width_always_collides(choice: TunnelBuilderChoice, col: int, max: int)
    requires
        max >= 0,
    ensures
        wall_hit(seed_row(0).0, seed_row(0).1, col, max),
        wall_hit(
            narrowed_row(seed_row(0), choice, 0, max).0,
            narrowed_row(seed_row(0), choice, 0, max).1,
            col,
            max,
        ),
{
}

} // verus!
