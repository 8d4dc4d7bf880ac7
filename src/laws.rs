//! Properties of the generation rule that hold for every grid.
use crate::cell::Cell;
use crate::universe::{all_dead, lemma_index_decomposes, lemma_index_in_range, GridModel};
use vstd::prelude::*;

verus! {

/// On a grid with no live cell, every position weighs 0.
proof fn lemma_dead_grid_weighs_nothing(m: GridModel, row: int, column: int)
    requires
        m.wf(),
        all_dead(m.cells),
    ensures
        m.weight_at(row, column) == 0,
{
    if m.in_bounds(row, column) {
        lemma_index_in_range(m.width as int, m.height as int, row, column);
    }
}

/// A grid with no live cell stays without live cells: nothing is born
/// without three live neighbours, and a dead grid offers none.
pub proof fn lemma_dead_grid_stays_dead(m: GridModel)
    requires
        m.wf(),
        all_dead(m.cells),
    ensures
        all_dead(m.next_generation()),
{
    assert forall|i: int| 0 <= i < m.next_generation().len() implies m.next_generation()[i]
        == Cell::Dead by {
        let w = m.width as int;
        let (r, c) = (i / w, i % w);
        lemma_dead_grid_weighs_nothing(m, r - 1, c);
        lemma_dead_grid_weighs_nothing(m, r - 1, c + 1);
        lemma_dead_grid_weighs_nothing(m, r, c + 1);
        lemma_dead_grid_weighs_nothing(m, r + 1, c + 1);
        lemma_dead_grid_weighs_nothing(m, r + 1, c);
        lemma_dead_grid_weighs_nothing(m, r + 1, c - 1);
        lemma_dead_grid_weighs_nothing(m, r, c - 1);
        lemma_dead_grid_weighs_nothing(m, r - 1, c - 1);
    }
}

/// The next state of a cell is decided by the previous generation in its
/// three-by-three neighbourhood alone: two grids of the same shape that agree
/// there give that cell the same next state, whatever any other cell holds
/// before or after the step.
pub proof fn lemma_next_cell_depends_on_neighborhood(
    a: GridModel,
    b: GridModel,
    row: int,
    column: int,
)
    requires
        a.wf(),
        b.wf(),
        a.width == b.width,
        a.height == b.height,
        a.in_bounds(row, column),
        forall|r: int, c: int|
            a.in_bounds(r, c) && row - 1 <= r <= row + 1 && column - 1 <= c <= column + 1
                ==> #[trigger] a.cell(r, c) == b.cell(r, c),
    ensures
        a.next_generation()[a.index_of(row, column)] == b.next_generation()[b.index_of(
            row,
            column,
        )],
{
    lemma_index_in_range(a.width as int, a.height as int, row, column);
    lemma_index_decomposes(a.width as int, row, column);
    assert(a.cell(row, column) == b.cell(row, column));
    assert(a.live_neighbors(row, column) == b.live_neighbors(row, column)) by {
        assert(a.weight_at(row - 1, column) == b.weight_at(row - 1, column));
        assert(a.weight_at(row - 1, column + 1) == b.weight_at(row - 1, column + 1));
        assert(a.weight_at(row, column + 1) == b.weight_at(row, column + 1));
        assert(a.weight_at(row + 1, column + 1) == b.weight_at(row + 1, column + 1));
        assert(a.weight_at(row + 1, column) == b.weight_at(row + 1, column));
        assert(a.weight_at(row + 1, column - 1) == b.weight_at(row + 1, column - 1));
        assert(a.weight_at(row, column - 1) == b.weight_at(row, column - 1));
        assert(a.weight_at(row - 1, column - 1) == b.weight_at(row - 1, column - 1));
    }
}

} // verus!
