use crate::cell::{glyph, weight, Cell};
use rand::Rng;
use vstd::arithmetic::div_mod::lemma_fundamental_div_mod_converse;
use vstd::prelude::*;

verus! {

/// Draws for a reseed are taken uniformly from `[0, DRAW_RANGE)`.
pub const DRAW_RANGE: u32 = 100;

/// A draw above this value switches a cell on during a reseed.
pub const ALIVE_THRESHOLD: u32 = 65;

/// The mathematical picture of a grid: its dimensions and its cells in
/// row-major order.
pub ghost struct GridModel {
    pub width: nat,
    pub height: nat,
    pub cells: Seq<Cell>,
}

/// The life rule: what a cell becomes when it has `n` live neighbours.
pub open spec fn rule(c: Cell, n: nat) -> Cell {
    match c {
        Cell::Alive => if n == 2 || n == 3 { Cell::Alive } else { Cell::Dead },
        Cell::Dead => if n == 3 { Cell::Alive } else { Cell::Dead },
    }
}

/// Every cell of `cells` is dead.
pub open spec fn all_dead(cells: Seq<Cell>) -> bool {
    forall|i: int| 0 <= i < cells.len() ==> cells[i] == Cell::Dead
}

/// The cells after a reseed: a cell whose draw exceeds `threshold` is switched
/// on, every other cell keeps its state.
pub open spec fn reseeded(cells: Seq<Cell>, draws: Seq<u32>, threshold: u32) -> Seq<Cell> {
    Seq::new(cells.len(), |i: int| if draws[i] > threshold { Cell::Alive } else { cells[i] })
}

impl GridModel {
    /// The cell sequence holds exactly one cell per position.
    pub open spec fn wf(self) -> bool {
        self.cells.len() == self.width * self.height
    }

    /// Row-major position of `(row, column)` in the cell sequence.
    pub open spec fn index_of(self, row: int, column: int) -> int {
        row * self.width + column
    }

    pub open spec fn in_bounds(self, row: int, column: int) -> bool {
        0 <= row < self.height && 0 <= column < self.width
    }

    pub open spec fn cell(self, row: int, column: int) -> Cell {
        self.cells[self.index_of(row, column)]
    }

    /// The weight of the cell at `(row, column)`; a position off the grid
    /// counts as 0, so edges do not wrap.
    pub open spec fn weight_at(self, row: int, column: int) -> nat {
        if self.in_bounds(row, column) {
            weight(self.cell(row, column))
        } else {
            0
        }
    }

    /// Number of live cells among the up to eight positions around `(row, column)`.
    pub open spec fn live_neighbors(self, row: int, column: int) -> nat {
        self.weight_at(row - 1, column) + self.weight_at(row - 1, column + 1)
            + self.weight_at(row, column + 1) + self.weight_at(row + 1, column + 1)
            + self.weight_at(row + 1, column) + self.weight_at(row + 1, column - 1)
            + self.weight_at(row, column - 1) + self.weight_at(row - 1, column - 1)
    }

    /// The next generation: every cell is decided by the rule from the
    /// current generation alone.
    pub open spec fn next_generation(self) -> Seq<Cell> {
        Seq::new(
            self.cells.len(),
            |i: int|
                rule(
                    self.cells[i],
                    self.live_neighbors(i / self.width as int, i % self.width as int),
                ),
        )
    }

    /// One rendered row: a glyph per cell, then a line break.
    pub open spec fn row_text(self, row: int) -> Seq<char> {
        Seq::new(self.width, |c: int| glyph(self.cell(row, c))).push('\n')
    }

    /// The first `n` rendered rows.
    pub open spec fn rows_text(self, n: nat) -> Seq<char>
        decreases n,
    {
        if n == 0 {
            Seq::empty()
        } else {
            self.rows_text((n - 1) as nat) + self.row_text(n - 1)
        }
    }

    /// The whole grid as text.
    pub open spec fn rendered(self) -> Seq<char> {
        self.rows_text(self.height)
    }
}

/// A position inside a `width` by `height` grid has a row-major index inside
/// the cell sequence.
pub proof fn lemma_index_in_range(width: int, height: int, row: int, column: int)
    requires
        0 <= row < height,
        0 <= column < width,
    ensures
        0 <= row * width + column < width * height,
{
    assert(0 <= row * width + column < width * height) by (nonlinear_arith)
        requires
            0 <= row < height,
            0 <= column < width,
    ;
}

/// The row-major index of `(row, column)` gives back its row and column.
pub proof fn lemma_index_decomposes(width: int, row: int, column: int)
    requires
        0 <= row,
        0 <= column < width,
    ensures
        (row * width + column) / width == row,
        (row * width + column) % width == column,
{
    lemma_fundamental_div_mod_converse(row * width + column, width, row, column);
}

/// Relies on rand::thread_rng and Rng::gen_range (rand 0.7): a value drawn
/// uniformly from `[0, bound)`. `gen_range` panics only on an empty range,
/// which `bound > 0` rules out; `thread_rng` panics only where the operating
/// system cannot seed it.
#[verifier::external_body]
fn random_below(bound: u32) -> (r: u32)
    requires
        bound > 0,
    ensures
        r < bound,
{
    rand::thread_rng().gen_range(0, bound)
}

/// A grid of cells with hard edges.
pub struct Universe {
    width: u32,
    height: u32,
    cells: Vec<Cell>,
}

impl View for Universe {
    type V = GridModel;

    closed spec fn view(&self) -> GridModel {
        GridModel { width: self.width as nat, height: self.height as nat, cells: self.cells@ }
    }
}

impl Universe {
    /// The grid holds one cell per position and every index fits in `usize`.
    pub open spec fn wf(&self) -> bool {
        &&& self@.wf()
        &&& self@.width * self@.height <= usize::MAX
    }

    /// A `width` by `height` grid of dead cells.
    pub fn with_dimensions(width: u32, height: u32) -> (u: Universe)
        requires
            width * height <= usize::MAX,
        ensures
            u.wf(),
            u@.width == width,
            u@.height == height,
            all_dead(u@.cells),
    {
        let n: usize = (width as usize) * (height as usize);
        let mut cells: Vec<Cell> = Vec::new();
        let mut i: usize = 0;
        while i < n
            invariant
                i <= n,
                cells@.len() == i,
                all_dead(cells@),
            decreases n - i,
        {
            cells.push(Cell::Dead);
            i += 1;
        }
        Universe { width, height, cells }
    }

    /// A `size` by `size` grid of dead cells.
    pub fn new(size: u32) -> (u: Universe)
        requires
            size * size <= usize::MAX,
        ensures
            u.wf(),
            u@.width == size,
            u@.height == size,
            all_dead(u@.cells),
    {
        Universe::with_dimensions(size, size)
    }

    /// A grid with the given cells in row-major order, or `None` when their
    /// number is not `width * height`.
    pub fn from_cells(width: u32, height: u32, cells: Vec<Cell>) -> (r: Option<Universe>)
        ensures
            r.is_some() <==> cells@.len() == width * height,
            r matches Some(u) ==> u.wf() && u@ == (GridModel {
                width: width as nat,
                height: height as nat,
                cells: cells@,
            }),
    {
        let len = cells.len();
        match (width as usize).checked_mul(height as usize) {
            Some(n) => {
                if len == n {
                    Some(Universe { width, height, cells })
                } else {
                    None
                }
            },
            None => None,
        }
    }

    pub fn width(&self) -> (r: u32)
        ensures
            r == self@.width,
    {
        self.width
    }

    pub fn height(&self) -> (r: u32)
        ensures
            r == self@.height,
    {
        self.height
    }

    pub fn cells(&self) -> (r: &[Cell])
        ensures
            r@ == self@.cells,
    {
        self.cells.as_slice()
    }

    /// Row-major index of `(row, column)`.
    pub fn get_index(&self, row: u32, column: u32) -> (r: usize)
        requires
            self.wf(),
            row < self@.height,
            column < self@.width,
        ensures
            r == self@.index_of(row as int, column as int),
            r < self@.cells.len(),
    {
        proof {
            lemma_index_in_range(self.width as int, self.height as int, row as int, column as int);
        }
        (row as usize) * (self.width as usize) + (column as usize)
    }

    /// Index of the cell above, absent on the top row.
    pub fn get_index_above(&self, row: u32, column: u32) -> (r: Option<usize>)
        requires
            self.wf(),
            row < self@.height,
            column < self@.width,
        ensures
            r.is_none() <==> row == 0,
            r matches Some(i) ==> i == self@.index_of(row - 1, column as int),
    {
        if row == 0 {
            None
        } else {
            Some(self.get_index(row - 1, column))
        }
    }

    /// Index of the cell to the right, absent on the last column.
    pub fn get_index_right(&self, row: u32, column: u32) -> (r: Option<usize>)
        requires
            self.wf(),
            row < self@.height,
            column < self@.width,
        ensures
            r.is_none() <==> column == self@.width - 1,
            r matches Some(i) ==> i == self@.index_of(row as int, column + 1),
    {
        if column >= self.width - 1 {
            None
        } else {
            Some(self.get_index(row, column + 1))
        }
    }

    /// Index of the cell below, absent on the bottom row.
    pub fn get_index_below(&self, row: u32, column: u32) -> (r: Option<usize>)
        requires
            self.wf(),
            row < self@.height,
            column < self@.width,
        ensures
            r.is_none() <==> row == self@.height - 1,
            r matches Some(i) ==> i == self@.index_of(row + 1, column as int),
    {
        if row >= self.height - 1 {
            None
        } else {
            Some(self.get_index(row + 1, column))
        }
    }

    /// Index of the cell to the left, absent on the first column.
    pub fn get_index_left(&self, row: u32, column: u32) -> (r: Option<usize>)
        requires
            self.wf(),
            row < self@.height,
            column < self@.width,
        ensures
            r.is_none() <==> column == 0,
            r matches Some(i) ==> i == self@.index_of(row as int, column - 1),
    {
        if column == 0 {
            None
        } else {
            Some(self.get_index(row, column - 1))
        }
    }

    /// Index of the cell above and to the right.
    pub fn get_index_above_right(&self, row: u32, column: u32) -> (r: Option<usize>)
        requires
            self.wf(),
            row < self@.height,
            column < self@.width,
        ensures
            r.is_none() <==> (row == 0 || column == self@.width - 1),
            r matches Some(i) ==> i == self@.index_of(row - 1, column + 1),
    {
        if row == 0 || column >= self.width - 1 {
            None
        } else {
            Some(self.get_index(row - 1, column + 1))
        }
    }

    /// Index of the cell below and to the right.
    pub fn get_index_below_right(&self, row: u32, column: u32) -> (r: Option<usize>)
        requires
            self.wf(),
            row < self@.height,
            column < self@.width,
        ensures
            r.is_none() <==> (row == self@.height - 1 || column == self@.width - 1),
            r matches Some(i) ==> i == self@.index_of(row + 1, column + 1),
    {
        if row == self.height - 1 || column == self.width - 1 {
            None
        } else {
            Some(self.get_index(row + 1, column + 1))
        }
    }

    /// Index of the cell below and to the left.
    pub fn get_index_below_left(&self, row: u32, column: u32) -> (r: Option<usize>)
        requires
            self.wf(),
            row < self@.height,
            column < self@.width,
        ensures
            r.is_none() <==> (row == self@.height - 1 || column == 0),
            r matches Some(i) ==> i == self@.index_of(row + 1, column - 1),
    {
        if row == self.height - 1 || column == 0 {
            None
        } else {
            Some(self.get_index(row + 1, column - 1))
        }
    }

    /// Index of the cell above and to the left.
    pub fn get_index_above_left(&self, row: u32, column: u32) -> (r: Option<usize>)
        requires
            self.wf(),
            row < self@.height,
            column < self@.width,
        ensures
            r.is_none() <==> (row == 0 || column == 0),
            r matches Some(i) ==> i == self@.index_of(row - 1, column - 1),
    {
        if row == 0 || column == 0 {
            None
        } else {
            Some(self.get_index(row - 1, column - 1))
        }
    }

    /// The weight of the cell at `index`, or 0 where there is no cell.
    fn weight_of(&self, index: Option<usize>) -> (r: u8)
        requires
            index matches Some(i) ==> i < self@.cells.len(),
        ensures
            r as nat == match index {
                Some(i) => weight(self@.cells[i as int]),
                None => 0,
            },
    {
        match index {
            Some(i) => match self.cells[i] {
                Cell::Dead => 0,
                Cell::Alive => 1,
            },
            None => 0,
        }
    }

    /// Number of live cells around `(row, column)`, edges not wrapping.
    pub fn live_neighbor_count(&self, row: u32, column: u32) -> (r: u8)
        requires
            self.wf(),
            row < self@.height,
            column < self@.width,
        ensures
            r as nat == self@.live_neighbors(row as int, column as int),
            r <= 8,
    {
        let above = self.get_index_above(row, column);
        let above_right = self.get_index_above_right(row, column);
        let right = self.get_index_right(row, column);
        let below_right = self.get_index_below_right(row, column);
        let below = self.get_index_below(row, column);
        let below_left = self.get_index_below_left(row, column);
        let left = self.get_index_left(row, column);
        let above_left = self.get_index_above_left(row, column);
        proof {
            let w = self.width as int;
            let h = self.height as int;
            let (r, c) = (row as int, column as int);
            if row > 0 {
                lemma_index_in_range(w, h, r - 1, c);
            }
            if row > 0 && c + 1 < w {
                lemma_index_in_range(w, h, r - 1, c + 1);
            }
            if c + 1 < w {
                lemma_index_in_range(w, h, r, c + 1);
            }
            if r + 1 < h && c + 1 < w {
                lemma_index_in_range(w, h, r + 1, c + 1);
            }
            if r + 1 < h {
                lemma_index_in_range(w, h, r + 1, c);
            }
            if r + 1 < h && c > 0 {
                lemma_index_in_range(w, h, r + 1, c - 1);
            }
            if c > 0 {
                lemma_index_in_range(w, h, r, c - 1);
            }
            if r > 0 && c > 0 {
                lemma_index_in_range(w, h, r - 1, c - 1);
            }
        }
        self.weight_of(above) + self.weight_of(above_right) + self.weight_of(right)
            + self.weight_of(below_right) + self.weight_of(below) + self.weight_of(below_left)
            + self.weight_of(left) + self.weight_of(above_left)
    }

    /// Advances the grid one generation. Every new cell is computed from the
    /// previous generation, collected in a separate buffer, and the buffer
    /// replaces the cells only once the scan is complete.
    pub fn tick(&mut self)
        requires
            old(self).wf(),
        ensures
            final(self).wf(),
            final(self)@.width == old(self)@.width,
            final(self)@.height == old(self)@.height,
            final(self)@.cells == old(self)@.next_generation(),
    {
        let mut next: Vec<Cell> = Vec::new();
        let mut row: u32 = 0;
        while row < self.height
            invariant
                self.wf(),
                row <= self@.height,
                next@.len() == row * self@.width,
                forall|i: int| 0 <= i < next@.len() ==> next@[i] == self@.next_generation()[i],
            decreases self.height - row,
        {
            let mut column: u32 = 0;
            while column < self.width
                invariant
                    self.wf(),
                    row < self@.height,
                    column <= self@.width,
                    next@.len() == row * self@.width + column,
                    forall|i: int| 0 <= i < next@.len() ==> next@[i] == self@.next_generation()[i],
                decreases self.width - column,
            {
                let index = self.get_index(row, column);
                let cell = self.cells[index];
                let live_neighbors = self.live_neighbor_count(row, column);
                let next_cell = match cell {
                    Cell::Alive => if live_neighbors < 2 || live_neighbors > 3 {
                        Cell::Dead
                    } else {
                        Cell::Alive
                    },
                    Cell::Dead => if live_neighbors == 3 {
                        Cell::Alive
                    } else {
                        Cell::Dead
                    },
                };
                proof {
                    lemma_index_decomposes(self.width as int, row as int, column as int);
                }
                next.push(next_cell);
                column += 1;
            }
            assert(next@.len() == (row + 1) * self@.width) by (nonlinear_arith)
                requires
                    next@.len() == row * self@.width + self@.width,
            ;
            row += 1;
        }
        assert(next@.len() == self@.cells.len()) by (nonlinear_arith)
            requires
                next@.len() == row * self@.width,
                row == self@.height,
                self@.cells.len() == self@.width * self@.height,
        ;
        assert(next@ =~= self@.next_generation());
        self.cells = next;
    }

    /// The grid as text: one line per row, one glyph per cell, every line
    /// ended by a line break.
    pub fn to_string(&self) -> (r: String)
        requires
            self.wf(),
        ensures
            r@ == self@.rendered(),
    {
        let mut text = String::new();
        let mut row: u32 = 0;
        while row < self.height
            invariant
                self.wf(),
                row <= self@.height,
                text@ == self@.rows_text(row as nat),
            decreases self.height - row,
        {
            let mut column: u32 = 0;
            while column < self.width
                invariant
                    self.wf(),
                    row < self@.height,
                    column <= self@.width,
                    text@ == self@.rows_text(row as nat) + Seq::new(
                        column as nat,
                        |c: int| glyph(self@.cell(row as int, c)),
                    ),
                decreases self.width - column,
            {
                let index = self.get_index(row, column);
                let g = self.cells[index].to_string();
                text.append(g.as_str());
                assert(text@ =~= self@.rows_text(row as nat) + Seq::new(
                    (column + 1) as nat,
                    |c: int| glyph(self@.cell(row as int, c)),
                ));
                column += 1;
            }
            proof {
                reveal_strlit("\n");
            }
            text.append("\n");
            assert(text@ =~= self@.rows_text((row + 1) as nat));
            row += 1;
        }
        text
    }

    /// The grid as text; see [`Universe::to_string`].
    pub fn render(&self) -> (r: String)
        requires
            self.wf(),
        ensures
            r@ == self@.rendered(),
    {
        self.to_string()
    }

    /// Switches on each cell whose draw exceeds `threshold`; every other cell
    /// keeps its state. `draws` holds one draw per cell, in row-major order.
    pub fn reseed(&mut self, draws: &Vec<u32>, threshold: u32)
        requires
            old(self).wf(),
            draws@.len() == old(self)@.cells.len(),
        ensures
            final(self).wf(),
            final(self)@.width == old(self)@.width,
            final(self)@.height == old(self)@.height,
            final(self)@.cells == reseeded(old(self)@.cells, draws@, threshold),
    {
        let mut cells: Vec<Cell> = Vec::new();
        let mut i: usize = 0;
        while i < self.cells.len()
            invariant
                self.wf(),
                draws@.len() == self@.cells.len(),
                i <= self@.cells.len(),
                cells@ == reseeded(self@.cells, draws@, threshold).subrange(0, i as int),
            decreases self@.cells.len() - i,
        {
            let next_cell = if draws[i] > threshold {
                Cell::Alive
            } else {
                self.cells[i]
            };
            cells.push(next_cell);
            assert(cells@ =~= reseeded(self@.cells, draws@, threshold).subrange(0, i + 1));
            i += 1;
        }
        assert(cells@ =~= reseeded(self@.cells, draws@, threshold));
        self.cells = cells;
    }

    /// Reseeds from fresh random draws in `[0, range)`: each cell is switched
    /// on or keeps its state, and no cell is ever switched off.
    pub fn randomize_in(&mut self, range: u32, threshold: u32)
        requires
            old(self).wf(),
            range > 0,
        ensures
            final(self).wf(),
            final(self)@.width == old(self)@.width,
            final(self)@.height == old(self)@.height,
            final(self)@.cells.len() == old(self)@.cells.len(),
            forall|i: int|
                0 <= i < old(self)@.cells.len() ==> #[trigger] final(self)@.cells[i] == Cell::Alive
                    || final(self)@.cells[i] == old(self)@.cells[i],
            threshold + 1 >= range ==> final(self)@.cells == old(self)@.cells,
    {
        let mut draws: Vec<u32> = Vec::new();
        let mut i: usize = 0;
        while i < self.cells.len()
            invariant
                range > 0,
                i <= self@.cells.len(),
                draws@.len() == i,
                forall|k: int| 0 <= k < i ==> #[trigger] draws@[k] < range,
            decreases self@.cells.len() - i,
        {
            draws.push(random_below(range));
            i += 1;
        }
        let ghost before = self@.cells;
        self.reseed(&draws, threshold);
        assert(threshold + 1 >= range ==> self@.cells =~= before);
    }

    /// Reseeds with draws in `[0, DRAW_RANGE)` against `ALIVE_THRESHOLD`.
    pub fn randomize(&mut self)
        requires
            old(self).wf(),
        ensures
            final(self).wf(),
            final(self)@.width == old(self)@.width,
            final(self)@.height == old(self)@.height,
            final(self)@.cells.len() == old(self)@.cells.len(),
            forall|i: int|
                0 <= i < old(self)@.cells.len() ==> #[trigger] final(self)@.cells[i] == Cell::Alive
                    || final(self)@.cells[i] == old(self)@.cells[i],
    {
        self.randomize_in(DRAW_RANGE, ALIVE_THRESHOLD);
    }
} // impl Universe

} // verus!
