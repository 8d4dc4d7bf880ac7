use vstd::prelude::*;

verus! {

/// The state of one grid position.
#[derive(Clone, Copy, Debug, PartialEq, Eq, Structural)]
pub enum Cell {
    Dead,
    Alive,
}

/// The single glyph that stands for a cell in rendered text.
pub open spec fn glyph(c: Cell) -> char {
    match c {
        Cell::Dead => '◻',
        Cell::Alive => '◼',
    }
}

/// How much a cell contributes to a neighbour count: `Dead` is 0, `Alive` is 1.
pub open spec fn weight(c: Cell) -> nat {
    match c {
        Cell::Dead => 0,
        Cell::Alive => 1,
    }
}

impl Cell {
    /// The cell's glyph as text.
    pub fn to_string(&self) -> (r: String)
        ensures
            r@ == seq![glyph(*self)],
    {
        let mut s = String::new();
        match self {
            Cell::Dead => {
                proof {
                    reveal_strlit("◻");
                }
                s.append("◻");
            },
            Cell::Alive => {
                proof {
                    reveal_strlit("◼");
                }
                s.append("◼");
            },
        }
        s
    }
}

/// The value a fresh grid is filled with.
pub fn something() -> (r: Cell)
    ensures
        r == Cell::Dead,
{
    Cell::Dead
}

} // verus!
