use vstd::prelude::*;

verus! {

/// The state of one grid position.
#[derive(Clone, Copy, Debug, PartialEq, Eq, Structural)]
pub enum LifeCell {
    Dead,
    Alive,
}

/// Glyph that renders a dead cell.
pub const DEAD_GLYPH: char = '◻';

/// Glyph that renders a live cell.
pub const ALIVE_GLYPH: char = '◼';

impl LifeCell {
    /// Numeric weight of a cell in a neighbour count: 0 when dead, 1 when alive.
    pub open spec fn spec_weight(self) -> int {
        match self {
            LifeCell::Dead => 0,
            LifeCell::Alive => 1,
        }
    }

    /// The glyph that stands for this cell in a rendering.
    pub open spec fn spec_glyph(self) -> char {
        match self {
            LifeCell::Dead => DEAD_GLYPH,
            LifeCell::Alive => ALIVE_GLYPH,
        }
    }

    /// The state of a cell in the next generation, given its live neighbours.
    /// The rules apply in order; the first that matches decides.
    pub open spec fn spec_next(self, neighbours: int) -> LifeCell {
        match self {
            LifeCell::Alive => if neighbours < 2 {
                // underpopulation
                LifeCell::Dead
            } else if neighbours == 2 || neighbours == 3 {
                // survival
                LifeCell::Alive
            } else {
                // overpopulation
                LifeCell::Dead
            },
            LifeCell::Dead => if neighbours == 3 {
                // birth
                LifeCell::Alive
            } else {
                LifeCell::Dead
            },
        }
    }

    /// Numeric weight of a cell in a neighbour count: 0 when dead, 1 when alive.
    pub fn weight(self) -> (r: u8)
        ensures
            r as int == self.spec_weight(),
    {
        match self {
            LifeCell::Dead => 0,
            LifeCell::Alive => 1,
        }
    }

    /// The glyph that stands for this cell in a rendering, as a string.
    pub fn glyph(self) -> (r: &'static str)
        ensures
            r@ == seq![self.spec_glyph()],
    {
        proof {
            reveal_strlit("◻");
            reveal_strlit("◼");
        }
        match self {
            LifeCell::Dead => "◻",
            LifeCell::Alive => "◼",
        }
    }

    /// The state of this cell in the next generation, given how many of its
    /// neighbours are alive.
    pub fn next(self, neighbours: u8) -> (r: LifeCell)
        ensures
            r == self.spec_next(neighbours as int),
    {
        match (self, neighbours) {
            (LifeCell::Alive, n) if n < 2 => LifeCell::Dead,
            (LifeCell::Alive, 2) | (LifeCell::Alive, 3) => LifeCell::Alive,
            (LifeCell::Alive, n) if n > 3 => LifeCell::Dead,
            (LifeCell::Dead, 3) => LifeCell::Alive,
            (otherwise, _) => otherwise,
        }
    }
}

} // verus!
