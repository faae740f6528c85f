use vstd::prelude::*;
use vstd::string::StringExecFns;
use vstd::arithmetic::div_mod::lemma_fundamental_div_mod_converse;
use crate::cell::LifeCell;

verus! {

/// Width of the grid that `Universe::new` builds.
pub const DEFAULT_WIDTH: u32 = 64;

/// Height of the grid that `Universe::new` builds.
pub const DEFAULT_HEIGHT: u32 = 64;

/// Mathematical model of a grid: its dimensions and its cells in row-major
/// order (the cell at `(row, col)` has index `row * width + col`).
pub struct GridModel {
    pub width: nat,
    pub height: nat,
    pub cells: Seq<LifeCell>,
}

/// The cells of the starting pattern on `n` cells: cell `i` is alive exactly
/// when `i` is divisible by 2 or by 7.
pub open spec fn initial_cells(n: nat) -> Seq<LifeCell> {
    Seq::new(n, |i: int| if i % 2 == 0 || i % 7 == 0 { LifeCell::Alive } else { LifeCell::Dead })
}

/// Sum of the first `n` of the three values `a`, `b`, `d` (all three when `n >= 3`).
pub open spec fn sum_first3(a: int, b: int, d: int, n: int) -> int {
    (if n > 0 { a } else { 0 }) + (if n > 1 { b } else { 0 }) + (if n > 2 { d } else { 0 })
}

impl GridModel {
    /// Both dimensions are positive and there is exactly one cell per position.
    pub open spec fn wf(self) -> bool {
        &&& self.width > 0
        &&& self.height > 0
        &&& self.cells.len() == self.width * self.height
    }

    /// Linear offset of `(row, col)`.
    pub open spec fn index(self, row: int, col: int) -> int {
        row * self.width + col
    }

    /// The cell at `(row, col)`.
    pub open spec fn cell(self, row: int, col: int) -> LifeCell {
        self.cells[self.index(row, col)]
    }

    /// What the position at offset `(dr, dc)` from `(row, col)`, wrapping
    /// around both edges, adds to the live-neighbour count of `(row, col)`.
    /// The offset `(0, 0)` is the cell itself and adds nothing.
    pub open spec fn neighbour_weight(self, row: int, col: int, dr: int, dc: int) -> int {
        if dr == 0 && dc == 0 {
            0
        } else {
            self.cell((row + dr) % (self.height as int), (col + dc) % (self.width as int)).spec_weight()
        }
    }

    /// Weight of the row at offset `dr`, over the first `n` of the column
    /// offsets `width - 1`, `0`, `1`.
    pub open spec fn row_weight(self, row: int, col: int, dr: int, n: int) -> int {
        let w = self.width as int;
        sum_first3(
            self.neighbour_weight(row, col, dr, w - 1),
            self.neighbour_weight(row, col, dr, 0),
            self.neighbour_weight(row, col, dr, 1),
            n,
        )
    }

    /// Live neighbours of `(row, col)` over the first `n` of the row offsets
    /// `height - 1`, `0`, `1`.
    pub open spec fn partial_count(self, row: int, col: int, n: int) -> int {
        let h = self.height as int;
        sum_first3(
            self.row_weight(row, col, h - 1, 3),
            self.row_weight(row, col, 0, 3),
            self.row_weight(row, col, 1, 3),
            n,
        )
    }

    /// Number of live cells among the eight around `(row, col)`: row offsets
    /// `height - 1`, `0`, `1` and column offsets `width - 1`, `0`, `1`, taken
    /// modulo the dimensions, without the offset pair `(0, 0)`.
    pub open spec fn neighbour_count(self, row: int, col: int) -> int {
        self.partial_count(row, col, 3)
    }

    /// The text of the grid: `height` lines of `width` glyphs each, one per
    /// cell in row-major order, every line ended by a line break.
    pub open spec fn render(self) -> Seq<char> {
        let w = self.width as int;
        Seq::new(
            self.height * (self.width + 1),
            |p: int|
                if p % (w + 1) == w {
                    '\n'
                } else {
                    self.cell(p / (w + 1), p % (w + 1)).spec_glyph()
                },
        )
    }

    /// The grid one generation later: every cell follows the rules, with its
    /// neighbours counted in this grid.
    pub open spec fn next_generation(self) -> GridModel {
        let w = self.width as int;
        GridModel {
            width: self.width,
            height: self.height,
            cells: Seq::new(
                self.cells.len(),
                |i: int| self.cells[i].spec_next(self.neighbour_count(i / w, i % w)),
            ),
        }
    }
}

/// The linear offset `row * width + col` of a position inside a grid of the
/// given dimensions lies before `width * height`, and splits back into the
/// row (quotient) and the column (remainder).
pub proof fn lemma_index_in_grid(row: int, col: int, width: int, height: int)
    requires
        0 <= row < height,
        0 <= col < width,
    ensures
        0 <= row * width + col < width * height,
        (row * width + col) / width == row,
        (row * width + col) % width == col,
{
    assert(0 <= row * width + col < width * height) by (nonlinear_arith)
        requires
            0 <= row < height,
            0 <= col < width,
    ;
    lemma_fundamental_div_mod_converse(row * width + col, width, row, col);
}

/// A Game of Life grid that wraps around at its edges.
pub struct Universe {
    width: u32,
    height: u32,
    cells: Vec<LifeCell>,
}

impl View for Universe {
    type V = GridModel;

    closed spec fn view(&self) -> GridModel {
        GridModel { width: self.width as nat, height: self.height as nat, cells: self.cells@ }
    }
}

impl Universe {
    /// The model is well formed and every linear offset fits in a `u32`.
    pub open spec fn wf(&self) -> bool {
        &&& self@.wf()
        &&& self@.width * self@.height <= u32::MAX
    }

    /// Builds the 64×64 starting grid: cell `i` is alive exactly when `i` is
    /// divisible by 2 or by 7.
    pub fn new() -> (r: Universe)
        ensures
            r.wf(),
            r@.width == DEFAULT_WIDTH,
            r@.height == DEFAULT_HEIGHT,
            r@.cells == initial_cells((DEFAULT_WIDTH * DEFAULT_HEIGHT) as nat),
    {
        let width: u32 = DEFAULT_WIDTH;
        let height: u32 = DEFAULT_HEIGHT;
        let n: u32 = width * height;
        let mut cells: Vec<LifeCell> = Vec::new();
        let mut i: u32 = 0;
        while i < n
            invariant
                n == DEFAULT_WIDTH * DEFAULT_HEIGHT,
                i <= n,
                cells@ == initial_cells(i as nat),
            decreases n - i,
        {
            let cell = if i % 2 == 0 || i % 7 == 0 {
                LifeCell::Alive
            } else {
                LifeCell::Dead
            };
            cells.push(cell);
            i = i + 1;
            assert(cells@ =~= initial_cells(i as nat));
        }
        Universe { width, height, cells }
    }

    /// Builds a grid of the given dimensions from its cells in row-major
    /// order. Fails when a dimension is zero, when `width * height` does not
    /// fit in a `u32`, or when there is not exactly one cell per position.
    pub fn from_cells(width: u32, height: u32, cells: Vec<LifeCell>) -> (r: Option<Universe>)
        ensures
            r is Some <==> (width > 0 && height > 0 && width * height <= u32::MAX && cells@.len()
                == width * height),
            r matches Some(u) ==> u.wf() && u@ == (GridModel {
                width: width as nat,
                height: height as nat,
                cells: cells@,
            }),
    {
        if width == 0 || height == 0 {
            return None;
        }
        assert(width as u64 * height as u64 <= u32::MAX as u64 * u32::MAX as u64) by (nonlinear_arith)
            requires
                width <= u32::MAX,
                height <= u32::MAX,
        ;
        let n: u64 = width as u64 * height as u64;
        if n > u32::MAX as u64 || cells.len() as u64 != n {
            return None;
        }
        Some(Universe { width, height, cells })
    }

    /// Number of columns.
    pub fn width(&self) -> (r: u32)
        ensures
            r == self@.width,
    {
        self.width
    }

    /// Number of rows.
    pub fn height(&self) -> (r: u32)
        ensures
            r == self@.height,
    {
        self.height
    }

    /// The cells in row-major order.
    pub fn cells(&self) -> (r: &[LifeCell])
        ensures
            r@ == self@.cells,
    {
        self.cells.as_slice()
    }

    /// The cell at `(row, col)`.
    pub fn get_cell(&self, row: u32, col: u32) -> (r: LifeCell)
        requires
            self.wf(),
            row < self@.height,
            col < self@.width,
        ensures
            r == self@.cell(row as int, col as int),
    {
        let id = self.get_index(row, col);
        self.cells[id]
    }

    /// Linear offset of `(y, x)` in the cell buffer.
    fn get_index(&self, y: u32, x: u32) -> (r: usize)
        requires
            self.wf(),
            y < self@.height,
            x < self@.width,
        ensures
            r == self@.index(y as int, x as int),
            r < self@.cells.len(),
    {
        proof {
            lemma_index_in_grid(y as int, x as int, self.width as int, self.height as int);
        }
        (y * self.width + x) as usize
    }

    /// Number of live cells among the eight around `(y, x)`, wrapping around
    /// the edges of the grid.
    pub fn neighbour_alive_count(&self, y: u32, x: u32) -> (r: u8)
        requires
            self.wf(),
            y < self@.height,
            x < self@.width,
        ensures
            r as int == self@.neighbour_count(y as int, x as int),
            r <= 8,
    {
        let rows: [u32; 3] = [self.height - 1, 0, 1];
        let cols: [u32; 3] = [self.width - 1, 0, 1];
        let mut c: u8 = 0;
        let mut k: usize = 0;
        while k < 3
            invariant
                self.wf(),
                y < self@.height,
                x < self@.width,
                rows@ == seq![(self.height - 1) as u32, 0u32, 1u32],
                cols@ == seq![(self.width - 1) as u32, 0u32, 1u32],
                k <= 3,
                c as int == self@.partial_count(y as int, x as int, k as int),
                c <= 3 * k,
            decreases 3 - k,
        {
            let row = rows[k];
            let mut l: usize = 0;
            let ghost before = c as int;
            while l < 3
                invariant
                    self.wf(),
                    y < self@.height,
                    x < self@.width,
                    cols@ == seq![(self.width - 1) as u32, 0u32, 1u32],
                    k < 3,
                    row == rows@[k as int],
                    l <= 3,
                    c as int == before + self@.row_weight(y as int, x as int, row as int, l as int),
                    before <= 3 * k,
                    c <= 3 * k + l,
                decreases 3 - l,
            {
                let col = cols[l];
                if row == 0 && col == 0 {
                    l = l + 1;
                    continue;
                }
                let nr = ((row as u64 + y as u64) % self.height as u64) as u32;
                let nc = ((col as u64 + x as u64) % self.width as u64) as u32;
                let idx = self.get_index(nr, nc);
                c = c + self.cells[idx].weight();
                l = l + 1;
            }
            k = k + 1;
        }
        c
    }

    /// The grid as text: one line per row, one glyph per cell.
    pub fn render(&self) -> (r: String)
        requires
            self.wf(),
        ensures
            r@ == self@.render(),
    {
        let ghost model = self@;
        let ghost w = model.width as int;
        let mut out = String::new();
        let mut y: u32 = 0;
        while y < self.height
            invariant
                self.wf(),
                self@ == model,
                w == model.width,
                y <= model.height,
                out@ == model.render().take(y * (w + 1)),
            decreases self.height - y,
        {
            let mut x: u32 = 0;
            while x < self.width
                invariant
                    self.wf(),
                    self@ == model,
                    w == model.width,
                    y < model.height,
                    x <= model.width,
                    out@ == model.render().take(y * (w + 1) + x),
                decreases self.width - x,
            {
                let id = self.get_index(y, x);
                proof {
                    lemma_fundamental_div_mod_converse(y * (w + 1) + x, w + 1, y as int, x as int);
                    assert(y * (w + 1) + x < model.height * (model.width + 1)) by (nonlinear_arith)
                        requires
                            y < model.height,
                            x < model.width,
                            w == model.width,
                    ;
                }
                out.append(self.cells[id].glyph());
                x = x + 1;
                assert(out@ =~= model.render().take(y * (w + 1) + x));
            }
            proof {
                reveal_strlit("\n");
                lemma_fundamental_div_mod_converse(y * (w + 1) + w, w + 1, y as int, w);
                assert(y * (w + 1) + w < model.height * (model.width + 1)) by (nonlinear_arith)
                    requires
                        y < model.height,
                        w == model.width,
                ;
                assert((y + 1) * (w + 1) == y * (w + 1) + w + 1) by (nonlinear_arith);
            }
            out.append("\n");
            y = y + 1;
            assert(out@ =~= model.render().take(y * (w + 1)));
        }
        assert(out@ =~= model.render());
        out
    }

    /// Advances the grid by one generation. Every new cell is computed from
    /// the old buffer; the new buffer replaces it once all are done.
    pub fn next_iteration(&mut self)
        requires
            old(self).wf(),
        ensures
            final(self).wf(),
            final(self)@ == old(self)@.next_generation(),
    {
        let mut next = self.cells.clone();
        let ghost model = self@;
        let mut y: u32 = 0;
        while y < self.height
            invariant
                self.wf(),
                self@ == model,
                y <= self@.height,
                next@.len() == model.cells.len(),
                forall|i: int|
                    0 <= i < y * model.width ==> next@[i] == #[trigger] model.next_generation().cells[i],
            decreases self.height - y,
        {
            let mut x: u32 = 0;
            while x < self.width
                invariant
                    self.wf(),
                    self@ == model,
                    y < self@.height,
                    x <= self@.width,
                    next@.len() == model.cells.len(),
                    forall|i: int|
                        0 <= i < y * model.width + x ==> next@[i] == #[trigger] model.next_generation().cells[i],
                decreases self.width - x,
            {
                let id = self.get_index(y, x);
                let cell = self.cells[id];
                let neighbours_alive = self.neighbour_alive_count(y, x);
                let next_cell = cell.next(neighbours_alive);
                proof {
                    lemma_index_in_grid(y as int, x as int, model.width as int, model.height as int);
                }
                next.set(id, next_cell);
                x = x + 1;
            }
            assert((y + 1) * model.width == y * model.width + model.width) by (nonlinear_arith);
            y = y + 1;
        }
        assert(y * model.width == model.cells.len()) by (nonlinear_arith)
            requires
                y == model.height,
                model.cells.len() == model.width * model.height,
        ;
        self.cells = next;
        assert(self@.cells =~= model.next_generation().cells);
    }
}

} // verus!
