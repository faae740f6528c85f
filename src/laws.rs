use vstd::prelude::*;
use vstd::arithmetic::div_mod::{lemma_fundamental_div_mod, lemma_fundamental_div_mod_converse};
use crate::cell::{LifeCell, DEAD_GLYPH, ALIVE_GLYPH};
use crate::universe::{GridModel, lemma_index_in_grid};

verus! {

/// The grid after `n` generations.
pub open spec fn generations(g: GridModel, n: nat) -> GridModel
    decreases n,
{
    if n == 0 {
        g
    } else {
        generations(g, (n - 1) as nat).next_generation()
    }
}

/// Within `[0, n)`, the offsets `n - 1`, `0` and `1` taken modulo `n` step
/// one back, stay, and step one forward, wrapping at the edges.
pub proof fn lemma_wrap_offsets(a: int, n: int)
    requires
        0 <= a < n,
    ensures
        (a + (n - 1)) % n == if a == 0 { n - 1 } else { a - 1 },
        (a + 0) % n == a,
        (a + 1) % n == if a == n - 1 { 0 } else { a + 1 },
{
    if a == 0 {
        lemma_fundamental_div_mod_converse(a + (n - 1), n, 0, n - 1);
    } else {
        lemma_fundamental_div_mod_converse(a + (n - 1), n, 1, a - 1);
    }
    lemma_fundamental_div_mod_converse(a, n, 0, a);
    if a == n - 1 {
        lemma_fundamental_div_mod_converse(a + 1, n, 1, 0);
    } else {
        lemma_fundamental_div_mod_converse(a + 1, n, 0, a + 1);
    }
}

/// The size of the cell buffer never changes: after any number of
/// generations the grid keeps its dimensions and holds exactly
/// `width * height` cells.
pub proof fn lemma_generations_keep_buffer_size(g: GridModel, n: nat)
    requires
        g.wf(),
    ensures
        generations(g, n).wf(),
        generations(g, n).width == g.width,
        generations(g, n).height == g.height,
        generations(g, n).cells.len() == g.width * g.height,
    decreases n,
{
    if n > 0 {
        lemma_generations_keep_buffer_size(g, (n - 1) as nat);
    }
}

/// On a grid of at least 3×3 whose only live cell is `(0, 0)`, the opposite
/// corner `(height - 1, width - 1)` sees that cell as a diagonal neighbour
/// across both edges, and no other: it has exactly one live neighbour.
pub proof fn lemma_wraparound_corner(g: GridModel)
    requires
        g.wf(),
        g.width >= 3,
        g.height >= 3,
        g.cells[0] == LifeCell::Alive,
        forall|i: int| 0 < i < g.cells.len() ==> g.cells[i] == LifeCell::Dead,
    ensures
        g.neighbour_count(g.height - 1, g.width - 1) == 1,
{
    let w = g.width as int;
    let h = g.height as int;
    lemma_wrap_offsets(h - 1, h);
    lemma_wrap_offsets(w - 1, w);
    assert forall|row: int, col: int| 0 <= row < h && 0 <= col < w implies
        #[trigger] g.cell(row, col) == (if row == 0 && col == 0 { LifeCell::Alive } else { LifeCell::Dead }) by {
        lemma_index_in_grid(row, col, w, h);
        if row > 0 {
            assert(row * w >= w) by (nonlinear_arith)
                requires
                    row >= 1,
                    w >= 0,
            ;
        } else {
            assert(row * w == 0);
        }
    }
}

/// The live cells of `g` are exactly the 2×2 block whose top-left corner is
/// `(r0, c0)`.
pub open spec fn holds_block(g: GridModel, r0: int, c0: int) -> bool {
    forall|row: int, col: int|
        0 <= row < g.height && 0 <= col < g.width ==> #[trigger] g.cell(row, col) == if r0 <= row
            <= r0 + 1 && c0 <= col <= c0 + 1 {
            LifeCell::Alive
        } else {
            LifeCell::Dead
        }
}

/// A single position of a grid that holds only a 2×2 block, away from the
/// edges, keeps its state for one generation.
proof fn lemma_block_position_stable(g: GridModel, r0: int, c0: int, row: int, col: int)
    requires
        g.wf(),
        1 <= r0,
        r0 + 3 <= g.height,
        1 <= c0,
        c0 + 3 <= g.width,
        holds_block(g, r0, c0),
        0 <= row < g.height,
        0 <= col < g.width,
    ensures
        g.cell(row, col).spec_next(g.neighbour_count(row, col)) == g.cell(row, col),
{
    lemma_wrap_offsets(row, g.height as int);
    lemma_wrap_offsets(col, g.width as int);
}

/// A 2×2 block of live cells with all other cells dead, placed away from the
/// edges so that no neighbourhood wraps onto it, is unchanged by a generation.
pub proof fn lemma_block_is_stable(g: GridModel, r0: int, c0: int)
    requires
        g.wf(),
        1 <= r0,
        r0 + 3 <= g.height,
        1 <= c0,
        c0 + 3 <= g.width,
        holds_block(g, r0, c0),
    ensures
        g.next_generation() == g,
{
    let w = g.width as int;
    let h = g.height as int;
    let next = g.next_generation();
    assert forall|i: int| 0 <= i < g.cells.len() implies #[trigger] next.cells[i] == g.cells[i] by {
        lemma_fundamental_div_mod(i, w);
        let row = i / w;
        let col = i % w;
        assert(0 <= row < h) by (nonlinear_arith)
            requires
                i == w * row + col,
                0 <= col < w,
                0 <= i < w * h,
        ;
        lemma_block_position_stable(g, r0, c0, row, col);
    }
    assert(next.cells =~= g.cells);
}

/// A live cell without live neighbours dies of underpopulation.
pub proof fn lemma_isolated_cell_dies(g: GridModel, row: int, col: int)
    requires
        g.wf(),
        0 <= row < g.height,
        0 <= col < g.width,
        g.cell(row, col) == LifeCell::Alive,
        g.neighbour_count(row, col) == 0,
    ensures
        g.next_generation().cell(row, col) == LifeCell::Dead,
{
    lemma_index_in_grid(row, col, g.width as int, g.height as int);
}

/// A dead cell with exactly three live neighbours comes alive; with two or
/// four it stays dead.
pub proof fn lemma_birth(g: GridModel, row: int, col: int)
    requires
        g.wf(),
        0 <= row < g.height,
        0 <= col < g.width,
        g.cell(row, col) == LifeCell::Dead,
    ensures
        g.neighbour_count(row, col) == 3 ==> g.next_generation().cell(row, col) == LifeCell::Alive,
        g.neighbour_count(row, col) == 2 || g.neighbour_count(row, col) == 4
            ==> g.next_generation().cell(row, col) == LifeCell::Dead,
{
    lemma_index_in_grid(row, col, g.width as int, g.height as int);
}

/// The rendering holds `height` lines, each of `width` glyphs followed by a
/// line break; a character is a line break exactly at the end of a line, and
/// every other character is one of the two cell glyphs.
pub proof fn lemma_render_shape(g: GridModel)
    requires
        g.wf(),
    ensures
        g.render().len() == g.height * (g.width + 1),
        forall|k: int| 0 <= k < g.height ==> #[trigger] g.render()[k * (g.width + 1) + g.width] == '\n',
        forall|k: int, x: int|
            0 <= k < g.height && 0 <= x < g.width ==> {
                let c = #[trigger] g.render()[k * (g.width + 1) + x];
                c == DEAD_GLYPH || c == ALIVE_GLYPH
            },
        forall|p: int|
            0 <= p < g.render().len() ==> (#[trigger] g.render()[p] == '\n' <==> p % (g.width as int + 1)
                == g.width as int),
{
    let w = g.width as int;
    let h = g.height as int;
    assert forall|k: int| 0 <= k < h implies #[trigger] g.render()[k * (w + 1) + w] == '\n' by {
        lemma_fundamental_div_mod_converse(k * (w + 1) + w, w + 1, k, w);
        assert(k * (w + 1) + w < h * (w + 1)) by (nonlinear_arith)
            requires
                0 <= k < h,
                w >= 0,
        ;
    }
    assert forall|k: int, x: int| 0 <= k < h && 0 <= x < w implies {
        let c = #[trigger] g.render()[k * (w + 1) + x];
        c == DEAD_GLYPH || c == ALIVE_GLYPH
    } by {
        lemma_fundamental_div_mod_converse(k * (w + 1) + x, w + 1, k, x);
        assert(k * (w + 1) + x < h * (w + 1)) by (nonlinear_arith)
            requires
                0 <= k < h,
                0 <= x < w,
        ;
    }
}

} // verus!
