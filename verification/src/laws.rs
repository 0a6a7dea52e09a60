//! Grid-level laws: wraparound neighbourhoods, the classic stable and
//! oscillating patterns, and what reset restores after any run.

use vstd::prelude::*;
use crate::board::{
    advance_model, b2i, edit_model, neighbor_sum, next_cell, next_gen, reset_model, GridModel,
};

verus! {

/// On the torus, the neighbourhood of the origin cell is made of the last
/// row and column, and the last cell's neighbourhood of the first: the
/// nine-cell sum at `(0, 0)` reads rows `h - 1`, `0`, `1` and columns
/// `w - 1`, `0`, `1`, and the one at `(h - 1, w - 1)` reads rows `h - 2`,
/// `h - 1`, `0` and columns `w - 2`, `w - 1`, `0`.
pub proof fn lemma_toroidal_wraparound(g: Seq<Seq<bool>>, h: int, w: int)
    requires
        2 <= h,
        2 <= w,
    ensures
        neighbor_sum(g, h, w, 0, 0) == b2i(g[h - 1][w - 1]) + b2i(g[h - 1][0]) + b2i(
            g[h - 1][1],
        ) + b2i(g[0][w - 1]) + b2i(g[0][0]) + b2i(g[0][1]) + b2i(g[1][w - 1]) + b2i(g[1][0]) + b2i(
            g[1][1],
        ),
        neighbor_sum(g, h, w, h - 1, w - 1) == b2i(g[h - 2][w - 2]) + b2i(g[h - 2][w - 1]) + b2i(
            g[h - 2][0],
        ) + b2i(g[h - 1][w - 2]) + b2i(g[h - 1][w - 1]) + b2i(g[h - 1][0]) + b2i(g[0][w - 2])
            + b2i(g[0][w - 1]) + b2i(g[0][0]),
{
}

/// A grid that is dead everywhere but for a two-by-two block of live cells
/// whose upper-left corner is at `(r, c)`.
pub open spec fn block_grid(h: int, w: int, r: int, c: int) -> Seq<Seq<bool>> {
    Seq::new(h as nat, |i: int| Seq::new(w as nat, |j: int| r <= i <= r + 1 && c <= j <= c + 1))
}

/// Still life: on a grid of at least four cells a side, a two-by-two block
/// that does not itself wrap is left unchanged by a generation.
pub proof fn lemma_block_still_life(h: int, w: int, r: int, c: int)
    requires
        4 <= h,
        4 <= w,
        0 <= r,
        r + 1 < h,
        0 <= c,
        c + 1 < w,
    ensures
        next_gen(block_grid(h, w, r, c), h, w) == block_grid(h, w, r, c),
{
    let g = block_grid(h, w, r, c);
    assert forall|i: int, j: int| 0 <= i < h && 0 <= j < w implies next_cell(g, h, w, i, j) == g[i][j] by {
        assert(next_gen(g, h, w)[i][j] == next_cell(g, h, w, i, j));
    }
    assert(next_gen(g, h, w) =~~= g);
}

/// A horizontal blinker: live cells at `(r, c - 1)`, `(r, c)`, `(r, c + 1)`.
pub open spec fn hblinker(h: int, w: int, r: int, c: int) -> Seq<Seq<bool>> {
    Seq::new(h as nat, |i: int| Seq::new(w as nat, |j: int| i == r && c - 1 <= j <= c + 1))
}

/// A vertical blinker: live cells at `(r - 1, c)`, `(r, c)`, `(r + 1, c)`.
pub open spec fn vblinker(h: int, w: int, r: int, c: int) -> Seq<Seq<bool>> {
    Seq::new(h as nat, |i: int| Seq::new(w as nat, |j: int| r - 1 <= i <= r + 1 && j == c))
}

/// Oscillator: a blinker with open, non-wrapping space around it alternates
/// between its horizontal and vertical orientation, so two generations
/// restore it exactly.
pub proof fn lemma_blinker_oscillates(h: int, w: int, r: int, c: int)
    requires
        5 <= h,
        5 <= w,
        2 <= r,
        r + 2 < h,
        2 <= c,
        c + 2 < w,
    ensures
        next_gen(hblinker(h, w, r, c), h, w) == vblinker(h, w, r, c),
        next_gen(vblinker(h, w, r, c), h, w) == hblinker(h, w, r, c),
        next_gen(next_gen(hblinker(h, w, r, c), h, w), h, w) == hblinker(h, w, r, c),
{
    let hb = hblinker(h, w, r, c);
    let vb = vblinker(h, w, r, c);
    assert forall|i: int, j: int| 0 <= i < h && 0 <= j < w implies next_cell(hb, h, w, i, j) == vb[i][j] by {
        assert(vb[i][j] == (r - 1 <= i <= r + 1 && j == c));
    }
    assert(next_gen(hb, h, w) =~~= vb);
    assert forall|i: int, j: int| 0 <= i < h && 0 <= j < w implies next_cell(vb, h, w, i, j) == hb[i][j] by {
        assert(hb[i][j] == (i == r && c - 1 <= j <= c + 1));
    }
    assert(next_gen(vb, h, w) =~~= hb);
}

/// The model after `n` generations.
pub open spec fn advance_n(m: GridModel, n: nat) -> GridModel
    decreases n,
{
    if n == 0 {
        m
    } else {
        advance_model(advance_n(m, (n - 1) as nat))
    }
}

/// Advancing never touches the baseline or the dimensions.
pub proof fn lemma_advance_n_keeps_baseline(m: GridModel, n: nat)
    ensures
        advance_n(m, n).start == m.start,
        advance_n(m, n).width == m.width,
        advance_n(m, n).height == m.height,
    decreases n,
{
    if n > 0 {
        lemma_advance_n_keeps_baseline(m, (n - 1) as nat);
    }
}

/// Reset idempotence: from a freshly built grid (live cells equal to the
/// baseline), any number of generations followed by a reset gives back the
/// cells the grid was built with, with the generation counter at zero.
pub proof fn lemma_reset_restores_start(m: GridModel, n: nat)
    requires
        m.alive == m.start,
    ensures
        reset_model(advance_n(m, n)).alive == m.alive,
        reset_model(advance_n(m, n)).start == m.start,
        reset_model(advance_n(m, n)).width == m.width,
        reset_model(advance_n(m, n)).height == m.height,
        reset_model(advance_n(m, n)).renders == 0,
{
    lemma_advance_n_keeps_baseline(m, n);
}

/// Committing an edited buffer updates the baseline: a reset at any later
/// generation restores the committed buffer, not an older pattern, and the
/// commit itself leaves the counter at zero.
pub proof fn lemma_edit_updates_baseline(v: Seq<Seq<bool>>, n: nat)
    ensures
        edit_model(v).renders == 0,
        edit_model(v).alive == v,
        reset_model(advance_n(edit_model(v), n)).alive == v,
        reset_model(advance_n(edit_model(v), n)).renders == 0,
{
    lemma_advance_n_keeps_baseline(edit_model(v), n);
}

} // verus!
