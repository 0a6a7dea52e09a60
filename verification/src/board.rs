//! The toroidal cell grid and the B3/S23 generation rule.

use vstd::prelude::*;
use vstd::arithmetic::div_mod::{lemma_mod_multiples_vanish, lemma_small_mod};

verus! {

broadcast use crate::views::lemma_row_deep_view, crate::views::lemma_grid_deep_view_len,
    crate::views::lemma_grid_deep_view_index, crate::views::lemma_glyph_row_deep_view,
    crate::views::lemma_glyph_grid_deep_view_len, crate::views::lemma_glyph_grid_deep_view_index;

/// Largest admitted grid side; keeps every wrapped index computation inside
/// `i32` and `usize` range.
pub const MAX_DIM: usize = 0x3FFF_FFFF;

/// `g` has exactly `h` rows of exactly `w` columns each.
pub open spec fn dims_ok(g: Seq<Seq<bool>>, h: int, w: int) -> bool {
    g.len() == h && forall|i: int| 0 <= i < h ==> (#[trigger] g[i]).len() == w
}

/// A nonempty rectangular buffer whose sides fit the machine limits.
pub open spec fn buffer_wf(g: Seq<Seq<bool>>) -> bool {
    &&& 1 <= g.len() <= MAX_DIM as int
    &&& 1 <= g[0].len() <= MAX_DIM as int
    &&& forall|i: int| 0 <= i < g.len() ==> (#[trigger] g[i]).len() == g[0].len()
}

/// Every cell of `g` is dead.
pub open spec fn all_dead(g: Seq<Seq<bool>>) -> bool {
    forall|i: int, j: int| 0 <= i < g.len() && 0 <= j < g[i].len() ==> !(#[trigger] g[i][j])
}

/// Toroidal index: brings `i` back into `[0, n)`; meant for `-n <= i < 2 * n`.
pub open spec fn wrap(i: int, n: int) -> int {
    if i < 0 {
        i + n
    } else if i >= n {
        i - n
    } else {
        i
    }
}

pub open spec fn b2i(b: bool) -> int {
    if b {
        1
    } else {
        0
    }
}

/// Cell read with toroidal wraparound on both axes.
pub open spec fn cell_at(g: Seq<Seq<bool>>, h: int, w: int, i: int, j: int) -> bool {
    g[wrap(i, h)][wrap(j, w)]
}

/// Nine-cell sum of the 3x3 neighbourhood centred at `(i, j)` — the centre
/// itself included — read with toroidal wraparound.
pub open spec fn neighbor_sum(g: Seq<Seq<bool>>, h: int, w: int, i: int, j: int) -> int {
    b2i(cell_at(g, h, w, i - 1, j - 1)) + b2i(cell_at(g, h, w, i - 1, j)) + b2i(
        cell_at(g, h, w, i - 1, j + 1),
    ) + b2i(cell_at(g, h, w, i, j - 1)) + b2i(cell_at(g, h, w, i, j)) + b2i(
        cell_at(g, h, w, i, j + 1),
    ) + b2i(cell_at(g, h, w, i + 1, j - 1)) + b2i(cell_at(g, h, w, i + 1, j)) + b2i(
        cell_at(g, h, w, i + 1, j + 1),
    )
}

/// The B3/S23 rule over the nine-cell sum: since the centre is counted too, a
/// cell is alive next generation iff the sum is 3, or the sum is 4 and the
/// cell itself was alive.
pub open spec fn next_cell(g: Seq<Seq<bool>>, h: int, w: int, i: int, j: int) -> bool {
    neighbor_sum(g, h, w, i, j) == 3 || (neighbor_sum(g, h, w, i, j) == 4 && cell_at(
        g,
        h,
        w,
        i,
        j,
    ))
}

/// One full synchronous generation of the rule on an `h`-by-`w` torus.
pub open spec fn next_gen(g: Seq<Seq<bool>>, h: int, w: int) -> Seq<Seq<bool>> {
    Seq::new(h as nat, |i: int| Seq::new(w as nat, |j: int| next_cell(g, h, w, i, j)))
}

/// The half-block glyph for a pair of vertically adjacent pixels.
pub open spec fn glyph(top: bool, bottom: bool) -> char {
    if top && bottom {
        '\u{2588}'
    } else if top {
        '\u{2580}'
    } else if bottom {
        '\u{2584}'
    } else {
        ' '
    }
}

/// Character rows of a pixel buffer: pixel rows `2k` and `2k + 1` pair into
/// printed row `k`; a missing bottom partner on an odd-height buffer counts
/// as dead.
pub open spec fn rendered(g: Seq<Seq<bool>>) -> Seq<Seq<char>> {
    Seq::new(
        ((g.len() + 1) / 2) as nat,
        |k: int|
            Seq::new(
                g[0].len() as nat,
                |x: int| glyph(g[2 * k][x], 2 * k + 1 < g.len() && g[2 * k + 1][x]),
            ),
    )
}

/// Mathematical state of a [`Board`].
pub ghost struct GridModel {
    pub prev: Seq<Seq<bool>>,
    pub alive: Seq<Seq<bool>>,
    pub start: Seq<Seq<bool>>,
    pub width: int,
    pub height: int,
    pub renders: int,
}

pub open spec fn model_wf(m: GridModel) -> bool {
    &&& 1 <= m.height <= MAX_DIM as int
    &&& 1 <= m.width <= MAX_DIM as int
    &&& dims_ok(m.alive, m.height, m.width)
    &&& dims_ok(m.start, m.height, m.width)
    &&& dims_ok(m.prev, m.height, m.width)
}

/// What one `next` call does to the model.
pub open spec fn advance_model(m: GridModel) -> GridModel {
    GridModel {
        prev: m.alive,
        alive: next_gen(m.alive, m.height, m.width),
        renders: m.renders + 1,
        ..m
    }
}

/// What `reset` does to the model.
pub open spec fn reset_model(m: GridModel) -> GridModel {
    GridModel { alive: m.start, renders: 0, ..m }
}

/// What committing an edited buffer `v` leaves behind: `v` everywhere, the
/// dimensions taken from `v`, the counter cleared.
pub open spec fn edit_model(v: Seq<Seq<bool>>) -> GridModel {
    GridModel {
        prev: v,
        alive: v,
        start: v,
        width: v[0].len() as int,
        height: v.len() as int,
        renders: 0,
    }
}

/// The live cell buffer, the baseline it is reset to, and the snapshot of the
/// previous generation used while advancing.
pub struct Board {
    prev: Vec<Vec<bool>>,
    alive: Vec<Vec<bool>>,
    start: Vec<Vec<bool>>,
    height: usize,
    width: usize,
    renders: usize,
}

impl View for Board {
    type V = GridModel;

    closed spec fn view(&self) -> GridModel {
        GridModel {
            prev: self.prev.deep_view(),
            alive: self.alive.deep_view(),
            start: self.start.deep_view(),
            width: self.width as int,
            height: self.height as int,
            renders: self.renders as int,
        }
    }
}

/// Relies on `rand::Rng::gen_range` on the thread-local generator: a uniformly
/// random draw from `[0, bound)`; the range is nonempty, so the call does not
/// panic. Nothing more is assumed of the value.
#[verifier::external_body]
fn random_below(bound: usize) -> (r: usize)
    requires
        1 <= bound,
    ensures
        r < bound,
{
    rand::Rng::gen_range(&mut rand::thread_rng(), 0..bound)
}

/// A fresh copy of a grid buffer, cell for cell.
#[verifier::loop_isolation(false)]
fn clone_grid(v: &Vec<Vec<bool>>) -> (r: Vec<Vec<bool>>)
    ensures
        r.deep_view() == v.deep_view(),
{
    let mut rows: Vec<Vec<bool>> = Vec::new();
    let mut i: usize = 0;
    while i < v.len()
        invariant
            i <= v.len(),
            rows.len() == i,
            forall|a: int| 0 <= a < i ==> rows.deep_view()[a] == v.deep_view()[a],
        decreases v.len() - i,
    {
        let mut row: Vec<bool> = Vec::new();
        let mut j: usize = 0;
        while j < v[i].len()
            invariant
                j <= v@[i as int].len(),
                row.len() == j,
                forall|b: int| 0 <= b < j ==> row@[b] == v.deep_view()[i as int][b],
            decreases v@[i as int].len() - j,
        {
            let c: bool = v[i][j];
            row.push(c);
            j += 1;
        }
        proof {
            assert(row.deep_view() =~= v.deep_view()[i as int]);
        }
        rows.push(row);
        i += 1;
    }
    proof {
        assert(rows.deep_view() =~= v.deep_view());
    }
    rows
}

/// An all-dead buffer of the given shape.
#[verifier::loop_isolation(false)]
pub fn dead_grid(width: usize, height: usize) -> (r: Vec<Vec<bool>>)
    ensures
        r.deep_view().len() == height,
        forall|i: int| 0 <= i < height ==> (#[trigger] r.deep_view()[i]).len() == width,
        all_dead(r.deep_view()),
{
    let mut rows: Vec<Vec<bool>> = Vec::new();
    let mut i: usize = 0;
    while i < height
        invariant
            i <= height,
            rows.len() == i,
            forall|a: int| 0 <= a < i ==> (#[trigger] rows@[a])@.len() == width,
            forall|a: int, b: int|
                0 <= a < i && 0 <= b < width ==> !(#[trigger] rows@[a]@[b]),
        decreases height - i,
    {
        let mut row: Vec<bool> = Vec::new();
        let mut j: usize = 0;
        while j < width
            invariant
                j <= width,
                row.len() == j,
                forall|b: int| 0 <= b < j ==> !(#[trigger] row@[b]),
            decreases width - j,
        {
            row.push(false);
            j += 1;
        }
        rows.push(row);
        i += 1;
    }
    rows
}

/// A buffer of the given shape whose every cell is independently alive with
/// probability 0.15.
#[verifier::loop_isolation(false)]
fn random_vec(w: usize, h: usize) -> (r: Vec<Vec<bool>>)
    ensures
        r.deep_view().len() == h,
        forall|i: int| 0 <= i < h ==> (#[trigger] r.deep_view()[i]).len() == w,
{
    let mut rows: Vec<Vec<bool>> = Vec::new();
    let mut i: usize = 0;
    while i < h
        invariant
            i <= h,
            rows.len() == i,
            forall|a: int| 0 <= a < i ==> (#[trigger] rows@[a])@.len() == w,
        decreases h - i,
    {
        let mut row: Vec<bool> = Vec::new();
        let mut j: usize = 0;
        while j < w
            invariant
                j <= w,
                row.len() == j,
            decreases w - j,
        {
            // alive with probability 0.15: 15 of 100 equally likely draws
            let cell: bool = random_below(100) < 15;
            row.push(cell);
            j += 1;
        }
        rows.push(row);
        i += 1;
    }
    rows
}

/// Renders a pixel buffer into glyph rows, two pixel rows per printed row.
#[verifier::loop_isolation(false)]
pub fn display_alive(alive: &Vec<Vec<bool>>) -> (r: Vec<Vec<char>>)
    requires
        1 <= alive@.len() <= MAX_DIM,
        forall|i: int|
            0 <= i < alive@.len() ==> (#[trigger] alive@[i])@.len() == alive@[0]@.len(),
    ensures
        r.deep_view() == rendered(alive.deep_view()),
{
    let ghost target = rendered(alive.deep_view());
    let h: usize = alive.len();
    let w: usize = alive[0].len();
    let mut out: Vec<Vec<char>> = Vec::new();
    let mut y: usize = 0;
    while y < h
        invariant
            y % 2 == 0,
            y <= h + 1,
            out.len() == y / 2,
            forall|k: int| 0 <= k < y / 2 ==> (#[trigger] out@[k])@ == target[k],
        decreases h + 1 - y,
    {
        let mut line: Vec<char> = Vec::new();
        let mut x: usize = 0;
        while x < w
            invariant
                y < h,
                x <= w,
                line.len() == x,
                forall|b: int| 0 <= b < x ==> line@[b] == target[(y / 2) as int][b],
            decreases w - x,
        {
            let talive: bool = alive[y][x];
            let balive: bool = y + 1 < h && alive[y + 1][x];
            let c: char = if talive && balive {
                '\u{2588}'
            } else if talive {
                '\u{2580}'
            } else if balive {
                '\u{2584}'
            } else {
                ' '
            };
            proof {
                row_glyph_matches(alive, y as int, x as int);
            }
            line.push(c);
            x += 1;
        }
        proof {
            assert(line@ =~= target[(y / 2) as int]);
        }
        out.push(line);
        y += 2;
    }
    proof {
        assert(y == h || y == h + 1);
        assert(out@.len() == (h + 1) as int / 2);
        assert(out.deep_view() =~= target);
    }
    out
}

/// The glyph at printed position `(y / 2, x)` pairs pixel rows `y` and
/// `y + 1` of the buffer.
proof fn row_glyph_matches(alive: &Vec<Vec<bool>>, y: int, x: int)
    requires
        1 <= alive@.len(),
        forall|i: int|
            0 <= i < alive@.len() ==> (#[trigger] alive@[i])@.len() == alive@[0]@.len(),
        0 <= y < alive@.len(),
        y % 2 == 0,
        0 <= x < alive@[0]@.len(),
    ensures
        rendered(alive.deep_view())[y / 2][x] == glyph(
            alive@[y]@[x],
            y + 1 < alive@.len() && alive@[y + 1]@[x],
        ),
{
    assert(2 * (y / 2) == y);
}

proof fn lemma_wrap_mod(i: int, n: int)
    requires
        1 <= n,
        -1 <= i <= n,
    ensures
        (i + n) % n == wrap(i, n),
        0 <= wrap(i, n) < n,
{
    if i < 0 {
        lemma_small_mod((i + n) as nat, n as nat);
    } else if i >= n {
        lemma_mod_multiples_vanish(2, 0, n);
        lemma_small_mod(0nat, n as nat);
    } else {
        lemma_mod_multiples_vanish(1, i, n);
        lemma_small_mod(i as nat, n as nat);
    }
}

impl Board {
    /// The three buffers share the grid's dimensions, which are positive and
    /// within machine limits.
    pub open spec fn wf(&self) -> bool {
        model_wf(self@)
    }

    /// A grid of the given shape whose cells (baseline included) are each
    /// alive with probability 0.15; the generation counter starts at zero.
    pub fn new(width: usize, height: usize) -> (r: Board)
        requires
            1 <= width <= MAX_DIM,
            1 <= height <= MAX_DIM,
        ensures
            r.wf(),
            r@.width == width,
            r@.height == height,
            r@.renders == 0,
            r@.alive == r@.start,
            r@.prev == r@.alive,
    {
        let vec = random_vec(width, height);
        let prev = clone_grid(&vec);
        let alive = clone_grid(&vec);
        Board { prev, alive, start: vec, width, height, renders: 0 }
    }

    /// Commits an edited buffer: it becomes both the live cells and the reset
    /// baseline, the grid takes its dimensions, and the counter clears.
    pub fn edit(&mut self, vec: Vec<Vec<bool>>)
        requires
            buffer_wf(vec.deep_view()),
        ensures
            final(self)@ == edit_model(vec.deep_view()),
            final(self).wf(),
    {
        self.width = vec[0].len();
        self.height = vec.len();
        let alive = clone_grid(&vec);
        // the previous-generation buffer is refreshed too, so that the three
        // buffers keep identical dimensions
        let prev = clone_grid(&vec);
        self.prev = prev;
        self.alive = alive;
        self.start = vec;
        self.renders = 0;
    }

    /// Restores the baseline pattern and clears the counter; the baseline
    /// itself is untouched.
    pub fn reset(&mut self)
        requires
            old(self).wf(),
        ensures
            final(self)@ == reset_model(old(self)@),
            final(self).wf(),
    {
        let s = clone_grid(&self.start);
        self.alive = s;
        self.renders = 0;
    }

    /// Bounds-checked read of the live buffer.
    pub fn is_alive(&self, row: usize, col: usize) -> (r: bool)
        requires
            self.wf(),
            row < self@.height,
            col < self@.width,
        ensures
            r == self@.alive[row as int][col as int],
    {
        proof {
            assert(self@.alive[row as int].len() == self@.width);
        }
        self.alive[row][col]
    }

    /// Glyph rows of the live buffer.
    pub fn display(&self) -> (r: Vec<Vec<char>>)
        requires
            self.wf(),
        ensures
            r.deep_view() == rendered(self@.alive),
    {
        proof {
            assert forall|i: int| 0 <= i < self.alive@.len() implies (#[trigger] self.alive@[i])@.len()
                == self.alive@[0]@.len() by {
                assert(self@.alive[i].len() == self@.width);
                assert(self@.alive[0].len() == self@.width);
            }
        }
        display_alive(&self.alive)
    }

    /// Number of rows of the grid.
    pub fn height(&self) -> (r: usize)
        ensures
            r == self@.height,
    {
        self.height
    }

    /// Number of columns of the grid.
    pub fn width(&self) -> (r: usize)
        ensures
            r == self@.width,
    {
        self.width
    }

    /// Count of completed generations since the last construction, reset or
    /// commit.
    pub fn renders(&self) -> (r: usize)
        ensures
            r == self@.renders,
    {
        self.renders
    }

    /// Previous-generation cell read with toroidal wraparound.
    fn _status_at(&self, i: i32, j: i32) -> (r: bool)
        requires
            self.wf(),
            -1 <= i as int <= self@.height,
            -1 <= j as int <= self@.width,
        ensures
            r == cell_at(self@.prev, self@.height, self@.width, i as int, j as int),
    {
        proof {
            lemma_wrap_mod(i as int, self@.height);
            lemma_wrap_mod(j as int, self@.width);
        }
        let hi: i32 = self.height as i32;
        let wi: i32 = self.width as i32;
        let row: usize = ((i + hi) as usize) % self.height;
        let col: usize = ((j + wi) as usize) % self.width;
        proof {
            assert(row == wrap(i as int, self@.height));
            assert(col == wrap(j as int, self@.width));
            assert(self@.prev[row as int].len() == self@.width);
        }
        self.prev[row][col]
    }

    /// Nine-cell neighbourhood sum around `(i, j)` in the snapshot.
    fn neighbor_count(&self, i: usize, j: usize) -> (r: u8)
        requires
            self.wf(),
            i < self.height,
            j < self.width,
        ensures
            r as int == neighbor_sum(self@.prev, self@.height, self@.width, i as int, j as int),
    {
        let ii: i32 = i as i32;
        let jj: i32 = j as i32;
        let mut n: u8 = 0;
        if self._status_at(ii - 1, jj - 1) {
            n = n + 1;
        }
        if self._status_at(ii - 1, jj) {
            n = n + 1;
        }
        if self._status_at(ii - 1, jj + 1) {
            n = n + 1;
        }
        if self._status_at(ii, jj - 1) {
            n = n + 1;
        }
        if self._status_at(ii, jj) {
            n = n + 1;
        }
        if self._status_at(ii, jj + 1) {
            n = n + 1;
        }
        if self._status_at(ii + 1, jj - 1) {
            n = n + 1;
        }
        if self._status_at(ii + 1, jj) {
            n = n + 1;
        }
        if self._status_at(ii + 1, jj + 1) {
            n = n + 1;
        }
        n
    }

    /// Advances the grid one generation: snapshots the live buffer, applies
    /// the rule to every cell simultaneously on the torus, and counts the
    /// completed generation.
    #[verifier::loop_isolation(false)]
    pub fn next(&mut self)
        requires
            old(self).wf(),
            old(self)@.renders < usize::MAX,
        ensures
            final(self)@ == advance_model(old(self)@),
            final(self).wf(),
    {
        let snapshot = clone_grid(&self.alive);
        self.prev = snapshot;
        let h: usize = self.height;
        let w: usize = self.width;
        let mut rows: Vec<Vec<bool>> = Vec::new();
        let mut i: usize = 0;
        while i < h
            invariant
                i <= h,
                rows.len() == i,
                forall|a: int|
                    0 <= a < i ==> (#[trigger] rows@[a])@ == next_gen(
                        self@.prev,
                        h as int,
                        w as int,
                    )[a],
            decreases h - i,
        {
            let mut row: Vec<bool> = Vec::new();
            let mut j: usize = 0;
            while j < w
                invariant
                    j <= w,
                    row.len() == j,
                    forall|b: int|
                        0 <= b < j ==> row@[b] == next_cell(
                            self@.prev,
                            h as int,
                            w as int,
                            i as int,
                            b,
                        ),
                decreases w - j,
            {
                let s: u8 = self.neighbor_count(i, j);
                let c: bool = s == 3 || (s == 4 && self._status_at(i as i32, j as i32));
                row.push(c);
                j += 1;
            }
            proof {
                assert(row.deep_view() =~= next_gen(self@.prev, h as int, w as int)[i as int]);
            }
            rows.push(row);
            i += 1;
        }
        self.alive = rows;
        self.renders = self.renders + 1;
        proof {
            assert(self@.alive =~= next_gen(old(self)@.alive, h as int, w as int));
            assert(self@ == advance_model(old(self)@));
        }
    }
}

} // verus!
