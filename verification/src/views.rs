//! Bridges between the deep view of a cell buffer and its element views.

use vstd::prelude::*;

verus! {

/// The deep view of a row of cells is its plain view.
pub broadcast proof fn lemma_row_deep_view(v: Vec<bool>)
    ensures
        #[trigger] v.deep_view() == v@,
{
    assert(v.deep_view() =~= v@);
}

/// The deep view of a grid buffer has one entry per row.
pub broadcast proof fn lemma_grid_deep_view_len(g: Vec<Vec<bool>>)
    ensures
        (#[trigger] g.deep_view()).len() == g@.len(),
{
}

/// An entry of a grid buffer's deep view is the matching row's view.
pub broadcast proof fn lemma_grid_deep_view_index(g: Vec<Vec<bool>>, a: int)
    requires
        0 <= a < g@.len(),
    ensures
        #[trigger] g.deep_view()[a] == g@[a]@,
{
    assert(g.deep_view()[a] =~= g@[a]@);
}

/// The deep view of a row of glyphs is its plain view.
pub broadcast proof fn lemma_glyph_row_deep_view(v: Vec<char>)
    ensures
        #[trigger] v.deep_view() == v@,
{
    assert(v.deep_view() =~= v@);
}

/// The deep view of a glyph buffer has one entry per row.
pub broadcast proof fn lemma_glyph_grid_deep_view_len(g: Vec<Vec<char>>)
    ensures
        (#[trigger] g.deep_view()).len() == g@.len(),
{
}

/// An entry of a glyph buffer's deep view is the matching row's view.
pub broadcast proof fn lemma_glyph_grid_deep_view_index(g: Vec<Vec<char>>, a: int)
    requires
        0 <= a < g@.len(),
    ensures
        #[trigger] g.deep_view()[a] == g@[a]@,
{
    assert(g.deep_view()[a] =~= g@[a]@);
}

} // verus!
