//! Two classic patterns and what the rule makes of them: the block, which
//! stands still, and the blinker, which turns and turns back.

use vstd::prelude::*;
use vstd::arithmetic::div_mod::{lemma_div_pos_is_pos, lemma_fundamental_div_mod, lemma_mod_bound};
use crate::evolution::{
    alive_at, flat_index, in_bounds, lemma_next_generation_at, next_generation,
};

verus! {

/// The grid holds a two by two block with its upper left cell at `(x, y)`,
/// and no other living cell.
pub open spec fn is_block(cells: Seq<bool>, w: int, h: int, x: int, y: int) -> bool {
    &&& cells.len() == w * h
    &&& in_bounds(w, h, x, y)
    &&& in_bounds(w, h, x + 1, y + 1)
    &&& forall|i: int, j: int| #[trigger]
        alive_at(cells, w, h, i, j) <==> (x <= i <= x + 1 && y <= j <= y + 1)
}

/// The grid holds three living cells in a row with the middle one at
/// `(x, y)`, and no other living cell.
pub open spec fn is_flat_blinker(cells: Seq<bool>, w: int, h: int, x: int, y: int) -> bool {
    &&& cells.len() == w * h
    &&& in_bounds(w, h, x - 1, y)
    &&& in_bounds(w, h, x + 1, y)
    &&& forall|i: int, j: int| #[trigger]
        alive_at(cells, w, h, i, j) <==> (x - 1 <= i <= x + 1 && j == y)
}

/// The grid holds three living cells in a column with the middle one at
/// `(x, y)`, and no other living cell.
pub open spec fn is_upright_blinker(cells: Seq<bool>, w: int, h: int, x: int, y: int) -> bool {
    &&& cells.len() == w * h
    &&& in_bounds(w, h, x, y - 1)
    &&& in_bounds(w, h, x, y + 1)
    &&& forall|i: int, j: int| #[trigger]
        alive_at(cells, w, h, i, j) <==> (i == x && y - 1 <= j <= y + 1)
}

/// Two grids of the same dimensions with the same living coordinates are the
/// same grid.
pub proof fn lemma_same_cells(a: Seq<bool>, b: Seq<bool>, w: int, h: int)
    requires
        0 < w,
        0 <= h,
        a.len() == w * h,
        b.len() == w * h,
        forall|i: int, j: int|
            in_bounds(w, h, i, j) ==> alive_at(a, w, h, i, j) == alive_at(b, w, h, i, j),
    ensures
        a == b,
{
    assert forall|k: int| 0 <= k < a.len() implies a[k] == b[k] by {
        let i = k % w;
        let j = k / w;
        lemma_fundamental_div_mod(k, w);
        lemma_mod_bound(k, w);
        lemma_div_pos_is_pos(k, w);
        assert(k == w * j + i);
        assert(w * j == j * w) by (nonlinear_arith);
        assert(j < h) by (nonlinear_arith)
            requires
                j * w + i < w * h,
                0 <= i,
                0 < w,
        ;
        assert(in_bounds(w, h, i, j));
        assert(flat_index(w, i, j) == k);
        assert(alive_at(a, w, h, i, j) == alive_at(b, w, h, i, j));
    }
    assert(a =~= b);
}

/// A block is a still life: the next generation is the same grid.
pub proof fn lemma_block_is_stable(cells: Seq<bool>, w: int, h: int, x: int, y: int)
    requires
        is_block(cells, w, h, x, y),
    ensures
        next_generation(cells, w, h) == cells,
{
    let next = next_generation(cells, w, h);
    assert(0 <= w * h) by (nonlinear_arith)
        requires
            0 < w,
            0 < h,
    ;
    assert forall|i: int, j: int| in_bounds(w, h, i, j) implies alive_at(next, w, h, i, j)
        == alive_at(cells, w, h, i, j) by {
        lemma_next_generation_at(cells, w, h, i, j);
    }
    lemma_same_cells(next, cells, w, h);
}

/// A blinker lying flat stands upright one generation later, about the same
/// middle cell, where the grid has room for it above and below.
pub proof fn lemma_flat_blinker_turns(cells: Seq<bool>, w: int, h: int, x: int, y: int)
    requires
        is_flat_blinker(cells, w, h, x, y),
        in_bounds(w, h, x, y - 1),
        in_bounds(w, h, x, y + 1),
    ensures
        is_upright_blinker(next_generation(cells, w, h), w, h, x, y),
{
    let next = next_generation(cells, w, h);
    assert(0 <= w * h) by (nonlinear_arith)
        requires
            0 < w,
            0 < h,
    ;
    assert forall|i: int, j: int| #[trigger]
        alive_at(next, w, h, i, j) <==> (i == x && y - 1 <= j <= y + 1) by {
        if in_bounds(w, h, i, j) {
            lemma_next_generation_at(cells, w, h, i, j);
        }
    }
}

/// A blinker standing upright lies flat one generation later, about the same
/// middle cell, where the grid has room for it left and right.
pub proof fn lemma_upright_blinker_turns(cells: Seq<bool>, w: int, h: int, x: int, y: int)
    requires
        is_upright_blinker(cells, w, h, x, y),
        in_bounds(w, h, x - 1, y),
        in_bounds(w, h, x + 1, y),
    ensures
        is_flat_blinker(next_generation(cells, w, h), w, h, x, y),
{
    let next = next_generation(cells, w, h);
    assert(0 <= w * h) by (nonlinear_arith)
        requires
            0 < w,
            0 < h,
    ;
    assert forall|i: int, j: int| #[trigger]
        alive_at(next, w, h, i, j) <==> (x - 1 <= i <= x + 1 && j == y) by {
        if in_bounds(w, h, i, j) {
            lemma_next_generation_at(cells, w, h, i, j);
        }
    }
}

/// A blinker away from the border has period two: two generations later the
/// grid is as it was.
pub proof fn lemma_blinker_oscillates(cells: Seq<bool>, w: int, h: int, x: int, y: int)
    requires
        is_flat_blinker(cells, w, h, x, y),
        in_bounds(w, h, x, y - 1),
        in_bounds(w, h, x, y + 1),
    ensures
        next_generation(next_generation(cells, w, h), w, h) == cells,
{
    let turned = next_generation(cells, w, h);
    let back = next_generation(turned, w, h);
    lemma_flat_blinker_turns(cells, w, h, x, y);
    lemma_upright_blinker_turns(turned, w, h, x, y);
    assert(0 <= w * h) by (nonlinear_arith)
        requires
            0 < w,
            0 < h,
    ;
    lemma_same_cells(back, cells, w, h);
}

} // verus!
