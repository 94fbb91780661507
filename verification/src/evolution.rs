//! The rule of the automaton: how one generation follows from another.
//!
//! A grid is a row-major sequence of cells, `width * height` long. All
//! reasoning about neighbours happens on `(x, y)` coordinates; a coordinate
//! outside the grid names no cell, so a border cell has fewer than eight
//! neighbours and nothing wraps round an edge.

use vstd::prelude::*;
use vstd::arithmetic::div_mod::lemma_fundamental_div_mod_converse;

verus! {

/// Whether `(x, y)` names a cell of a `w` by `h` grid.
pub open spec fn in_bounds(w: int, h: int, x: int, y: int) -> bool {
    0 <= x < w && 0 <= y < h
}

/// The place of cell `(x, y)` in the row-major sequence.
pub open spec fn flat_index(w: int, x: int, y: int) -> int {
    y * w + x
}

/// Whether `(x, y)` is a living cell. A coordinate outside the grid is dead.
pub open spec fn alive_at(cells: Seq<bool>, w: int, h: int, x: int, y: int) -> bool {
    in_bounds(w, h, x, y) && cells[flat_index(w, x, y)]
}

/// One for a living cell at `(x, y)`, zero otherwise.
pub open spec fn population_at(cells: Seq<bool>, w: int, h: int, x: int, y: int) -> int {
    if alive_at(cells, w, h, x, y) { 1 } else { 0 }
}

/// The number of living cells among the eight neighbours of `(x, y)`.
pub open spec fn alive_neighbors(cells: Seq<bool>, w: int, h: int, x: int, y: int) -> int {
    population_at(cells, w, h, x - 1, y - 1)
        + population_at(cells, w, h, x, y - 1)
        + population_at(cells, w, h, x + 1, y - 1)
        + population_at(cells, w, h, x - 1, y)
        + population_at(cells, w, h, x + 1, y)
        + population_at(cells, w, h, x - 1, y + 1)
        + population_at(cells, w, h, x, y + 1)
        + population_at(cells, w, h, x + 1, y + 1)
}

/// The fate of one cell: a living cell survives with two or three living
/// neighbours, a dead cell is born with exactly three.
pub open spec fn next_state(alive: bool, neighbors: int) -> bool {
    if alive {
        neighbors == 2 || neighbors == 3
    } else {
        neighbors == 3
    }
}

/// The state of cell `(x, y)` one generation after `cells`.
pub open spec fn next_cell(cells: Seq<bool>, w: int, h: int, x: int, y: int) -> bool {
    next_state(alive_at(cells, w, h, x, y), alive_neighbors(cells, w, h, x, y))
}

/// The generation that follows `cells`, cell by cell in row-major order.
pub open spec fn next_generation(cells: Seq<bool>, w: int, h: int) -> Seq<bool> {
    Seq::new((w * h) as nat, |i: int| next_cell(cells, w, h, i % w, i / w))
}

/// `n` dead cells.
pub open spec fn all_dead(n: int) -> Seq<bool> {
    Seq::new(n as nat, |i: int| false)
}

/// The flat index of a cell inside the grid is below `w * h`, and the cell's
/// coordinates are found again from it by remainder and quotient.
pub proof fn lemma_flat_index(w: int, h: int, x: int, y: int)
    requires
        in_bounds(w, h, x, y),
    ensures
        0 <= flat_index(w, x, y) < w * h,
        flat_index(w, x, y) % w == x,
        flat_index(w, x, y) / w == y,
{
    assert(0 <= y * w && y * w + w <= h * w && h * w == w * h) by (nonlinear_arith)
        requires
            0 <= y < h,
            0 < w,
    ;
    lemma_fundamental_div_mod_converse(flat_index(w, x, y), w, y, x);
}

/// A generation has as many cells as the grid has coordinates.
pub proof fn lemma_next_generation_len(cells: Seq<bool>, w: int, h: int)
    requires
        0 <= w,
        0 <= h,
    ensures
        next_generation(cells, w, h).len() == w * h,
{
    assert(0 <= w * h) by (nonlinear_arith)
        requires
            0 <= w,
            0 <= h,
    ;
}

/// Nothing is born from nothing: a grid of dead cells stays dead.
pub proof fn lemma_dead_stays_dead(w: int, h: int)
    requires
        0 <= w,
        0 <= h,
    ensures
        next_generation(all_dead(w * h), w, h) == all_dead(w * h),
{
    let dead = all_dead(w * h);
    assert forall|x: int, y: int| !alive_at(dead, w, h, x, y) by {
        if in_bounds(w, h, x, y) {
            lemma_flat_index(w, h, x, y);
        }
    }
    assert forall|i: int| 0 <= i < next_generation(dead, w, h).len() implies !next_generation(
        dead,
        w,
        h,
    )[i] by {
        let x = i % w;
        let y = i / w;
        assert(!alive_at(dead, w, h, x, y));
        assert(!alive_at(dead, w, h, x - 1, y - 1));
        assert(!alive_at(dead, w, h, x, y - 1));
        assert(!alive_at(dead, w, h, x + 1, y - 1));
        assert(!alive_at(dead, w, h, x - 1, y));
        assert(!alive_at(dead, w, h, x + 1, y));
        assert(!alive_at(dead, w, h, x - 1, y + 1));
        assert(!alive_at(dead, w, h, x, y + 1));
        assert(!alive_at(dead, w, h, x + 1, y + 1));
    }
    assert(next_generation(dead, w, h) =~= dead);
}

/// A cell of the grid none of whose neighbours lives is dead in the next
/// generation, whatever it was.
pub proof fn lemma_isolated_cell_dies(cells: Seq<bool>, w: int, h: int, x: int, y: int)
    requires
        in_bounds(w, h, x, y),
        alive_neighbors(cells, w, h, x, y) == 0,
    ensures
        !next_generation(cells, w, h)[flat_index(w, x, y)],
        !alive_at(next_generation(cells, w, h), w, h, x, y),
{
    lemma_flat_index(w, h, x, y);
}

/// Inside the grid, the cell `(x, y)` of the next generation is what the
/// rule makes of the cell and its neighbours in this one.
pub proof fn lemma_next_generation_at(cells: Seq<bool>, w: int, h: int, x: int, y: int)
    requires
        in_bounds(w, h, x, y),
    ensures
        alive_at(next_generation(cells, w, h), w, h, x, y) == next_cell(cells, w, h, x, y),
{
    lemma_flat_index(w, h, x, y);
}

/// Reads the cell at `(x, y)`, which may lie outside the grid.
fn probe(cells: &Vec<bool>, width: u32, height: u32, x: i64, y: i64) -> (alive: bool)
    requires
        cells@.len() == width * height,
    ensures
        alive == alive_at(cells@, width as int, height as int, x as int, y as int),
{
    if 0 <= x && x < width as i64 && 0 <= y && y < height as i64 {
        let size: usize = cells.len();
        proof {
            lemma_flat_index(width as int, height as int, x as int, y as int);
            assert(0 <= y * width) by (nonlinear_arith)
                requires
                    0 <= y,
                    0 <= width,
            ;
            assert(flat_index(width as int, x as int, y as int) < size);
        }
        let index: usize = y as usize * width as usize + x as usize;
        cells[index]
    } else {
        false
    }
}

/// Counts one for a living cell at `(x, y)`.
fn tally(cells: &Vec<bool>, width: u32, height: u32, x: i64, y: i64) -> (count: u8)
    requires
        cells@.len() == width * height,
    ensures
        count == population_at(cells@, width as int, height as int, x as int, y as int),
{
    if probe(cells, width, height, x, y) { 1 } else { 0 }
}

/// Counts the living neighbours of the cell `(x, y)` of the grid.
pub fn count_alive_neighbors(cells: &Vec<bool>, width: u32, height: u32, x: u32, y: u32) -> (count: u8)
    requires
        cells@.len() == width * height,
    ensures
        count == alive_neighbors(cells@, width as int, height as int, x as int, y as int),
        count <= 8,
{
    let cx: i64 = x as i64;
    let cy: i64 = y as i64;
    let above: u8 = tally(cells, width, height, cx - 1, cy - 1)
        + tally(cells, width, height, cx, cy - 1)
        + tally(cells, width, height, cx + 1, cy - 1);
    let beside: u8 = tally(cells, width, height, cx - 1, cy)
        + tally(cells, width, height, cx + 1, cy);
    let below: u8 = tally(cells, width, height, cx - 1, cy + 1)
        + tally(cells, width, height, cx, cy + 1)
        + tally(cells, width, height, cx + 1, cy + 1);
    above + beside + below
}

/// Decides the fate of one cell from its state and its living neighbours.
pub fn decide(alive: bool, neighbors: u8) -> (next: bool)
    ensures
        next == next_state(alive, neighbors as int),
{
    if alive {
        neighbors == 2 || neighbors == 3
    } else {
        neighbors == 3
    }
}

/// Computes the next generation into a fresh sequence; `cells` is only read,
/// so every neighbour count sees the current generation.
pub fn step(cells: &Vec<bool>, width: u32, height: u32) -> (next: Vec<bool>)
    requires
        cells@.len() == width * height,
    ensures
        next@ == next_generation(cells@, width as int, height as int),
        next@.len() == cells@.len(),
{
    let ghost w = width as int;
    let ghost h = height as int;
    let mut next: Vec<bool> = Vec::new();
    let mut y: u32 = 0;
    while y < height
        invariant
            w == width,
            h == height,
            y <= height,
            cells@.len() == w * h,
            next@.len() == y * w,
            forall|i: int| 0 <= i < next@.len() ==> next@[i] == next_cell(cells@, w, h, i % w, i / w),
        decreases height - y,
    {
        let mut x: u32 = 0;
        while x < width
            invariant
                w == width,
                h == height,
                y < height,
                x <= width,
                cells@.len() == w * h,
                next@.len() == y * w + x,
                forall|i: int| 0 <= i < next@.len() ==> next@[i] == next_cell(cells@, w, h, i % w, i / w),
            decreases width - x,
        {
            proof {
                lemma_flat_index(w, h, x as int, y as int);
            }
            let alive = probe(cells, width, height, x as i64, y as i64);
            let neighbors = count_alive_neighbors(cells, width, height, x, y);
            next.push(decide(alive, neighbors));
            x += 1;
        }
        assert(y * w + w == (y + 1) * w) by (nonlinear_arith);
        y += 1;
    }
    assert(next@.len() == w * h) by (nonlinear_arith)
        requires
            next@.len() == y * w,
            y == h,
    ;
    assert(next@ =~= next_generation(cells@, w, h));
    next
}

/// Replaces the grid by its next generation.
pub fn update_grid(grid: &mut Vec<bool>, width: &u32, height: &u32)
    requires
        old(grid)@.len() == *width * *height,
    ensures
        final(grid)@ == next_generation(old(grid)@, *width as int, *height as int),
        final(grid)@.len() == old(grid)@.len(),
{
    let next = step(grid, *width, *height);
    *grid = next;
}

} // verus!
