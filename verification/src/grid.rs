//! The grid store: a rectangle of cells with its dimensions.

use vstd::prelude::*;
use crate::evolution::{
    alive_at, all_dead, flat_index, in_bounds, lemma_flat_index, next_generation, step,
};
use crate::source::{generator_state, random_cells, read_cell, state_after};

verus! {

/// The most cells that a grid may hold.
pub const MAX_CELLS: u32 = 4294967295;

/// Why a pair of dimensions cannot make a grid.
#[derive(Debug, Clone, Copy, PartialEq, Eq, Structural)]
pub enum GridError {
    /// The width or the height is zero.
    ZeroDimension,
    /// The grid would hold more than `MAX_CELLS` cells.
    TooLarge,
}

/// Whether a grid can have the dimensions `w` by `h`.
pub open spec fn valid_dimensions(w: int, h: int) -> bool {
    w > 0 && h > 0 && w * h <= MAX_CELLS
}

/// The error that dimensions which are not valid give.
pub open spec fn dimension_error(w: int, h: int) -> GridError {
    if w <= 0 || h <= 0 {
        GridError::ZeroDimension
    } else {
        GridError::TooLarge
    }
}

/// What a lookup of `(x, y)` finds: the cell, or nothing outside the grid.
pub open spec fn lookup(cells: Seq<bool>, w: int, h: int, x: int, y: int) -> Option<bool> {
    if in_bounds(w, h, x, y) {
        Some(cells[flat_index(w, x, y)])
    } else {
        None
    }
}

/// The cells with `(x, y)` overwritten by `value`; unchanged where `(x, y)`
/// lies outside the grid.
pub open spec fn with_cell(cells: Seq<bool>, w: int, h: int, x: int, y: int, value: bool) -> Seq<bool> {
    if in_bounds(w, h, x, y) {
        cells.update(flat_index(w, x, y), value)
    } else {
        cells
    }
}

/// The cells with `(x, y)` inverted; unchanged where `(x, y)` lies outside
/// the grid.
pub open spec fn toggled(cells: Seq<bool>, w: int, h: int, x: int, y: int) -> Seq<bool> {
    with_cell(cells, w, h, x, y, !alive_at(cells, w, h, x, y))
}

/// The cells of a `w` by `h` grid laid out anew as `nw` by `nh`: a cell keeps
/// its coordinates, and a coordinate that the old grid did not have is dead.
pub open spec fn resized(cells: Seq<bool>, w: int, h: int, nw: int, nh: int) -> Seq<bool> {
    Seq::new((nw * nh) as nat, |i: int| alive_at(cells, w, h, i % nw, i / nw))
}

/// Toggling the same cell twice gives the grid back as it was, and the
/// second toggle leaves the cell in the state it had before the first.
pub proof fn lemma_toggle_twice(cells: Seq<bool>, w: int, h: int, x: int, y: int)
    requires
        cells.len() == w * h,
    ensures
        toggled(toggled(cells, w, h, x, y), w, h, x, y) == cells,
        alive_at(toggled(toggled(cells, w, h, x, y), w, h, x, y), w, h, x, y) == alive_at(
            cells,
            w,
            h,
            x,
            y,
        ),
{
    if in_bounds(w, h, x, y) {
        lemma_flat_index(w, h, x, y);
    }
    assert(toggled(toggled(cells, w, h, x, y), w, h, x, y) =~= cells);
}

/// After a resize a lookup inside the new grid always finds a cell: the one
/// that had these coordinates before, or a dead one where the old grid had
/// no such coordinates.
pub proof fn lemma_lookup_after_resize(
    cells: Seq<bool>,
    w: int,
    h: int,
    nw: int,
    nh: int,
    x: int,
    y: int,
)
    requires
        cells.len() == w * h,
        in_bounds(nw, nh, x, y),
    ensures
        lookup(resized(cells, w, h, nw, nh), nw, nh, x, y) == Some(alive_at(cells, w, h, x, y)),
        !in_bounds(w, h, x, y) ==> lookup(resized(cells, w, h, nw, nh), nw, nh, x, y) == Some(
            false,
        ),
        in_bounds(w, h, x, y) ==> lookup(resized(cells, w, h, nw, nh), nw, nh, x, y) == lookup(
            cells,
            w,
            h,
            x,
            y,
        ),
{
    lemma_flat_index(nw, nh, x, y);
}

/// A rectangle of cells, each alive or dead, stored row by row.
#[derive(Debug, Clone)]
pub struct Grid {
    width: u32,
    height: u32,
    cells: Vec<bool>,
}

impl View for Grid {
    type V = Seq<bool>;

    closed spec fn view(&self) -> Seq<bool> {
        self.cells@
    }
}

impl Grid {
    /// The number of columns.
    pub closed spec fn spec_width(&self) -> int {
        self.width as int
    }

    /// The number of rows.
    pub closed spec fn spec_height(&self) -> int {
        self.height as int
    }

    /// The invariant: valid dimensions, and one cell for each coordinate.
    pub open spec fn wf(&self) -> bool {
        &&& valid_dimensions(self.spec_width(), self.spec_height())
        &&& self@.len() == self.spec_width() * self.spec_height()
    }

    /// Whether the cell `(x, y)` is alive; dead outside the grid.
    pub open spec fn cell(&self, x: int, y: int) -> bool {
        alive_at(self@, self.spec_width(), self.spec_height(), x, y)
    }

    /// Whether two grids have the same dimensions.
    pub open spec fn same_shape(&self, other: &Grid) -> bool {
        self.spec_width() == other.spec_width() && self.spec_height() == other.spec_height()
    }

    /// Makes a grid of dead cells, or says why the dimensions allow none.
    pub fn new(width: u32, height: u32) -> (made: Result<Grid, GridError>)
        ensures
            match made {
                Ok(grid) => {
                    &&& valid_dimensions(width as int, height as int)
                    &&& grid.wf()
                    &&& grid.spec_width() == width
                    &&& grid.spec_height() == height
                    &&& grid@ == all_dead(width * height)
                },
                Err(error) => {
                    &&& !valid_dimensions(width as int, height as int)
                    &&& error == dimension_error(width as int, height as int)
                },
            },
    {
        match checked_cells(width, height) {
            Ok(count) => {
                let cells = dead_cells(count);
                Ok(Grid { width, height, cells })
            },
            Err(error) => Err(error),
        }
    }

    /// The number of columns.
    pub fn width(&self) -> (width: u32)
        ensures
            width == self.spec_width(),
    {
        self.width
    }

    /// The number of rows.
    pub fn height(&self) -> (height: u32)
        ensures
            height == self.spec_height(),
    {
        self.height
    }

    /// The cells, row by row.
    pub fn cells(&self) -> (cells: &Vec<bool>)
        ensures
            cells@ == self@,
    {
        &self.cells
    }

    /// Looks up the cell `(x, y)`.
    pub fn get(&self, x: u32, y: u32) -> (found: Option<bool>)
        requires
            self.wf(),
        ensures
            found == lookup(self@, self.spec_width(), self.spec_height(), x as int, y as int),
    {
        if x < self.width && y < self.height {
            let index = self.index_of(x, y);
            Some(self.cells[index])
        } else {
            None
        }
    }

    /// The place of a cell of the grid in the row-major sequence.
    fn index_of(&self, x: u32, y: u32) -> (index: usize)
        requires
            self.wf(),
            in_bounds(self.spec_width(), self.spec_height(), x as int, y as int),
        ensures
            index == flat_index(self.spec_width(), x as int, y as int),
            index < self@.len(),
    {
        proof {
            lemma_flat_index(self.spec_width(), self.spec_height(), x as int, y as int);
            assert(0 <= y * self.width) by (nonlinear_arith)
                requires
                    0 <= y,
                    0 <= self.width,
            ;
        }
        y as usize * self.width as usize + x as usize
    }

    /// Overwrites the cell `(x, y)`; does nothing outside the grid.
    pub fn set(&mut self, x: u32, y: u32, value: bool)
        requires
            old(self).wf(),
        ensures
            final(self).wf(),
            final(self).same_shape(old(self)),
            final(self)@ == with_cell(
                old(self)@,
                old(self).spec_width(),
                old(self).spec_height(),
                x as int,
                y as int,
                value,
            ),
    {
        if x < self.width && y < self.height {
            let index = self.index_of(x, y);
            self.cells.set(index, value);
        }
    }

    /// Inverts the cell `(x, y)` and returns its new state. Outside the grid
    /// nothing changes and the answer is `false`.
    pub fn toggle(&mut self, x: u32, y: u32) -> (now: bool)
        requires
            old(self).wf(),
        ensures
            final(self).wf(),
            final(self).same_shape(old(self)),
            final(self)@ == toggled(
                old(self)@,
                old(self).spec_width(),
                old(self).spec_height(),
                x as int,
                y as int,
            ),
            now == final(self).cell(x as int, y as int),
            now == (in_bounds(old(self).spec_width(), old(self).spec_height(), x as int, y as int)
                && !old(self).cell(x as int, y as int)),
    {
        match self.get(x, y) {
            Some(alive) => {
                proof {
                    lemma_flat_index(self.spec_width(), self.spec_height(), x as int, y as int);
                }
                self.set(x, y, !alive);
                !alive
            },
            None => false,
        }
    }

    /// Makes every cell dead.
    pub fn clear(&mut self)
        requires
            old(self).wf(),
        ensures
            final(self).wf(),
            final(self).same_shape(old(self)),
            final(self)@ == all_dead(old(self)@.len() as int),
    {
        let count = self.cells.len();
        self.cells = dead_cells(count);
    }

    /// Gives every cell the state that the next read of `source` decides, in
    /// row-major order.
    pub fn randomize(&mut self, source: &mut random::Xorshift128Plus)
        requires
            old(self).wf(),
        ensures
            final(self).wf(),
            final(self).same_shape(old(self)),
            final(self)@ == random_cells(generator_state(*old(source)), old(self)@.len()),
            generator_state(*final(source)) == state_after(
                generator_state(*old(source)),
                old(self)@.len(),
            ),
    {
        let count = self.cells.len();
        let ghost start = generator_state(*source);
        let mut cells: Vec<bool> = Vec::new();
        let mut i: usize = 0;
        while i < count
            invariant
                i <= count,
                cells@.len() == i,
                generator_state(*source) == state_after(start, i as nat),
                forall|j: int| 0 <= j < i ==> cells@[j] == random_cells(start, count as nat)[j],
            decreases count - i,
        {
            let alive = read_cell(source);
            cells.push(alive);
            i += 1;
        }
        assert(cells@ =~= random_cells(start, count as nat));
        self.cells = cells;
    }

    /// Lays the grid out anew with the given dimensions. A cell keeps its
    /// coordinates; cells that no longer fit are dropped, and new cells are
    /// dead. Where the dimensions are not valid the grid stays as it is.
    pub fn resize(&mut self, new_width: u32, new_height: u32) -> (done: Result<(), GridError>)
        requires
            old(self).wf(),
        ensures
            final(self).wf(),
            match done {
                Ok(_) => {
                    &&& valid_dimensions(new_width as int, new_height as int)
                    &&& final(self).spec_width() == new_width
                    &&& final(self).spec_height() == new_height
                    &&& final(self)@ == resized(
                        old(self)@,
                        old(self).spec_width(),
                        old(self).spec_height(),
                        new_width as int,
                        new_height as int,
                    )
                },
                Err(error) => {
                    &&& !valid_dimensions(new_width as int, new_height as int)
                    &&& error == dimension_error(new_width as int, new_height as int)
                    &&& *final(self) == *old(self)
                },
            },
    {
        match checked_cells(new_width, new_height) {
            Ok(_) => {
                let ghost w = self.spec_width();
                let ghost h = self.spec_height();
                let ghost nw = new_width as int;
                let ghost nh = new_height as int;
                let ghost before = self@;
                let mut cells: Vec<bool> = Vec::new();
                let mut y: u32 = 0;
                while y < new_height
                    invariant
                        self.wf(),
                        self@ == before,
                        w == self.spec_width(),
                        h == self.spec_height(),
                        nw == new_width,
                        nh == new_height,
                        0 < nw,
                        y <= new_height,
                        cells@.len() == y * nw,
                        forall|i: int| 0 <= i < cells@.len() ==> cells@[i] == alive_at(before, w, h, i % nw, i / nw),
                    decreases new_height - y,
                {
                    let mut x: u32 = 0;
                    while x < new_width
                        invariant
                            self.wf(),
                            self@ == before,
                            w == self.spec_width(),
                            h == self.spec_height(),
                            nw == new_width,
                            nh == new_height,
                            0 < nw,
                            y < new_height,
                            x <= new_width,
                            cells@.len() == y * nw + x,
                            forall|i: int| 0 <= i < cells@.len() ==> cells@[i] == alive_at(before, w, h, i % nw, i / nw),
                        decreases new_width - x,
                    {
                        proof {
                            lemma_flat_index(nw, nh, x as int, y as int);
                        }
                        let alive = match self.get(x, y) {
                            Some(alive) => alive,
                            None => false,
                        };
                        cells.push(alive);
                        x += 1;
                    }
                    assert(y * nw + nw == (y + 1) * nw) by (nonlinear_arith);
                    y += 1;
                }
                assert(cells@.len() == nw * nh) by (nonlinear_arith)
                    requires
                        cells@.len() == y * nw,
                        y == nh,
                ;
                assert(cells@ =~= resized(before, w, h, nw, nh));
                self.width = new_width;
                self.height = new_height;
                self.cells = cells;
                Ok(())
            },
            Err(error) => Err(error),
        }
    }

    /// Takes the grid to its next generation.
    pub fn step(&mut self)
        requires
            old(self).wf(),
        ensures
            final(self).wf(),
            final(self).same_shape(old(self)),
            final(self)@ == next_generation(
                old(self)@,
                old(self).spec_width(),
                old(self).spec_height(),
            ),
    {
        let next = step(&self.cells, self.width, self.height);
        self.cells = next;
    }
}

/// The number of cells of a grid with the given dimensions, or why there is
/// no such grid.
pub fn checked_cells(width: u32, height: u32) -> (count: Result<usize, GridError>)
    ensures
        match count {
            Ok(n) => valid_dimensions(width as int, height as int) && n == width * height,
            Err(error) => {
                &&& !valid_dimensions(width as int, height as int)
                &&& error == dimension_error(width as int, height as int)
            },
        },
{
    if width == 0 || height == 0 {
        return Err(GridError::ZeroDimension);
    }
    assert(0 < width * height <= 0xFFFF_FFFF * 0xFFFF_FFFF) by (nonlinear_arith)
        requires
            0 < width <= 0xFFFF_FFFF,
            0 < height <= 0xFFFF_FFFF,
    ;
    let product: u64 = width as u64 * height as u64;
    if product > MAX_CELLS as u64 {
        Err(GridError::TooLarge)
    } else {
        Ok(product as usize)
    }
}

/// Makes `count` dead cells.
pub fn dead_cells(count: usize) -> (cells: Vec<bool>)
    ensures
        cells@ == all_dead(count as int),
{
    let mut cells: Vec<bool> = Vec::new();
    let mut i: usize = 0;
    while i < count
        invariant
            i <= count,
            cells@.len() == i,
            forall|j: int| 0 <= j < i ==> !cells@[j],
        decreases count - i,
    {
        cells.push(false);
        i += 1;
    }
    assert(cells@ =~= all_dead(count as int));
    cells
}

} // verus!
