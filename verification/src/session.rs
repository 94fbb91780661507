//! The simulation session: a grid, the playback flag, the brush of the
//! current paint stroke and the random source, behind one set of commands.
//!
//! Every edit of the grid pauses playback. The grid store itself knows
//! nothing of playback; the session is where the two meet.

use vstd::prelude::*;
use crate::evolution::{alive_at, next_generation};
use crate::evolution::all_dead;
use crate::grid::{
    dimension_error, lemma_toggle_twice, lookup, resized, toggled, valid_dimensions, with_cell,
    Grid, GridError,
};
use crate::source::{generator_state, random_cells, source_from_seed, state_after};

verus! {

/// Why a session cannot be set up.
#[derive(Debug, Clone, Copy, PartialEq, Eq, Structural)]
pub enum SessionError {
    /// The dimensions allow no grid.
    Grid(GridError),
    /// Both words of the seed are zero.
    ZeroSeed,
}

/// What a session is, as plain values.
pub struct SessionState {
    /// The cells, row by row.
    pub cells: Seq<bool>,
    /// The number of columns.
    pub width: int,
    /// The number of rows.
    pub height: int,
    /// Whether ticks advance the grid.
    pub running: bool,
    /// The state that the current paint stroke gives to cells.
    pub brush: bool,
    /// The state of the random source.
    pub source: (u64, u64),
}

impl SessionState {
    /// Valid dimensions, and one cell for each coordinate.
    pub open spec fn wf(self) -> bool {
        &&& valid_dimensions(self.width, self.height)
        &&& self.cells.len() == self.width * self.height
    }

    /// The session at its start: every cell dead, playback paused.
    pub open spec fn initial(width: int, height: int, s0: u64, s1: u64) -> SessionState {
        SessionState {
            cells: all_dead(width * height),
            width,
            height,
            running: false,
            brush: false,
            source: (s0, s1),
        }
    }

    /// The session with other cells and playback paused: what every edit
    /// that keeps the dimensions leaves.
    pub open spec fn edited(self, cells: Seq<bool>) -> SessionState {
        SessionState { cells, running: false, ..self }
    }

    /// After `set(x, y, value)`.
    pub open spec fn after_set(self, x: int, y: int, value: bool) -> SessionState {
        self.edited(with_cell(self.cells, self.width, self.height, x, y, value))
    }

    /// After `toggle(x, y)`.
    pub open spec fn after_toggle(self, x: int, y: int) -> SessionState {
        self.edited(toggled(self.cells, self.width, self.height, x, y))
    }

    /// After `clear()`.
    pub open spec fn after_clear(self) -> SessionState {
        self.edited(all_dead(self.cells.len() as int))
    }

    /// After `randomize()`: one read of the source for each cell.
    pub open spec fn after_randomize(self) -> SessionState {
        SessionState {
            cells: random_cells(self.source, self.cells.len()),
            running: false,
            source: state_after(self.source, self.cells.len()),
            ..self
        }
    }

    /// After `resize(width, height)`: with valid dimensions the grid is laid
    /// out anew; otherwise only playback is paused.
    pub open spec fn after_resize(self, width: int, height: int) -> SessionState {
        if valid_dimensions(width, height) {
            SessionState {
                cells: resized(self.cells, self.width, self.height, width, height),
                width,
                height,
                running: false,
                ..self
            }
        } else {
            SessionState { running: false, ..self }
        }
    }

    /// After `step()`: one generation on, playback paused.
    pub open spec fn after_step(self) -> SessionState {
        self.edited(next_generation(self.cells, self.width, self.height))
    }

    /// After `tick()`: one generation on while playback runs, else nothing.
    pub open spec fn after_tick(self) -> SessionState {
        if self.running {
            SessionState { cells: next_generation(self.cells, self.width, self.height), ..self }
        } else {
            self
        }
    }

    /// After `begin_stroke(x, y)`: the brush is the opposite of the pressed
    /// cell, dead where the press fell outside the grid.
    pub open spec fn after_begin_stroke(self, x: int, y: int) -> SessionState {
        SessionState {
            running: false,
            brush: match lookup(self.cells, self.width, self.height, x, y) {
                Some(alive) => !alive,
                None => false,
            },
            ..self
        }
    }

    /// After `paint(x, y)`: the cell under the pointer takes the brush.
    pub open spec fn after_paint(self, x: int, y: int) -> SessionState {
        self.after_set(x, y, self.brush)
    }
}

/// Every command that edits the grid leaves playback paused, whatever it was
/// before and whatever the command was given.
pub proof fn lemma_edits_pause(
    state: SessionState,
    x: int,
    y: int,
    value: bool,
    width: int,
    height: int,
)
    ensures
        !state.after_resize(width, height).running,
        !state.after_randomize().running,
        !state.after_clear().running,
        !state.after_set(x, y, value).running,
        !state.after_toggle(x, y).running,
        !state.after_begin_stroke(x, y).running,
        !state.after_paint(x, y).running,
        !state.after_step().running,
{
}

/// Two toggles of one cell leave the grid as it was, with playback paused.
pub proof fn lemma_toggle_twice_restores(state: SessionState, x: int, y: int)
    requires
        state.wf(),
    ensures
        state.after_toggle(x, y).after_toggle(x, y) == state.edited(state.cells),
{
    lemma_toggle_twice(state.cells, state.width, state.height, x, y);
}

/// Randomizing is reproducible: two sessions whose sources are in the same
/// state and whose grids have the same dimensions get the same cells, and
/// their sources are in the same state afterwards.
pub proof fn lemma_randomize_reproducible(a: SessionState, b: SessionState)
    requires
        a.wf(),
        b.wf(),
        a.source == b.source,
        a.width == b.width,
        a.height == b.height,
    ensures
        a.after_randomize().cells == b.after_randomize().cells,
        a.after_randomize().source == b.after_randomize().source,
{
}

/// Two sessions set up alike hold the same grid after their first
/// randomizing: the seed and the dimensions decide every cell.
pub proof fn lemma_seed_decides_cells(width: int, height: int, s0: u64, s1: u64)
    requires
        valid_dimensions(width, height),
    ensures
        SessionState::initial(width, height, s0, s1).after_randomize().cells == random_cells(
            (s0, s1),
            (width * height) as nat,
        ),
{
}

/// A running simulation.
pub struct Simulation {
    grid: Grid,
    running: bool,
    brush: bool,
    source: random::Xorshift128Plus,
}

impl View for Simulation {
    type V = SessionState;

    closed spec fn view(&self) -> SessionState {
        SessionState {
            cells: self.grid@,
            width: self.grid.spec_width(),
            height: self.grid.spec_height(),
            running: self.running,
            brush: self.brush,
            source: generator_state(self.source),
        }
    }
}

impl Simulation {
    /// The invariant of a session: that of its grid.
    pub open spec fn wf(&self) -> bool {
        self@.wf()
    }

    /// Sets up a session with a dead grid, playback paused, and the random
    /// source seeded with `(s0, s1)`. Dimensions are judged before the seed.
    pub fn new(width: u32, height: u32, s0: u64, s1: u64) -> (made: Result<Simulation, SessionError>)
        ensures
            match made {
                Ok(session) => {
                    &&& valid_dimensions(width as int, height as int)
                    &&& (s0 != 0 || s1 != 0)
                    &&& session.wf()
                    &&& session@ == SessionState::initial(width as int, height as int, s0, s1)
                },
                Err(SessionError::Grid(error)) => {
                    &&& !valid_dimensions(width as int, height as int)
                    &&& error == dimension_error(width as int, height as int)
                },
                Err(SessionError::ZeroSeed) => {
                    &&& valid_dimensions(width as int, height as int)
                    &&& s0 == 0
                    &&& s1 == 0
                },
            },
    {
        match Grid::new(width, height) {
            Ok(grid) => match source_from_seed(s0, s1) {
                Some(source) => Ok(Simulation { grid, running: false, brush: false, source }),
                None => Err(SessionError::ZeroSeed),
            },
            Err(error) => Err(SessionError::Grid(error)),
        }
    }

    /// The number of columns.
    pub fn width(&self) -> (width: u32)
        ensures
            width == self@.width,
    {
        self.grid.width()
    }

    /// The number of rows.
    pub fn height(&self) -> (height: u32)
        ensures
            height == self@.height,
    {
        self.grid.height()
    }

    /// The cells, row by row.
    pub fn cells(&self) -> (cells: &Vec<bool>)
        ensures
            cells@ == self@.cells,
    {
        self.grid.cells()
    }

    /// Looks up the cell `(x, y)`.
    pub fn get(&self, x: u32, y: u32) -> (found: Option<bool>)
        requires
            self.wf(),
        ensures
            found == lookup(self@.cells, self@.width, self@.height, x as int, y as int),
    {
        self.grid.get(x, y)
    }

    /// Whether ticks advance the grid.
    pub fn is_running(&self) -> (running: bool)
        ensures
            running == self@.running,
    {
        self.running
    }

    /// The state that the current paint stroke gives to cells.
    pub fn brush(&self) -> (brush: bool)
        ensures
            brush == self@.brush,
    {
        self.brush
    }

    /// Starts or pauses playback.
    pub fn set_running(&mut self, running: bool)
        ensures
            final(self)@ == (SessionState { running, ..old(self)@ }),
    {
        self.running = running;
    }

    /// Pauses playback if it runs, starts it if it is paused.
    pub fn toggle_running(&mut self) -> (running: bool)
        ensures
            final(self)@ == (SessionState { running: !old(self)@.running, ..old(self)@ }),
            running == !old(self)@.running,
    {
        self.running = !self.running;
        self.running
    }

    /// Overwrites the cell `(x, y)`, or nothing outside the grid, and pauses
    /// playback.
    pub fn set(&mut self, x: u32, y: u32, value: bool)
        requires
            old(self).wf(),
        ensures
            final(self).wf(),
            final(self)@ == old(self)@.after_set(x as int, y as int, value),
    {
        self.running = false;
        self.grid.set(x, y, value);
    }

    /// Inverts the cell `(x, y)`, or nothing outside the grid, pauses
    /// playback and returns the cell's new state.
    pub fn toggle(&mut self, x: u32, y: u32) -> (now: bool)
        requires
            old(self).wf(),
        ensures
            final(self).wf(),
            final(self)@ == old(self)@.after_toggle(x as int, y as int),
            now == alive_at(final(self)@.cells, final(self)@.width, final(self)@.height, x as int, y as int),
    {
        self.running = false;
        self.grid.toggle(x, y)
    }

    /// Makes every cell dead and pauses playback.
    pub fn clear(&mut self)
        requires
            old(self).wf(),
        ensures
            final(self).wf(),
            final(self)@ == old(self)@.after_clear(),
    {
        self.running = false;
        self.grid.clear();
    }

    /// Fills the grid from the random source and pauses playback.
    pub fn randomize(&mut self)
        requires
            old(self).wf(),
        ensures
            final(self).wf(),
            final(self)@ == old(self)@.after_randomize(),
    {
        self.running = false;
        self.grid.randomize(&mut self.source);
    }

    /// Lays the grid out anew and pauses playback. Dimensions that are not
    /// valid are refused and leave the grid as it is.
    pub fn resize(&mut self, width: u32, height: u32) -> (done: Result<(), GridError>)
        requires
            old(self).wf(),
        ensures
            final(self).wf(),
            final(self)@ == old(self)@.after_resize(width as int, height as int),
            done is Ok <==> valid_dimensions(width as int, height as int),
            done is Err ==> done->Err_0 == dimension_error(width as int, height as int),
    {
        self.running = false;
        self.grid.resize(width, height)
    }

    /// Pauses playback and takes the grid one generation on.
    pub fn step(&mut self)
        requires
            old(self).wf(),
        ensures
            final(self).wf(),
            final(self)@ == old(self)@.after_step(),
    {
        self.running = false;
        self.grid.step();
    }

    /// Takes the grid one generation on if playback runs.
    pub fn tick(&mut self)
        requires
            old(self).wf(),
        ensures
            final(self).wf(),
            final(self)@ == old(self)@.after_tick(),
    {
        if self.running {
            self.grid.step();
        }
    }

    /// Starts a paint stroke at `(x, y)`: pauses playback and picks the brush.
    pub fn begin_stroke(&mut self, x: u32, y: u32)
        requires
            old(self).wf(),
        ensures
            final(self).wf(),
            final(self)@ == old(self)@.after_begin_stroke(x as int, y as int),
    {
        self.running = false;
        self.brush = match self.grid.get(x, y) {
            Some(alive) => !alive,
            None => false,
        };
    }

    /// Paints the cell `(x, y)` with the brush and pauses playback.
    pub fn paint(&mut self, x: u32, y: u32)
        requires
            old(self).wf(),
        ensures
            final(self).wf(),
            final(self)@ == old(self)@.after_paint(x as int, y as int),
    {
        self.running = false;
        self.grid.set(x, y, self.brush);
    }
}

} // verus!
