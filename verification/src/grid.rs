//! The mathematical model of the world: what a grid is, and the few edits
//! that every rule is made of.

use vstd::prelude::*;
use crate::particle::Particle;
use crate::variant::Variant;

verus! {

/// What a cell holds besides its particle.
#[derive(Clone, Copy, Debug, PartialEq, Eq, Structural)]
pub struct Environment {
    pub pressure: i32,
    /// In thousandths of a degree Celsius.
    pub ambient_temperature: i32,
    pub ambient_pressure: i32,
}

/// The ambient temperature of a new world.
pub const AMBIENT_TEMPERATURE: i32 = 22_000;

impl Environment {
    /// No pressure, and room temperature.
    pub open spec fn spec_calm() -> Environment {
        Environment { pressure: 0, ambient_temperature: AMBIENT_TEMPERATURE, ambient_pressure: 0 }
    }

    /// The environment of a new cell, and of every place outside the grid.
    #[verifier::when_used_as_spec(spec_calm)]
    pub fn calm() -> (e: Environment)
        ensures
            e == Self::spec_calm(),
    {
        Environment { pressure: 0, ambient_temperature: AMBIENT_TEMPERATURE, ambient_pressure: 0 }
    }
}

/// Number of cells of a grid with the given sides; a side that is not
/// positive leaves no cell.
pub open spec fn cell_count(width: int, height: int) -> int {
    if width > 0 && height > 0 {
        width * height
    } else {
        0
    }
}

/// The world as a value: cells in row-major order, and the scheduler's state.
pub struct Grid {
    pub cells: Seq<Particle>,
    pub env: Seq<Environment>,
    pub width: int,
    pub height: int,
    pub running: bool,
    pub generation: u8,
    /// Indices of the cells that changed in the running sweep.
    pub modified: Set<usize>,
    pub cleared: bool,
    /// What the last rule returned.
    pub latch: bool,
}

impl Grid {
    /// Whether the grid has one particle and one environment for each place,
    /// and no more places than an index of 32 bits can name.
    pub open spec fn wf(self) -> bool {
        &&& self.cells.len() == cell_count(self.width, self.height)
        &&& self.env.len() == cell_count(self.width, self.height)
        &&& cell_count(self.width, self.height) <= i32::MAX
    }

    /// Whether a place lies inside the grid.
    pub open spec fn in_bounds(self, x: int, y: int) -> bool {
        0 <= x < self.width && 0 <= y < self.height
    }

    /// The index of the cell at a place: rows lie one behind the other.
    pub open spec fn index(self, x: int, y: int) -> int {
        x + y * self.width
    }

    /// The clock value that marks a cell as written in the running sweep.
    pub open spec fn stamp(self) -> u8 {
        if self.generation == 255 {
            0
        } else {
            (self.generation + 1) as u8
        }
    }

    /// The particle at a place, as the host sees it: outside the grid there
    /// is nothing.
    pub open spec fn at(self, x: int, y: int) -> Particle {
        if self.in_bounds(x, y) {
            self.cells[self.index(x, y)]
        } else {
            Particle::spec_empty()
        }
    }

    /// The wall that rules see beyond the border.
    pub open spec fn border(self) -> Particle {
        Particle { variant: Variant::Wall, clock: self.generation, ..Particle::spec_empty() }
    }

    /// The particle at a place, as a rule sees it: the grid is walled in.
    pub open spec fn look(self, x: int, y: int) -> Particle {
        if self.in_bounds(x, y) {
            self.cells[self.index(x, y)]
        } else {
            self.border()
        }
    }

    /// The grid after a rule wrote `p` at a place: the cell holds `p`, stamped
    /// as written in this sweep; a place outside the grid takes nothing.
    pub open spec fn put(self, x: int, y: int, p: Particle) -> Grid {
        if self.in_bounds(x, y) {
            Grid {
                cells: self.cells.update(self.index(x, y), Particle { clock: self.stamp(), ..p }),
                ..self
            }
        } else {
            self
        }
    }

    /// Whether the grid has cells with both of these indices.
    pub open spec fn can_exchange(self, i: int, j: int) -> bool {
        &&& 0 <= i < self.cells.len()
        &&& 0 <= j < self.cells.len()
    }

    /// The grid after two cells changed places: each holds what the other
    /// held, with the latch as its `modified` flag. Where one of the cells
    /// does not exist, nothing changes.
    pub open spec fn exchange(self, i: int, j: int) -> Grid {
        if self.can_exchange(i, j) {
            let a = Particle { modified: self.latch, ..self.cells[i] };
            let b = Particle { modified: self.latch, ..self.cells[j] };
            Grid { cells: self.cells.update(i, b).update(j, a), ..self }
        } else {
            self
        }
    }

    /// The grid with the particle at a place flagged as having acted in the
    /// running sweep.
    pub open spec fn mark(self, x: int, y: int) -> Grid {
        if self.in_bounds(x, y) {
            let i = self.index(x, y);
            Grid { cells: self.cells.update(i, Particle { modified: true, ..self.cells[i] }), ..self }
        } else {
            self
        }
    }

    /// The grid with the ambient temperature of a place set.
    pub open spec fn warm(self, x: int, y: int, temperature: i32) -> Grid {
        if self.in_bounds(x, y) {
            let i = self.index(x, y);
            Grid {
                env: self.env.update(i, Environment { ambient_temperature: temperature, ..self.env[i] }),
                ..self
            }
        } else {
            self
        }
    }

    /// The grid with the ambient pressure of a place set.
    pub open spec fn press(self, x: int, y: int, pressure: i32) -> Grid {
        if self.in_bounds(x, y) {
            let i = self.index(x, y);
            Grid {
                env: self.env.update(i, Environment { ambient_pressure: pressure, ..self.env[i] }),
                ..self
            }
        } else {
            self
        }
    }

    /// The environment of a place; outside the grid it is calm.
    pub open spec fn climate(self, x: int, y: int) -> Environment {
        if self.in_bounds(x, y) {
            self.env[self.index(x, y)]
        } else {
            Environment::spec_calm()
        }
    }

    /// The grid with a cell index added to the set of changed cells.
    pub open spec fn record(self, i: usize) -> Grid {
        Grid { modified: self.modified.insert(i), ..self }
    }

    /// Whether two grids have the same shape and scheduler state, whatever
    /// their cells hold.
    pub open spec fn same_frame(self, other: Grid) -> bool {
        &&& self.width == other.width
        &&& self.height == other.height
        &&& self.generation == other.generation
        &&& self.running == other.running
        &&& self.cells.len() == other.cells.len()
        &&& self.env.len() == other.env.len()
    }
}

/// A place inside the grid has an index below the number of cells.
pub proof fn lemma_index_in_range(width: int, height: int, x: int, y: int)
    requires
        0 <= x < width,
        0 <= y < height,
    ensures
        0 <= x + y * width < cell_count(width, height),
        x + y * width < width * height,
{
    assert(y * width <= (height - 1) * width) by (nonlinear_arith)
        requires
            0 <= y <= height - 1,
            width > 0,
    ;
    assert((height - 1) * width == height * width - width) by (nonlinear_arith);
    assert(height * width == width * height) by (nonlinear_arith);
    assert(0 <= y * width) by (nonlinear_arith)
        requires
            0 <= y,
            width > 0,
    ;
}

/// Two places inside the grid with one index are one place.
pub proof fn lemma_index_injective(width: int, x1: int, y1: int, x2: int, y2: int)
    requires
        0 <= x1 < width,
        0 <= x2 < width,
        x1 + y1 * width == x2 + y2 * width,
    ensures
        x1 == x2,
        y1 == y2,
{
    if y1 < y2 {
        assert(y2 * width >= (y1 + 1) * width) by (nonlinear_arith)
            requires
                y2 >= y1 + 1,
                width > 0,
        ;
        assert((y1 + 1) * width == y1 * width + width) by (nonlinear_arith);
    } else if y2 < y1 {
        assert(y1 * width >= (y2 + 1) * width) by (nonlinear_arith)
            requires
                y1 >= y2 + 1,
                width > 0,
        ;
        assert((y2 + 1) * width == y2 * width + width) by (nonlinear_arith);
    }
}

} // verus!
