//! The world: owner of the grid, and what the host calls.

use vstd::prelude::*;
use std::collections::HashSet;
use crate::grid::{cell_count, lemma_index_in_range, Environment, Grid};
use crate::palette::particle_to_color;
use crate::particle::Particle;
use crate::variant::{Variant, VARIANT_COUNT};
use crate::variant_type::{lemma_immutable_flag, VariantType, FLAG_IMMUTABLE};

verus! {

/// The grid and the state of its scheduler.
pub struct World {
    /// One particle for each cell, row by row from the top.
    pub particles: Vec<Particle>,
    /// The environment of each cell, in the same order.
    pub environment: Vec<Environment>,
    pub width: i32,
    pub height: i32,
    pub running: bool,
    /// Number of sweeps so far, modulo 256.
    pub generation: u8,
    /// Indices of the cells that changed in the running sweep.
    pub modified_indices: HashSet<usize>,
    /// Whether the grid was emptied since the last sweep.
    pub cleared: bool,
    /// The latch: what the last rule reported.
    pub modified_state: bool,
}

impl View for World {
    type V = Grid;

    open spec fn view(&self) -> Grid {
        Grid {
            cells: self.particles@,
            env: self.environment@,
            width: self.width as int,
            height: self.height as int,
            running: self.running,
            generation: self.generation,
            modified: self.modified_indices@,
            cleared: self.cleared,
            latch: self.modified_state,
        }
    }
}

/// Number of particles in `cells` that are neither empty nor wall.
pub open spec fn population(cells: Seq<Particle>) -> nat
    decreases cells.len(),
{
    if cells.len() == 0 {
        0
    } else {
        let rest = population(cells.drop_last());
        if cells.last().variant != Variant::Empty && cells.last().variant != Variant::Wall {
            rest + 1
        } else {
            rest
        }
    }
}

impl Grid {
    /// A new world of the given sides: empty, calm and running.
    pub open spec fn fresh(width: int, height: int) -> Grid {
        Grid {
            cells: Seq::new(cell_count(width, height) as nat, |i: int| Particle::spec_empty()),
            env: Seq::new(cell_count(width, height) as nat, |i: int| Environment::spec_calm()),
            width,
            height,
            running: true,
            generation: 0,
            modified: Set::empty(),
            cleared: false,
            latch: false,
        }
    }

    /// The grid emptied: every cell the empty cell, nothing recorded as
    /// changed, and the grid flagged as cleared.
    pub open spec fn emptied(self) -> Grid {
        Grid {
            cells: Seq::new(self.cells.len(), |i: int| Particle::spec_empty()),
            modified: Set::empty(),
            cleared: true,
            ..self
        }
    }

    /// Whether the host has anything to redraw.
    pub open spec fn needs_update(self) -> bool {
        self.cleared || !self.modified.is_empty()
    }

    /// The grid after the host placed a fresh particle: a wall stays, and so
    /// does a particle of the material asked for.
    pub open spec fn placed(self, x: int, y: int, variant: Variant, grain: u8) -> Grid {
        if !self.in_bounds(x, y) || self.at(x, y).variant == variant || self.at(x, y).variant
            == Variant::Wall {
            self
        } else {
            Grid {
                cells: self.cells.update(self.index(x, y), Particle::seeded(variant, grain, 0)),
                ..self
            }
        }
    }

    /// The grid with heat added to the particle at a place.
    pub open spec fn heated(self, x: int, y: int, heat: int) -> Grid {
        if self.in_bounds(x, y) {
            let i = self.index(x, y);
            Grid { cells: self.cells.update(i, self.cells[i].heated(heat)), ..self }
        } else {
            self
        }
    }

    /// The grid with an immutable particle at a place removed.
    pub open spec fn erased(self, x: int, y: int) -> Grid {
        if self.in_bounds(x, y) && self.at(x, y).variant.immutable() {
            Grid { cells: self.cells.update(self.index(x, y), Particle::spec_empty()), ..self }
        } else {
            self
        }
    }
}

impl World {
    /// A new world of the given sides: every cell empty, the environment
    /// calm, and the scheduler running.
    pub fn new(width: i32, height: i32) -> (world: World)
        requires
            cell_count(width as int, height as int) <= i32::MAX,
        ensures
            world@ == Grid::fresh(width as int, height as int),
            world@.wf(),
    {
        let count: i64 = if width > 0 && height > 0 {
            assert(width * height <= i32::MAX);
            width as i64 * height as i64
        } else {
            0
        };
        let mut particles: Vec<Particle> = Vec::new();
        let mut environment: Vec<Environment> = Vec::new();
        let mut i: i64 = 0;
        while i < count
            invariant
                0 <= i <= count,
                count == cell_count(width as int, height as int),
                particles@.len() == i,
                environment@.len() == i,
                forall|k: int| 0 <= k < i ==> particles@[k] == Particle::spec_empty(),
                forall|k: int| 0 <= k < i ==> environment@[k] == Environment::spec_calm(),
            decreases count - i,
        {
            particles.push(Particle::empty());
            environment.push(Environment::calm());
            i = i + 1;
        }
        let world = World {
            particles,
            environment,
            width,
            height,
            running: true,
            generation: 0,
            modified_indices: HashSet::new(),
            cleared: false,
            modified_state: false,
        };
        assert(world@.cells =~= Grid::fresh(width as int, height as int).cells);
        assert(world@.env =~= Grid::fresh(width as int, height as int).env);
        world
    }

    /// Whether the world has one particle and one environment for each place
    /// of its grid: what every function that reads or writes a place asks of
    /// the world.
    pub fn is_well_formed(&self) -> (r: bool)
        ensures
            r == self@.wf(),
    {
        let cells: u64 = if self.width > 0 && self.height > 0 {
            assert(0 < self.width * self.height <= 0x7fff_ffff * 0x7fff_ffff) by (nonlinear_arith)
                requires
                    0 < self.width <= 0x7fff_ffff,
                    0 < self.height <= 0x7fff_ffff,
            ;
            self.width as u64 * self.height as u64
        } else {
            0
        };
        cells <= i32::MAX as u64 && self.particles.len() as u64 == cells
            && self.environment.len() as u64 == cells
    }

    /// The particles, in row-major order.
    pub fn particles(&self) -> (cells: &Vec<Particle>)
        ensures
            cells@ == self@.cells,
    {
        &self.particles
    }

    /// Empties every cell and flags the grid as cleared.
    pub fn reset(&mut self)
        ensures
            final(self)@ == old(self)@.emptied(),
    {
        let n = self.particles.len();
        let mut i: usize = 0;
        while i < n
            invariant
                0 <= i <= n,
                n == self.particles@.len(),
                n == old(self).particles@.len(),
                forall|k: int| 0 <= k < i ==> self.particles@[k] == Particle::spec_empty(),
                self.environment == old(self).environment,
                self.width == old(self).width,
                self.height == old(self).height,
                self.running == old(self).running,
                self.generation == old(self).generation,
                self.modified_state == old(self).modified_state,
            decreases n - i,
        {
            self.particles.set(i, Particle::empty());
            i = i + 1;
        }
        self.cleared = true;
        self.modified_indices.clear();
        assert(self@.cells =~= old(self)@.emptied().cells);
    }

    /// Whether the host has anything to redraw.
    pub fn needs_update(&self) -> (r: bool)
        ensures
            r == self@.needs_update(),
    {
        self.cleared || !self.modified_indices.is_empty()
    }

    /// Stops the scheduler: ticks change nothing until it resumes.
    pub fn pause(&mut self)
        ensures
            final(self)@ == (Grid { running: false, ..old(self)@ }),
    {
        self.running = false;
    }

    /// Lets the scheduler run.
    pub fn resume(&mut self)
        ensures
            final(self)@ == (Grid { running: true, ..old(self)@ }),
    {
        self.running = true;
    }

    /// Turns the latch over and gives its new state.
    pub fn toggle_modified_state(&mut self) -> (latch: bool)
        ensures
            final(self)@ == (Grid { latch: !old(self)@.latch, ..old(self)@ }),
            latch == !old(self)@.latch,
    {
        self.modified_state = !self.modified_state;
        self.modified_state
    }

    /// The latch.
    pub fn is_modified(&self) -> (latch: bool)
        ensures
            latch == self@.latch,
    {
        self.modified_state
    }

    /// Whether a place lies inside the grid.
    pub fn contains(&self, x: i32, y: i32) -> (inside: bool)
        ensures
            inside == self@.in_bounds(x as int, y as int),
    {
        0 <= x && x < self.width && 0 <= y && y < self.height
    }

    /// The index of a place inside the grid; of one outside, zero.
    pub fn get_idx(&self, x: i32, y: i32) -> (idx: usize)
        requires
            self@.wf(),
        ensures
            self@.in_bounds(x as int, y as int) ==> idx == self@.index(x as int, y as int) && idx
                < self@.cells.len(),
            !self@.in_bounds(x as int, y as int) ==> idx == 0,
    {
        if !self.contains(x, y) {
            return 0;
        }
        proof {
            lemma_index_in_range(self.width as int, self.height as int, x as int, y as int);
        }
        (x as i64 + y as i64 * self.width as i64) as usize
    }

    /// The particle at a place; outside the grid, the empty cell.
    pub fn get_particle(&self, x: i32, y: i32) -> (p: Particle)
        requires
            self@.wf(),
        ensures
            p == self@.at(x as int, y as int),
            p.variant.spec_code() < VARIANT_COUNT,
            !self@.in_bounds(x as int, y as int) ==> p.variant == Variant::Empty,
    {
        if !self.contains(x, y) {
            return Particle::empty();
        }
        let idx = self.get_idx(x, y);
        self.particles[idx]
    }

    /// The ambient temperature of a place; outside the grid, room
    /// temperature.
    pub fn get_temperature(&self, x: i32, y: i32) -> (t: i32)
        requires
            self@.wf(),
        ensures
            t == self@.climate(x as int, y as int).ambient_temperature,
    {
        if !self.contains(x, y) {
            return Environment::calm().ambient_temperature;
        }
        let idx = self.get_idx(x, y);
        self.environment[idx].ambient_temperature
    }

    /// The ambient pressure of a place; outside the grid, none.
    pub fn get_pressure(&self, x: i32, y: i32) -> (p: i32)
        requires
            self@.wf(),
        ensures
            p == self@.climate(x as int, y as int).ambient_pressure,
    {
        if !self.contains(x, y) {
            return Environment::calm().ambient_pressure;
        }
        let idx = self.get_idx(x, y);
        self.environment[idx].ambient_pressure
    }

    /// Sets the ambient temperature of a place; outside the grid nothing.
    pub fn set_temperature(&mut self, x: i32, y: i32, temperature: i32)
        requires
            old(self)@.wf(),
        ensures
            final(self)@ == old(self)@.warm(x as int, y as int, temperature),
            final(self)@.wf(),
    {
        if !self.contains(x, y) {
            return ;
        }
        let idx = self.get_idx(x, y);
        let mut cell = self.environment[idx];
        cell.ambient_temperature = temperature;
        self.environment.set(idx, cell);
    }

    /// Sets the ambient pressure of a place; outside the grid nothing.
    pub fn set_pressure(&mut self, x: i32, y: i32, pressure: i32)
        requires
            old(self)@.wf(),
        ensures
            final(self)@ == old(self)@.press(x as int, y as int, pressure),
            final(self)@.wf(),
    {
        if !self.contains(x, y) {
            return ;
        }
        let idx = self.get_idx(x, y);
        let mut cell = self.environment[idx];
        cell.ambient_pressure = pressure;
        self.environment.set(idx, cell);
    }

    /// Adds heat to the particle at a place; outside the grid nothing.
    pub fn add_heat(&mut self, x: i32, y: i32, heat: i32)
        requires
            old(self)@.wf(),
        ensures
            final(self)@ == old(self)@.heated(x as int, y as int, heat as int),
            final(self)@.wf(),
    {
        if !self.contains(x, y) {
            return ;
        }
        let idx = self.get_idx(x, y);
        let mut p = self.particles[idx];
        p.add_heat(heat);
        self.particles.set(idx, p);
    }

    /// Number of particles that are neither empty nor wall.
    pub fn get_particle_count(&self) -> (count: usize)
        ensures
            count == population(self@.cells),
    {
        let n = self.particles.len();
        let mut count: usize = 0;
        let mut i: usize = 0;
        assert(self.particles@.take(0) =~= Seq::empty());
        while i < n
            invariant
                0 <= i <= n,
                n == self.particles@.len(),
                count == population(self.particles@.take(i as int)),
                count <= i,
            decreases n - i,
        {
            let v = self.particles[i].get_variant();
            proof {
                let next = self.particles@.take(i + 1);
                assert(next.drop_last() =~= self.particles@.take(i as int));
                assert(next.last() == self.particles@[i as int]);
            }
            match v {
                Variant::Empty => {},
                Variant::Wall => {},
                _ => {
                    count = count + 1;
                },
            }
            i = i + 1;
        }
        assert(self.particles@.take(n as int) =~= self.particles@);
        count
    }

    /// Removes an immutable particle, which nothing else can.
    pub fn erase_indestructible(&mut self, x: i32, y: i32)
        requires
            old(self)@.wf(),
        ensures
            final(self)@ == old(self)@.erased(x as int, y as int),
            final(self)@.wf(),
    {
        if !self.contains(x, y) {
            return ;
        }
        let idx = self.get_idx(x, y);
        let particle = self.particles[idx];
        proof {
            lemma_immutable_flag(particle.variant);
        }
        if VariantType::from_variant(particle.variant).has_flag(FLAG_IMMUTABLE) {
            self.particles.set(idx, Particle::empty());
        }
    }

    /// Places a fresh particle of a material, as a brush does.
    pub fn set_particle(&mut self, x: i32, y: i32, variant: Variant)
        requires
            old(self)@.wf(),
        ensures
            final(self)@.wf(),
            final(self)@ == old(self)@.placed(x as int, y as int, variant, 100) || final(self)@
                == old(self)@.placed(x as int, y as int, variant, 150),
    {
        if !self.contains(x, y) {
            return ;
        }
        let here = self.get_particle(x, y).get_variant();
        if here == variant {
            return ;
        }
        if here == Variant::Wall {
            return ;
        }
        let fresh = Particle::new(VariantType::from_variant(variant), 0, 0);
        self.place(x, y, variant, fresh.ra);
    }

    /// Places a fresh particle of a material with the given grain.
    pub fn place(&mut self, x: i32, y: i32, variant: Variant, grain: u8)
        requires
            old(self)@.wf(),
        ensures
            final(self)@ == old(self)@.placed(x as int, y as int, variant, grain),
            final(self)@.wf(),
    {
        if !self.contains(x, y) {
            return ;
        }
        let here = self.get_particle(x, y).get_variant();
        if here == variant {
            return ;
        }
        if here == Variant::Wall {
            return ;
        }
        let idx = self.get_idx(x, y);
        self.particles.set(
            idx,
            Particle::with_grain(VariantType::from_variant(variant), grain, 0),
        );
    }
}

/// A quarter of a temperature, rounded towards zero.
pub open spec fn quarter(t: int) -> int {
    if t >= 0 {
        t / 4
    } else {
        -((-t) / 4)
    }
}

impl Grid {
    /// The grid after a place shared the heat of its surroundings: a
    /// quarter of its ambient temperature is added to the particle there and
    /// to those below, left and right of it.
    pub open spec fn shared_heat(self, x: int, y: int) -> Grid {
        let heat = quarter(self.climate(x, y).ambient_temperature as int);
        self.heated(x, y, heat).heated(x, y + 1, heat).heated(x - 1, y, heat).heated(
            x + 1,
            y,
            heat,
        )
    }

    /// The grid with the colour of every particle painted into its scratch
    /// bytes, red and green, and every clock set to the generation.
    pub open spec fn painted_cells(self) -> Grid {
        Grid {
            cells: Seq::new(
                self.cells.len(),
                |i: int|
                    Particle {
                        ra: self.cells[i].color().r,
                        rb: self.cells[i].color().g,
                        clock: self.generation,
                        ..self.cells[i]
                    },
            ),
            ..self
        }
    }
}

impl World {
    /// Shares the heat of the surroundings of a place with the particles
    /// at and next to it.
    pub fn distribute_cell_temperature(&mut self, x: i32, y: i32)
        requires
            old(self)@.wf(),
        ensures
            final(self)@ == old(self)@.shared_heat(x as int, y as int),
            final(self)@.wf(),
    {
        let t = self.get_temperature(x, y);
        let heat: i32 = if t >= 0 {
            t / 4
        } else {
            -((-(t as i64)) / 4) as i32
        };
        self.add_heat(x, y, heat);
        if y < i32::MAX {
            self.add_heat(x, y + 1, heat);
        }
        if x > i32::MIN {
            self.add_heat(x - 1, y, heat);
        }
        if x < i32::MAX {
            self.add_heat(x + 1, y, heat);
        }
    }

    /// Paints the colour of every particle into its scratch bytes.
    pub fn paint_variants(&mut self)
        ensures
            final(self)@ == old(self)@.painted_cells(),
    {
        let n = self.particles.len();
        let mut i: usize = 0;
        while i < n
            invariant
                0 <= i <= n,
                n == self.particles@.len(),
                n == old(self).particles@.len(),
                forall|k: int|
                    0 <= k < i ==> self.particles@[k] == (Particle {
                        ra: old(self).particles@[k].color().r,
                        rb: old(self).particles@[k].color().g,
                        clock: old(self).generation,
                        ..old(self).particles@[k]
                    }),
                forall|k: int| i <= k < n ==> self.particles@[k] == old(self).particles@[k],
                self.environment == old(self).environment,
                self.width == old(self).width,
                self.height == old(self).height,
                self.running == old(self).running,
                self.generation == old(self).generation,
                self.modified_state == old(self).modified_state,
                self.cleared == old(self).cleared,
                self.modified_indices == old(self).modified_indices,
            decreases n - i,
        {
            let mut p = self.particles[i];
            let color = particle_to_color(p);
            p.ra = color.r;
            p.rb = color.g;
            p.clock = self.generation;
            self.particles.set(i, p);
            i = i + 1;
        }
        assert(self@.cells =~= old(self)@.painted_cells().cells);
    }
}

impl Default for World {
    fn default() -> (world: World)
        ensures
            world@ == Grid::fresh(256, 256),
    {
        World::new(256, 256)
    }
}

} // verus!
