//! The view of the grid that a rule works through: a cursor on one cell, and
//! reads and writes at most two cells away from it.

use vstd::prelude::*;
use crate::grid::Grid;
use crate::particle::{Particle, Velocity};
use crate::rng::{dir_of, hit_of, uniform_below, vec_of};
use crate::variant::Variant;
use crate::world::World;

verus! {

/// How far from its cursor a rule may reach, in each direction.
pub const REACH: i32 = 2;

/// The world as a rule sees it from the cell under its cursor.
pub struct API<'a> {
    pub world: &'a mut World,
    /// The column of the cursor.
    pub x: i32,
    /// The row of the cursor, counted from the top.
    pub y: i32,
}

/// Whether an offset is one that a rule may use.
pub open spec fn within_reach(dx: int, dy: int) -> bool {
    -REACH <= dx <= REACH && -REACH <= dy <= REACH
}

impl Grid {
    /// The eight neighbours of a place, column by column, left to right and
    /// top to bottom in each.
    pub open spec fn neighbours(self, x: int, y: int) -> Seq<Particle> {
        seq![
            self.look(x - 1, y - 1),
            self.look(x - 1, y),
            self.look(x - 1, y + 1),
            self.look(x, y - 1),
            self.look(x, y + 1),
            self.look(x + 1, y - 1),
            self.look(x + 1, y),
            self.look(x + 1, y + 1),
        ]
    }

    /// The grid after the cells at two places changed places; nothing
    /// changes unless both places lie inside.
    pub open spec fn exchange_at(self, x1: int, y1: int, x2: int, y2: int) -> Grid {
        if self.in_bounds(x1, y1) && self.in_bounds(x2, y2) {
            self.exchange(self.index(x1, y1), self.index(x2, y2))
        } else {
            self
        }
    }
}

impl<'a> API<'a> {
    /// The grid as it stands.
    pub open spec fn grid(&self) -> Grid {
        self.world@
    }

    /// The particle at an offset from the cursor; beyond the border, a wall.
    pub fn get(&self, dx: i32, dy: i32) -> (p: Particle)
        requires
            within_reach(dx as int, dy as int),
            self.grid().wf(),
        ensures
            p == self.grid().look(self.x + dx, self.y + dy),
    {
        let nx: i64 = self.x as i64 + dx as i64;
        let ny: i64 = self.y as i64 + dy as i64;
        if nx < 0 || nx > self.world.width as i64 - 1 || ny < 0 || ny > self.world.height as i64
            - 1 {
            return Particle {
                variant: Variant::Wall,
                ra: 0,
                rb: 0,
                clock: self.world.generation,
                strength: 0,
                modified: false,
                velocity: Velocity { x: 0, y: 0 },
                temperature: 0,
            };
        }
        self.world.get_particle(nx as i32, ny as i32)
    }

    /// Writes a particle at an offset from the cursor and stamps it as
    /// written in this sweep; beyond the border nothing is written.
    pub fn set(&mut self, dx: i32, dy: i32, particle: Particle)
        requires
            within_reach(dx as int, dy as int),
            old(self).grid().wf(),
        ensures
            final(self).grid() == old(self).grid().put(
                old(self).x + dx,
                old(self).y + dy,
                particle,
            ),
            final(self).grid().wf(),
            *final(final(self).world) == *final(old(self).world),
            final(self).grid().same_frame(old(self).grid()),
            final(self).x == old(self).x,
            final(self).y == old(self).y,
    {
        let nx: i64 = self.x as i64 + dx as i64;
        let ny: i64 = self.y as i64 + dy as i64;
        if nx < 0 || nx > self.world.width as i64 - 1 || ny < 0 || ny > self.world.height as i64
            - 1 {
            return ;
        }
        let idx = self.world.get_idx(nx as i32, ny as i32);
        let mut stamped = particle;
        stamped.clock = self.world.generation.wrapping_add(1);
        self.world.particles.set(idx, stamped);
    }

    /// The eight neighbours of the cursor.
    pub fn get_nbrs(&self) -> (nbrs: Vec<Particle>)
        requires
            self.grid().wf(),
        ensures
            nbrs@ == self.grid().neighbours(self.x as int, self.y as int),
    {
        let mut nbrs: Vec<Particle> = Vec::new();
        nbrs.push(self.get(-1, -1));
        nbrs.push(self.get(-1, 0));
        nbrs.push(self.get(-1, 1));
        nbrs.push(self.get(0, -1));
        nbrs.push(self.get(0, 1));
        nbrs.push(self.get(1, -1));
        nbrs.push(self.get(1, 0));
        nbrs.push(self.get(1, 1));
        assert(nbrs@ =~= self.grid().neighbours(self.x as int, self.y as int));
        nbrs
    }

    /// Exchanges the cells with two indices and gives both the latch as
    /// their `modified` flag. Where one of the cells does not exist, nothing
    /// changes.
    pub fn swap(&mut self, idx0: usize, idx1: usize)
        ensures
            final(self).grid() == old(self).grid().exchange(idx0 as int, idx1 as int),
            *final(final(self).world) == *final(old(self).world),
            final(self).grid().same_frame(old(self).grid()),
            final(self).x == old(self).x,
            final(self).y == old(self).y,
    {
        if idx0 >= self.world.particles.len() || idx1 >= self.world.particles.len() {
            return ;
        }
        let mut c1 = self.world.particles[idx0];
        let mut c2 = self.world.particles[idx1];
        c1.modified = self.world.modified_state;
        c2.modified = self.world.modified_state;
        self.world.particles.set(idx0, c2);
        self.world.particles.set(idx1, c1);
    }

    /// Exchanges the cells at two places of the grid. Where one of the
    /// places lies outside, nothing changes.
    pub fn swap_dirty(&mut self, x1: i32, y1: i32, x2: i32, y2: i32)
        requires
            old(self).grid().wf(),
        ensures
            final(self).grid() == old(self).grid().exchange_at(
                x1 as int,
                y1 as int,
                x2 as int,
                y2 as int,
            ),
            *final(final(self).world) == *final(old(self).world),
            final(self).grid().same_frame(old(self).grid()),
            final(self).x == old(self).x,
            final(self).y == old(self).y,
    {
        if !self.world.contains(x1, y1) || !self.world.contains(x2, y2) {
            return ;
        }
        let idx1 = self.world.get_idx(x1, y1);
        let idx2 = self.world.get_idx(x2, y2);
        self.swap(idx1, idx2);
    }

    /// The particle of the cell with an index.
    pub fn get_from_idx(&self, idx: usize) -> (p: Particle)
        requires
            idx < self.grid().cells.len(),
        ensures
            p == self.grid().cells[idx as int],
    {
        self.world.particles[idx]
    }

    /// The index of a place of the grid; of a place outside, zero.
    pub fn get_idx(&self, x: i32, y: i32) -> (idx: usize)
        requires
            self.grid().wf(),
        ensures
            self.grid().in_bounds(x as int, y as int) ==> idx == self.grid().index(
                x as int,
                y as int,
            ) && idx < self.grid().cells.len(),
            !self.grid().in_bounds(x as int, y as int) ==> idx == 0,
    {
        self.world.get_idx(x, y)
    }

    /// Sets the ambient temperature of a place of the grid.
    pub fn set_temperature(&mut self, x: i32, y: i32, temperature: i32)
        requires
            old(self).grid().wf(),
        ensures
            final(self).grid() == old(self).grid().warm(x as int, y as int, temperature),
            final(self).grid().wf(),
            *final(final(self).world) == *final(old(self).world),
            final(self).grid().same_frame(old(self).grid()),
            final(self).x == old(self).x,
            final(self).y == old(self).y,
    {
        self.world.set_temperature(x, y, temperature);
    }

    /// The ambient temperature of a place of the grid.
    pub fn get_temperature(&self, x: i32, y: i32) -> (t: i32)
        requires
            self.grid().wf(),
        ensures
            t == self.grid().climate(x as int, y as int).ambient_temperature,
    {
        self.world.get_temperature(x, y)
    }

    /// The ambient pressure of a place of the grid.
    pub fn get_pressure(&self, x: i32, y: i32) -> (p: i32)
        requires
            self.grid().wf(),
        ensures
            p == self.grid().climate(x as int, y as int).ambient_pressure,
    {
        self.world.get_pressure(x, y)
    }

    /// Sets the ambient pressure of a place of the grid.
    pub fn set_pressure(&mut self, x: i32, y: i32, pressure: i32)
        requires
            old(self).grid().wf(),
        ensures
            final(self).grid() == old(self).grid().press(x as int, y as int, pressure),
            final(self).grid().wf(),
            *final(final(self).world) == *final(old(self).world),
            final(self).grid().same_frame(old(self).grid()),
            final(self).x == old(self).x,
            final(self).y == old(self).y,
    {
        self.world.set_pressure(x, y, pressure);
    }

    /// Empties the grid.
    pub fn reset(&mut self)
        ensures
            final(self).grid() == old(self).grid().emptied(),
            *final(final(self).world) == *final(old(self).world),
            final(self).grid().same_frame(old(self).grid()),
            final(self).x == old(self).x,
            final(self).y == old(self).y,
    {
        self.world.reset();
    }

    /// A number from zero up to `n`, `n` left out, by chance.
    pub fn rand_int(&mut self, n: i32) -> (i: i32)
        requires
            n > 0,
        ensures
            0 <= i < n,
            *final(self) == *old(self),
    {
        uniform_below(n)
    }

    /// Left, none or right, by chance.
    pub fn rand_dir(&mut self) -> (d: i32)
        ensures
            -1 <= d <= 1,
            *final(self) == *old(self),
    {
        let i = self.rand_int(1000);
        dir_of(i)
    }

    /// One of the eight directions or none, by chance.
    pub fn rand_vec(&mut self) -> (v: (i32, i32))
        ensures
            -1 <= v.0 <= 1,
            -1 <= v.1 <= 1,
            *final(self) == *old(self),
    {
        let i = self.rand_int(2000);
        vec_of(i)
    }

    /// True once in `n` calls, by chance.
    pub fn once_in(&mut self, n: i32) -> (hit: bool)
        requires
            n > 0,
        ensures
            n == 1 ==> hit,
            *final(self) == *old(self),
    {
        let i = self.rand_int(n);
        hit_of(i)
    }

    /// True once per `n` calls, by chance.
    pub fn once_per(&mut self, n: i32) -> (hit: bool)
        requires
            n > 0,
        ensures
            n == 1 ==> hit,
            *final(self) == *old(self),
    {
        let i = self.rand_int(n);
        hit_of(i)
    }
}

} // verus!
