//! How a particle moves, by the physical class of its material: powders fall,
//! liquids fall and flow, gases rise, solids rest.

use vstd::prelude::*;
use crate::api::API;
use crate::grid::Grid;
use crate::particle::Particle;
use crate::rng::Draws;
use crate::variant::Variant;
use crate::variant_type::{VariantProperty, VariantType};

verus! {

/// Where a move left the grid and the particle: the grid after it, and the
/// particle's place as an offset from where it started.
pub struct Move {
    pub grid: Grid,
    pub dx: int,
    pub dy: int,
}

/// How settled a liquid is after it flowed two cells.
pub const SETTLED_AFTER_RUN: u8 = 6;

/// How settled a liquid is after it flowed one cell.
pub const SETTLED_AFTER_STEP: u8 = 3;

/// The side a liquid flows to, from the parity of its first scratch byte.
pub open spec fn flow_side(ra: u8) -> int {
    if ra % 2 == 0 {
        1
    } else {
        -1
    }
}

/// The scratch byte moved by one towards a side, wrapping at both ends.
pub open spec fn nudged(ra: u8, side: int) -> u8 {
    if side > 0 {
        if ra == 255 {
            0
        } else {
            (ra + 1) as u8
        }
    } else {
        if ra == 0 {
            255
        } else {
            (ra - 1) as u8
        }
    }
}

impl Grid {
    /// Whether motion can exchange the cells at two places: both lie inside
    /// the grid, and neither holds what is immutable.
    pub open spec fn can_exchange_at(self, x1: int, y1: int, x2: int, y2: int) -> bool {
        &&& self.in_bounds(x1, y1)
        &&& self.in_bounds(x2, y2)
        &&& !self.at(x1, y1).variant.immutable()
        &&& !self.at(x2, y2).variant.immutable()
    }

    /// Nothing moves.
    pub open spec fn stay(self) -> Move {
        Move { grid: self, dx: 0, dy: 0 }
    }

    /// The particle `p` leaves the place for the one at the offset, and
    /// leaves an empty cell behind.
    pub open spec fn shift(self, x: int, y: int, p: Particle, dx: int, dy: int) -> Move {
        Move { grid: self.put(x + dx, y + dy, p).put(x, y, Particle::spec_empty()), dx, dy }
    }

    /// The cell at the place changes places with the one at the offset, if
    /// they can.
    pub open spec fn sink(self, x: int, y: int, dx: int, dy: int) -> Move {
        if self.can_exchange_at(x, y, x + dx, y + dy) {
            Move { grid: self.exchange_at(x, y, x + dx, y + dy), dx, dy }
        } else {
            self.stay()
        }
    }

    /// A liquid `p` tells the cell at a place which side it flows to: a
    /// particle there of the same material that flows the other way takes
    /// over the scratch byte that decides the side.
    pub open spec fn tell(self, x: int, y: int, p: Particle) -> Grid {
        let n = self.look(x, y);
        if n.variant == p.variant && n.ra % 2 != p.ra % 2 {
            self.put(x, y, Particle { ra: p.ra, ..n })
        } else {
            self
        }
    }

    /// A powder at a place: it falls straight into an empty cell, else slides
    /// to the side `dir` into one, else sinks into a liquid below, else rests.
    pub open spec fn move_powder(self, x: int, y: int, p: Particle, dir: int) -> Move {
        let below = self.look(x, y + 1);
        if below.variant == Variant::Empty {
            self.shift(x, y, p, 0, 1)
        } else if self.look(x + dir, y + 1).variant == Variant::Empty {
            self.shift(x, y, p, dir, 1)
        } else if below.variant.property() == VariantProperty::Liquid {
            self.sink(x, y, 0, 1)
        } else {
            self.stay()
        }
    }

    /// A gas at a place: a powder upside down.
    pub open spec fn move_gas(self, x: int, y: int, p: Particle, dir: int) -> Move {
        let above = self.look(x, y - 1);
        if above.variant == Variant::Empty {
            self.shift(x, y, p, 0, -1)
        } else if self.look(x + dir, y - 1).variant == Variant::Empty {
            self.shift(x, y, p, dir, -1)
        } else if above.variant.property() == VariantProperty::Liquid {
            self.sink(x, y, 0, -1)
        } else {
            self.stay()
        }
    }

    /// A liquid that cannot fall: it flows to its side, two cells if both are
    /// free, else one, and tells a neighbour of the place it left; blocked, it
    /// grows unsettled, and once unsettled turns to the other side if that is
    /// free.
    #[verifier::opaque]
    pub open spec fn flow(self, x: int, y: int, p: Particle, d: Draws) -> Move {
        let side = flow_side(p.ra);
        let near = self.look(x + side, y);
        let far = self.look(x + 2 * side, y);
        if near.variant == Variant::Empty && far.variant == Variant::Empty {
            let m = self.shift(x, y, Particle { rb: SETTLED_AFTER_RUN, ..p }, 2 * side, 0);
            Move { grid: m.grid.tell(x + d.spread_x, y + d.spread_y, p), ..m }
        } else if near.variant == Variant::Empty {
            let m = self.shift(x, y, Particle { rb: SETTLED_AFTER_STEP, ..p }, side, 0);
            Move { grid: m.grid.tell(x + d.spread_x, y + d.spread_y, p), ..m }
        } else if p.rb == 0 {
            if self.look(x - side, y).variant == Variant::Empty {
                self.put(x, y, Particle { ra: nudged(p.ra, side), ..p }).stay()
            } else {
                self.stay()
            }
        } else {
            self.put(x, y, Particle { rb: (p.rb - 1) as u8, ..p }).stay()
        }
    }

    /// A liquid at a place: it falls straight into an empty cell, taking a
    /// new flow bias if chance says so; else sinks through a lighter particle
    /// below; else falls to the side `dir`, else to the other side; else flows.
    pub open spec fn move_liquid(self, x: int, y: int, p: Particle, d: Draws) -> Move {
        let below = self.look(x, y + 1);
        if below.variant == Variant::Empty {
            self.shift(
                x,
                y,
                Particle {
                    ra: if d.reseed {
                        d.bias
                    } else {
                        p.ra
                    },
                    ..p
                },
                0,
                1,
            )
        } else if below.variant.weight() < p.variant.weight() {
            self.sink(x, y, 0, 1)
        } else if self.look(x + d.dir, y + 1).variant == Variant::Empty {
            self.shift(x, y, p, d.dir as int, 1)
        } else if self.look(x - d.dir, y + 1).variant == Variant::Empty {
            self.shift(x, y, p, -d.dir, 1)
        } else {
            self.flow(x, y, p, d)
        }
    }

    /// The move of a particle at a place: first it relaxes towards the base
    /// temperature of its material, then it moves as its class does.
    pub open spec fn kernel(self, x: int, y: int, p: Particle, d: Draws) -> Move {
        let warm = p.relaxed();
        let g = self.put(x, y, warm);
        match p.variant.property() {
            VariantProperty::Powder => g.move_powder(x, y, warm, d.dir as int),
            VariantProperty::Liquid => g.move_liquid(x, y, warm, d),
            VariantProperty::Gas => g.move_gas(x, y, warm, d.dir as int),
            VariantProperty::Solid => g.stay(),
        }
    }
}

impl<'a> API<'a> {
    /// Exchanges the cell under the cursor with the one at an offset, as
    /// motion does: not where one of them lies outside the grid or is
    /// immutable. Says whether they changed places.
    pub fn swap_with(&mut self, dx: i32, dy: i32) -> (done: bool)
        requires
            crate::api::within_reach(dx as int, dy as int),
            old(self).grid().wf(),
        ensures
            final(self).grid() == old(self).grid().sink(
                old(self).x as int,
                old(self).y as int,
                dx as int,
                dy as int,
            ).grid,
            done == old(self).grid().can_exchange_at(
                old(self).x as int,
                old(self).y as int,
                old(self).x + dx,
                old(self).y + dy,
            ),
            final(self).grid().wf(),
            *final(final(self).world) == *final(old(self).world),
            final(self).grid().same_frame(old(self).grid()),
            final(self).x == old(self).x,
            final(self).y == old(self).y,
    {
        let nx: i64 = self.x as i64 + dx as i64;
        let ny: i64 = self.y as i64 + dy as i64;
        if nx < 0 || nx > self.world.width as i64 - 1 || ny < 0 || ny > self.world.height as i64
            - 1 {
            return false;
        }
        if !self.world.contains(self.x, self.y) {
            return false;
        }
        let here = self.world.get_idx(self.x, self.y);
        let there = self.world.get_idx(nx as i32, ny as i32);
        let a = self.world.particles[here].get_variant();
        let b = self.world.particles[there].get_variant();
        if is_wall(a) || is_wall(b) {
            return false;
        }
        self.swap(here, there);
        true
    }

    /// Moves `p` from under the cursor to the offset.
    pub fn shift(&mut self, p: Particle, dx: i32, dy: i32)
        requires
            crate::api::within_reach(dx as int, dy as int),
            old(self).grid().wf(),
        ensures
            final(self).grid() == old(self).grid().shift(
                old(self).x as int,
                old(self).y as int,
                p,
                dx as int,
                dy as int,
            ).grid,
            final(self).grid().wf(),
            *final(final(self).world) == *final(old(self).world),
            final(self).grid().same_frame(old(self).grid()),
            final(self).x == old(self).x,
            final(self).y == old(self).y,
    {
        self.set(dx, dy, p);
        self.set(0, 0, Particle::empty());
    }

    /// Tells the cell at an offset which side the liquid `p` flows to.
    pub fn tell(&mut self, dx: i32, dy: i32, p: Particle)
        requires
            crate::api::within_reach(dx as int, dy as int),
            old(self).grid().wf(),
        ensures
            final(self).grid() == old(self).grid().tell(old(self).x + dx, old(self).y + dy, p),
            final(self).grid().wf(),
            *final(final(self).world) == *final(old(self).world),
            final(self).grid().same_frame(old(self).grid()),
            final(self).x == old(self).x,
            final(self).y == old(self).y,
    {
        let n = self.get(dx, dy);
        if n.get_variant() == p.get_variant() && n.ra % 2 != p.ra % 2 {
            let mut told = n;
            told.ra = p.ra;
            self.set(dx, dy, told);
        }
    }
}

/// Whether a material is the immutable one.
pub fn is_wall(v: Variant) -> (r: bool)
    ensures
        r == v.immutable(),
{
    match v {
        Variant::Wall => true,
        _ => false,
    }
}

/// Whether a material is the empty one.
pub fn is_void(v: Variant) -> (r: bool)
    ensures
        r == (v == Variant::Empty),
{
    v.is_empty()
}

/// Moves the powder `p` that sits under the cursor, and gives the offset
/// that it went to.
pub fn move_powder(api: &mut API, p: Particle, dir: i32) -> (to: (i32, i32))
    requires
        old(api).grid().wf(),
        -1 <= dir <= 1,
    ensures
        (Move { grid: final(api).grid(), dx: to.0 as int, dy: to.1 as int }) == old(
            api,
        ).grid().move_powder(old(api).x as int, old(api).y as int, p, dir as int),
        final(api).grid().wf(),
        *final(final(api).world) == *final(old(api).world),
        final(api).grid().same_frame(old(api).grid()),
        final(api).x == old(api).x,
        final(api).y == old(api).y,
        -2 <= to.0 <= 2,
        -1 <= to.1 <= 1,
{
    let below = api.get(0, 1);
    if is_void(below.get_variant()) {
        api.shift(p, 0, 1);
        (0, 1)
    } else if is_void(api.get(dir, 1).get_variant()) {
        api.shift(p, dir, 1);
        (dir, 1)
    } else if VariantType::from_variant(below.get_variant()).variant_property
        == VariantProperty::Liquid {
        if api.swap_with(0, 1) {
            (0, 1)
        } else {
            (0, 0)
        }
    } else {
        (0, 0)
    }
}

/// Moves the gas `p` that sits under the cursor, and gives the offset that
/// it went to.
pub fn move_gas(api: &mut API, p: Particle, dir: i32) -> (to: (i32, i32))
    requires
        old(api).grid().wf(),
        -1 <= dir <= 1,
    ensures
        (Move { grid: final(api).grid(), dx: to.0 as int, dy: to.1 as int }) == old(
            api,
        ).grid().move_gas(old(api).x as int, old(api).y as int, p, dir as int),
        final(api).grid().wf(),
        *final(final(api).world) == *final(old(api).world),
        final(api).grid().same_frame(old(api).grid()),
        final(api).x == old(api).x,
        final(api).y == old(api).y,
        -2 <= to.0 <= 2,
        -1 <= to.1 <= 1,
{
    let above = api.get(0, -1);
    if is_void(above.get_variant()) {
        api.shift(p, 0, -1);
        (0, -1)
    } else if is_void(api.get(dir, -1).get_variant()) {
        api.shift(p, dir, -1);
        (dir, -1)
    } else if VariantType::from_variant(above.get_variant()).variant_property
        == VariantProperty::Liquid {
        if api.swap_with(0, -1) {
            (0, -1)
        } else {
            (0, 0)
        }
    } else {
        (0, 0)
    }
}

/// Lets the liquid `p` that sits under the cursor flow to its side, and
/// gives the offset that it went to.
pub fn flow(api: &mut API, p: Particle, d: Draws) -> (to: (i32, i32))
    requires
        old(api).grid().wf(),
        d.valid(),
    ensures
        (Move { grid: final(api).grid(), dx: to.0 as int, dy: to.1 as int }) == old(
            api,
        ).grid().flow(old(api).x as int, old(api).y as int, p, d),
        final(api).grid().wf(),
        *final(final(api).world) == *final(old(api).world),
        final(api).grid().same_frame(old(api).grid()),
        final(api).x == old(api).x,
        final(api).y == old(api).y,
        -2 <= to.0 <= 2,
        -1 <= to.1 <= 1,
{
    proof {
        reveal(Grid::flow);
    }
    let side: i32 = if p.ra % 2 == 0 {
        1
    } else {
        -1
    };
    let near = api.get(side, 0);
    let far = api.get(2 * side, 0);
    if is_void(near.get_variant()) && is_void(far.get_variant()) {
        let mut run = p;
        run.rb = SETTLED_AFTER_RUN;
        api.shift(run, 2 * side, 0);
        api.tell(d.spread_x, d.spread_y, p);
        (2 * side, 0)
    } else if is_void(near.get_variant()) {
        let mut step = p;
        step.rb = SETTLED_AFTER_STEP;
        api.shift(step, side, 0);
        api.tell(d.spread_x, d.spread_y, p);
        (side, 0)
    } else if p.rb == 0 {
        if is_void(api.get(-side, 0).get_variant()) {
            let mut turned = p;
            turned.ra = if side > 0 {
                p.ra.wrapping_add(1)
            } else {
                p.ra.wrapping_sub(1)
            };
            api.set(0, 0, turned);
        }
        (0, 0)
    } else {
        let mut loose = p;
        loose.rb = p.rb - 1;
        api.set(0, 0, loose);
        (0, 0)
    }
}

/// Moves the liquid `p` that sits under the cursor, and gives the offset
/// that it went to.
pub fn move_liquid(api: &mut API, p: Particle, d: Draws) -> (to: (i32, i32))
    requires
        old(api).grid().wf(),
        d.valid(),
    ensures
        (Move { grid: final(api).grid(), dx: to.0 as int, dy: to.1 as int }) == old(
            api,
        ).grid().move_liquid(old(api).x as int, old(api).y as int, p, d),
        final(api).grid().wf(),
        *final(final(api).world) == *final(old(api).world),
        final(api).grid().same_frame(old(api).grid()),
        final(api).x == old(api).x,
        final(api).y == old(api).y,
        -2 <= to.0 <= 2,
        -1 <= to.1 <= 1,
{
    let below = api.get(0, 1);
    if is_void(below.get_variant()) {
        let mut drop = p;
        if d.reseed {
            drop.ra = d.bias;
        }
        api.shift(drop, 0, 1);
        (0, 1)
    } else if VariantType::from_variant(below.get_variant()).weight < VariantType::from_variant(
        p.get_variant(),
    ).weight {
        if api.swap_with(0, 1) {
            (0, 1)
        } else {
            (0, 0)
        }
    } else if is_void(api.get(d.dir, 1).get_variant()) {
        api.shift(p, d.dir, 1);
        (d.dir, 1)
    } else if is_void(api.get(-d.dir, 1).get_variant()) {
        api.shift(p, -d.dir, 1);
        (-d.dir, 1)
    } else {
        flow(api, p, d)
    }
}

/// Relaxes the particle `p` that sits under the cursor and moves it as the
/// class of its material does; gives the offset that it went to.
pub fn kernel(api: &mut API, p: Particle, d: Draws) -> (to: (i32, i32))
    requires
        old(api).grid().wf(),
        d.valid(),
    ensures
        (Move { grid: final(api).grid(), dx: to.0 as int, dy: to.1 as int }) == old(
            api,
        ).grid().kernel(old(api).x as int, old(api).y as int, p, d),
        -2 <= to.0 <= 2,
        -1 <= to.1 <= 1,
        final(api).grid().wf(),
        *final(final(api).world) == *final(old(api).world),
        final(api).grid().same_frame(old(api).grid()),
        final(api).x == old(api).x,
        final(api).y == old(api).y,
{
    let mut warm = p;
    warm.relax();
    api.set(0, 0, warm);
    match VariantType::from_variant(p.get_variant()).variant_property {
        VariantProperty::Powder => move_powder(api, warm, d.dir),
        VariantProperty::Liquid => move_liquid(api, warm, d),
        VariantProperty::Gas => move_gas(api, warm, d.dir),
        VariantProperty::Solid => (0, 0),
    }
}

} // verus!
