//! The scheduler: the update of one cell, and the sweep over all of them
//! that makes one generation.

use vstd::prelude::*;
use crate::api::API;
use crate::grid::{lemma_index_in_range, lemma_index_injective, Grid};
use crate::motion::{is_void, is_wall, kernel};
use crate::particle::Particle;
use crate::rng::{dir_of, grain_of, hit_of, uniform_below, vec_of, Draws};
use crate::rules::Outcome;
use crate::variant::Variant;
use crate::variant_type::{VariantProperty, VariantType};
use crate::world::World;

verus! {

impl Grid {
    /// What the update of the particle `p` at a place does: nothing to one
    /// that has acted or is immutable; an empty cell only follows its rule;
    /// any other particle moves, and then follows the rule of its material
    /// where it arrived. Where the rule reports a change, the particle at
    /// the place of the rule is flagged as having acted.
    pub open spec fn update_particle(self, x: int, y: int, p: Particle, d: Draws) -> Outcome {
        if p.modified {
            self.unchanged()
        } else if p.variant == Variant::Empty {
            self.rule_empty(x, y, p, d).marked(x, y)
        } else if p.variant.immutable() {
            self.unchanged()
        } else {
            let m = self.kernel(x, y, p, d);
            let q = m.grid.look(x + m.dx, y + m.dy);
            m.grid.react(x + m.dx, y + m.dy, q.variant, q, d).marked(x + m.dx, y + m.dy)
        }
    }

    /// Whether the sweep passes over a particle because it was written
    /// earlier in the same sweep. An empty cell is never passed over.
    pub open spec fn written(self, p: Particle) -> bool {
        p.variant != Variant::Empty && p.clock == self.stamp()
    }

    /// The grid after the sweep visited a place. A particle that has acted
    /// is recorded as changed; one written in this sweep is passed over; any
    /// other is updated, the latch takes what its rule reported, and the
    /// place is recorded if that was a change.
    pub open spec fn step(self, x: int, y: int, d: Draws) -> Grid {
        if !self.in_bounds(x, y) {
            self
        } else {
            let p = self.at(x, y);
            let i = self.index(x, y) as usize;
            if p.modified {
                self.record(i)
            } else if self.written(p) {
                self
            } else {
                let o = self.update_particle(x, y, p, d);
                let g = Grid { latch: o.changed, ..o.grid };
                if o.changed {
                    g.record(i)
                } else {
                    g
                }
            }
        }
    }

    /// The column that a sweep visits as its `c`-th: left to right in an
    /// even generation, right to left in an odd one.
    pub open spec fn column(self, c: int) -> int {
        if self.generation % 2 == 0 {
            c
        } else {
            self.width - 1 - c
        }
    }

    /// The grid after the sweep visited the lowest `rows` cells of column
    /// `x`, from the bottom up. `draws` holds the draws of each cell, by
    /// index.
    pub open spec fn swept_column(self, draws: Seq<Draws>, x: int, rows: nat) -> Grid
        decreases rows,
    {
        if rows == 0 {
            self
        } else {
            let g = self.swept_column(draws, x, (rows - 1) as nat);
            let y = self.height - rows;
            g.step(x, y, draws[self.index(x, y)])
        }
    }

    /// The grid after the sweep visited its first `columns` columns.
    pub open spec fn swept(self, draws: Seq<Draws>, columns: nat) -> Grid
        decreases columns,
    {
        if columns == 0 {
            self
        } else {
            let g = self.swept(draws, (columns - 1) as nat);
            g.swept_column(draws, self.column(columns - 1), self.height as nat)
        }
    }

    /// The grid at the end of a sweep: the generation advances, the record
    /// of changed cells starts anew, and no particle counts as having acted.
    pub open spec fn finished(self) -> Grid {
        Grid {
            cells: Seq::new(
                self.cells.len(),
                |i: int| Particle { modified: false, ..self.cells[i] },
            ),
            generation: self.stamp(),
            modified: Set::empty(),
            ..self
        }
    }

    /// The grid after one tick: a world that does not run only forgets that
    /// it was cleared; one that runs is swept once.
    pub open spec fn ticked(self, draws: Seq<Draws>) -> Grid {
        let g = Grid { cleared: false, ..self };
        if !self.running {
            g
        } else if self.width <= 0 || self.height <= 0 {
            g.finished()
        } else {
            g.swept(draws, self.width as nat).finished()
        }
    }
}

/// Whether every one of the draws in `draws` is within its range.
pub open spec fn all_valid(draws: Seq<Draws>) -> bool {
    forall|i: int| 0 <= i < draws.len() ==> (#[trigger] draws[i]).valid()
}

impl Grid {
    /// Whether one tick under `draws`, which holds valid draws for every
    /// cell, leads from this grid to `after`.
    pub open spec fn ticks_to(self, after: Grid, draws: Seq<Draws>) -> bool {
        &&& draws.len() == self.cells.len()
        &&& all_valid(draws)
        &&& after == self.ticked(draws)
    }
}

/// A column is swept alike under two sequences of draws that agree on the
/// cells of the column that the sweep has visited.
pub proof fn lemma_column_agrees(g: Grid, a: Seq<Draws>, b: Seq<Draws>, x: int, rows: nat)
    requires
        forall|y: int|
            g.height - rows <= y < g.height ==> a[#[trigger] g.index(x, y)] == b[g.index(x, y)],
    ensures
        g.swept_column(a, x, rows) == g.swept_column(b, x, rows),
    decreases rows,
{
    if rows > 0 {
        lemma_column_agrees(g, a, b, x, (rows - 1) as nat);
        let y = g.height - rows;
        assert(a[g.index(x, y)] == b[g.index(x, y)]);
    }
}

/// The grid is swept alike under two sequences of draws that agree on the
/// cells of the columns that the sweep has visited.
pub proof fn lemma_sweep_agrees(g: Grid, a: Seq<Draws>, b: Seq<Draws>, columns: nat)
    requires
        g.wf(),
        g.height > 0,
        forall|c: int, y: int|
            0 <= c < columns && 0 <= y < g.height ==> a[#[trigger] g.index(g.column(c), y)]
                == b[g.index(g.column(c), y)],
    ensures
        g.swept(a, columns) == g.swept(b, columns),
    decreases columns,
{
    if columns > 0 {
        lemma_sweep_agrees(g, a, b, (columns - 1) as nat);
        let x = g.column(columns - 1);
        let h = g.swept(a, (columns - 1) as nat);
        crate::laws::lemma_swept(g, a, (columns - 1) as nat);
        assert forall|y: int| h.height - h.height as nat <= y < h.height implies a[#[trigger] h.index(
            x,
            y,
        )] == b[h.index(x, y)] by {
            assert(h.index(x, y) == g.index(g.column(columns - 1), y));
            assert(a[g.index(g.column(columns - 1), y)] == b[g.index(g.column(columns - 1), y)]);
        }
        lemma_column_agrees(h, a, b, x, g.height as nat);
    }
}

/// How many times a fire is updated for each time its reaction is due, on
/// average.
pub const FIRE_ODDS: i32 = 50;

/// The same for the materials that decay.
pub const DECAY_ODDS: i32 = 10;

/// How many times a liquid falls for each time it takes a new flow bias, on
/// average.
pub const RESEED_ODDS: i32 = 20;

/// Whether the rule of a material asks chance if its reaction is due, and
/// with what odds: zero where it does not ask.
pub open spec fn spec_odds(v: Variant) -> int {
    match v {
        Variant::Fire => FIRE_ODDS as int,
        Variant::Smoke
        | Variant::HYGN
        | Variant::HELM
        | Variant::CARB
        | Variant::NITR
        | Variant::IRON
        | Variant::CO2 => DECAY_ODDS as int,
        _ => 0,
    }
}

/// The odds with which the reaction of a material is due; zero where
/// chance is not asked.
pub fn odds(v: Variant) -> (n: i32)
    ensures
        n == spec_odds(v),
        0 <= n <= FIRE_ODDS,
{
    match v {
        Variant::Fire => FIRE_ODDS,
        Variant::Smoke
        | Variant::HYGN
        | Variant::HELM
        | Variant::CARB
        | Variant::NITR
        | Variant::IRON
        | Variant::CO2 => DECAY_ODDS,
        _ => 0,
    }
}

/// Draws what the update of a particle of a material can ask of chance.
/// What its class and its rule never ask for is left as in `Draws::still`.
pub fn draw_for(variant: Variant) -> (d: Draws)
    ensures
        d.valid(),
        d.grain == Draws::spec_still().grain,
        spec_odds(variant) == 0 ==> !d.react,
        variant.property() == VariantProperty::Solid ==> d.dir == 0,
{
    let mut d = Draws::still();
    match VariantType::from_variant(variant).variant_property {
        VariantProperty::Solid => {},
        VariantProperty::Liquid => {
            d.dir = dir_of(uniform_below(1000));
            d.reseed = hit_of(uniform_below(RESEED_ODDS));
            let bias = uniform_below(50);
            d.bias = 100 + bias as u8;
            let v = vec_of(uniform_below(2000));
            d.spread_x = v.0;
            d.spread_y = v.1;
        },
        _ => {
            d.dir = dir_of(uniform_below(1000));
        },
    }
    let n = odds(variant);
    if n > 0 {
        d.react = hit_of(uniform_below(n));
    }
    d
}

impl World {
    /// Updates `particle`, which sits under the cursor of `api`, with what
    /// chance decided in `d`, and says whether its rule reported a change.
    pub fn update_particle(particle: Particle, api: API, d: Draws) -> (changed: bool)
        requires
            api.grid().wf(),
            d.valid(),
        ensures
            (Outcome { grid: final(api.world)@, changed }) == api.grid().update_particle(
                api.x as int,
                api.y as int,
                particle,
                d,
            ),
            final(api.world)@.wf(),
            final(api.world)@.same_frame(api.grid()),
    {
        let mut api = api;
        if particle.modified || is_wall(particle.get_variant()) {
            return false;
        }
        let to = if is_void(particle.get_variant()) {
            (0, 0)
        } else {
            kernel(&mut api, particle, d)
        };
        let q = if is_void(particle.get_variant()) {
            particle
        } else {
            api.get(to.0, to.1)
        };
        let nx: i64 = api.x as i64 + to.0 as i64;
        let ny: i64 = api.y as i64 + to.1 as i64;
        if nx < i32::MIN as i64 || nx > i32::MAX as i64 || ny < i32::MIN as i64 || ny
            > i32::MAX as i64 {
            return false;
        }
        let API { world, x: _, y: _ } = api;
        let changed = q.get_variant().update(q, API { world: &mut *world, x: nx as i32, y: ny as i32 }, d);
        if changed {
            world.mark(nx as i32, ny as i32);
        }
        changed
    }

    /// Flags the particle at a place as having acted in the running sweep.
    pub fn mark(&mut self, x: i32, y: i32)
        requires
            old(self)@.wf(),
        ensures
            final(self)@ == old(self)@.mark(x as int, y as int),
            final(self)@.wf(),
    {
        if !self.contains(x, y) {
            return ;
        }
        let idx = self.get_idx(x, y);
        let mut p = self.particles[idx];
        p.modified = true;
        self.particles.set(idx, p);
    }

    /// Visits one place in a sweep, with what chance decided in `d`.
    pub fn visit_with(&mut self, x: i32, y: i32, d: Draws)
        requires
            old(self)@.wf(),
            d.valid(),
        ensures
            final(self)@ == old(self)@.step(x as int, y as int, d),
            final(self)@.wf(),
            final(self)@.follows(old(self)@),
    {
        proof {
            crate::laws::lemma_step(old(self)@, x as int, y as int, d);
        }
        if !self.contains(x, y) {
            return ;
        }
        let idx = self.get_idx(x, y);
        let p = self.particles[idx];
        if p.modified {
            self.modified_indices.insert(idx);
            return ;
        }
        if !is_void(p.get_variant()) && p.clock == self.generation.wrapping_add(1) {
            return ;
        }
        let changed = World::update_particle(p, API { world: self, x, y }, d);
        self.modified_state = changed;
        if changed {
            self.modified_indices.insert(idx);
        }
    }

    /// Ends a sweep: advances the generation, forgets which cells changed
    /// and which particles have acted.
    pub fn finish(&mut self)
        ensures
            final(self)@ == old(self)@.finished(),
    {
        self.generation = self.generation.wrapping_add(1);
        self.modified_indices.clear();
        let n = self.particles.len();
        let mut i: usize = 0;
        while i < n
            invariant
                0 <= i <= n,
                n == self.particles@.len(),
                n == old(self).particles@.len(),
                forall|k: int|
                    0 <= k < i ==> self.particles@[k] == (Particle {
                        modified: false,
                        ..old(self).particles@[k]
                    }),
                forall|k: int| i <= k < n ==> self.particles@[k] == old(self).particles@[k],
                self.environment == old(self).environment,
                self.width == old(self).width,
                self.height == old(self).height,
                self.running == old(self).running,
                self.generation == old(self)@.stamp(),
                self.modified_state == old(self).modified_state,
                self.cleared == old(self).cleared,
                self.modified_indices@ == Set::<usize>::empty(),
            decreases n - i,
        {
            let mut p = self.particles[i];
            p.modified = false;
            self.particles.set(i, p);
            i = i + 1;
        }
        assert(self@.cells =~= old(self)@.finished().cells);
    }

    /// One generation, with the draws of every cell given: `draws` holds
    /// them by cell index. Two runs from one grid with the same draws end in
    /// the same grid.
    pub fn tick_with(&mut self, draws: &Vec<Draws>)
        requires
            old(self)@.wf(),
            draws@.len() == old(self)@.cells.len(),
            all_valid(draws@),
        ensures
            final(self)@ == old(self)@.ticked(draws@),
            old(self)@.ticked_to(final(self)@),
    {
        proof {
            crate::laws::lemma_tick(old(self)@, draws@);
        }
        self.cleared = false;
        if !self.running {
            return ;
        }
        if self.width <= 0 || self.height <= 0 {
            self.finish();
            return ;
        }
        let ghost start = self@;
        let mut c: i32 = 0;
        while c < self.width
            invariant
                0 <= c <= self.width,
                self.height > 0,
                start.wf(),
                self@.wf(),
                self@.same_frame(start),
                self@ == start.swept(draws@, c as nat),
                draws@.len() == start.cells.len(),
                all_valid(draws@),
            decreases self.width - c,
        {
            let x = if self.generation % 2 == 0 {
                c
            } else {
                self.width - 1 - c
            };
            let ghost top = self@;
            let mut r: i32 = 0;
            assert(self.generation == start.generation);
            while r < self.height
                invariant
                    0 <= r <= self.height,
                    0 <= x < self.width,
                    top.wf(),
                    self@.wf(),
                    self@.same_frame(top),
                    self@ == top.swept_column(draws@, x as int, r as nat),
                    start.same_frame(top),
                    draws@.len() == top.cells.len(),
                    all_valid(draws@),
                decreases self.height - r,
            {
                let y = self.height - 1 - r;
                let idx = self.get_idx(x, y);
                let d = draws[idx];
                self.visit_with(x, y, d);
                r = r + 1;
            }
            c = c + 1;
        }
        self.finish();
    }

    /// Visits one place in a sweep, and lets chance decide what the update
    /// leaves open.
    pub fn visit(&mut self, x: i32, y: i32)
        requires
            old(self)@.wf(),
        ensures
            exists|d: Draws| d.valid() && final(self)@ == old(self)@.step(x as int, y as int, d),
            final(self)@.wf(),
            final(self)@.follows(old(self)@),
    {
        let mut d = Draws::still();
        if self.contains(x, y) {
            let p = self.get_particle(x, y);
            if p.modified {
            } else if is_void(p.get_variant()) {
                let api = API { world: self, x, y };
                let births = api.census() == 3;
                if births {
                    d.grain = grain_of(uniform_below(2));
                }
            } else {
                d = draw_for(p.get_variant());
            }
        }
        self.visit_with(x, y, d);
    }

    /// One generation: clears the `cleared` flag and, if the world runs,
    /// sweeps the grid once.
    pub fn tick(&mut self)
        requires
            old(self)@.wf(),
        ensures
            exists|draws: Seq<Draws>| old(self)@.ticks_to(final(self)@, draws),
            old(self)@.ticked_to(final(self)@),
    {
        let ghost before = self@;
        let ghost mut ds: Seq<Draws> = Seq::new(self@.cells.len(), |i: int| Draws::spec_still());
        self.cleared = false;
        if !self.running {
            assert(before.ticks_to(self@, ds));
            proof {
                crate::laws::lemma_tick(before, ds);
            }
            return ;
        }
        if self.width <= 0 || self.height <= 0 {
            self.finish();
            assert(before.ticks_to(self@, ds));
            proof {
                crate::laws::lemma_tick(before, ds);
            }
            return ;
        }
        let ghost start = self@;
        let mut c: i32 = 0;
        while c < self.width
            invariant
                0 <= c <= self.width,
                self.height > 0,
                start.wf(),
                self@.wf(),
                self@.same_frame(start),
                self@ == start.swept(ds, c as nat),
                ds.len() == start.cells.len(),
                all_valid(ds),
            decreases self.width - c,
        {
            let x = if self.generation % 2 == 0 {
                c
            } else {
                self.width - 1 - c
            };
            let ghost top = self@;
            let ghost ds_top = ds;
            let mut r: i32 = 0;
            assert(self.generation == start.generation);
            while r < self.height
                invariant
                    0 <= r <= self.height,
                    0 <= x < self.width,
                    0 <= c < self.width,
                    x == start.column(c as int),
                    top.wf(),
                    start.wf(),
                    self@.wf(),
                    self@.same_frame(top),
                    start.same_frame(top),
                    self@ == top.swept_column(ds, x as int, r as nat),
                    top == start.swept(ds, c as nat),
                    ds.len() == start.cells.len(),
                    all_valid(ds),
                decreases self.height - r,
            {
                let y = self.height - 1 - r;
                let ghost here = self@;
                self.visit(x, y);
                proof {
                    let d = choose|d: Draws|
                        d.valid() && self@ == here.step(x as int, y as int, d);
                    let i = start.index(x as int, y as int);
                    lemma_index_in_range(
                        start.width,
                        start.height,
                        x as int,
                        y as int,
                    );
                    let next = ds.update(i, d);
                    assert forall|yy: int|
                        top.height - r <= yy < top.height implies ds[#[trigger] top.index(
                        x as int,
                        yy,
                    )] == next[top.index(x as int, yy)] by {
                        lemma_index_in_range(top.width, top.height, x as int, yy);
                        if top.index(x as int, yy) == i {
                            lemma_index_injective(top.width, x as int, yy, x as int, y as int);
                        }
                    }
                    lemma_column_agrees(top, ds, next, x as int, r as nat);
                    assert forall|cc: int, yy: int|
                        0 <= cc < c && 0 <= yy < start.height implies ds[#[trigger] start.index(
                        start.column(cc),
                        yy,
                    )] == next[start.index(start.column(cc), yy)] by {
                        lemma_index_in_range(start.width, start.height, start.column(cc), yy);
                        if start.index(start.column(cc), yy) == i {
                            lemma_index_injective(
                                start.width,
                                start.column(cc),
                                yy,
                                x as int,
                                y as int,
                            );
                        }
                    }
                    lemma_sweep_agrees(start, ds, next, c as nat);
                    ds = next;
                }
                r = r + 1;
            }
            c = c + 1;
        }
        self.finish();
        assert(before.ticks_to(self@, ds));
        proof {
            crate::laws::lemma_tick(before, ds);
        }
    }
}

impl<'a> API<'a> {
    /// Advances the world by one generation.
    pub fn update_world(&mut self)
        requires
            old(self).grid().wf(),
        ensures
            exists|draws: Seq<Draws>| old(self).grid().ticks_to(final(self).grid(), draws),
            old(self).grid().ticked_to(final(self).grid()),
            *final(final(self).world) == *final(old(self).world),
            final(self).x == old(self).x,
            final(self).y == old(self).y,
    {
        let ghost before = self.world@;
        self.world.tick();
        proof {
            let draws = choose|draws: Seq<Draws>| before.ticks_to(self.world@, draws);
            assert(old(self).grid().ticks_to(self.grid(), draws));
        }
    }
}

} // verus!
