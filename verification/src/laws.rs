//! What holds of every update and of every tick: walls stand, motion moves
//! matter without making or losing any, and each reaction changes the
//! amount of a material by what its rule says.

use vstd::prelude::*;
use crate::grid::{lemma_index_in_range, lemma_index_injective, Grid};
use crate::motion::Move;
use crate::particle::{lemma_relax_between, Particle};
use crate::rng::Draws;
use crate::rules::{bit, Outcome, BOILING_POINT, GLASS_POINT};
use crate::variant::Variant;
use crate::variant_type::VariantProperty;

verus! {

/// Number of particles of a material among cells.
pub open spec fn tally(cells: Seq<Particle>, v: Variant) -> int
    decreases cells.len(),
{
    if cells.len() == 0 {
        0
    } else {
        tally(cells.drop_last(), v) + bit(cells.last().variant == v)
    }
}

/// Writing one cell changes the number of particles of a material by what
/// the cell held and what it holds then.
pub broadcast proof fn lemma_tally_update(cells: Seq<Particle>, i: int, p: Particle, v: Variant)
    requires
        0 <= i < cells.len(),
    ensures
        #[trigger] tally(cells.update(i, p), v) == tally(cells, v) - bit(cells[i].variant == v)
            + bit(p.variant == v),
    decreases cells.len(),
{
    let after = cells.update(i, p);
    if i == cells.len() - 1 {
        assert(after.drop_last() =~= cells.drop_last());
    } else {
        lemma_tally_update(cells.drop_last(), i, p, v);
        assert(after.drop_last() =~= cells.drop_last().update(i, p));
    }
}

/// A place inside a well-formed grid has an index among its cells.
pub broadcast proof fn lemma_index_is_cell(g: Grid, x: int, y: int)
    requires
        g.wf(),
        g.in_bounds(x, y),
    ensures
        0 <= #[trigger] g.index(x, y) < g.cells.len(),
{
    lemma_index_in_range(g.width, g.height, x, y);
}

impl Grid {
    /// Number of particles of a material in the grid.
    pub open spec fn count(self, v: Variant) -> int {
        tally(self.cells, v)
    }

    /// Whether the walls of this grid stand where those of `before` stand.
    pub open spec fn same_walls(self, before: Grid) -> bool {
        &&& self.cells.len() == before.cells.len()
        &&& forall|i: int|
            0 <= i < self.cells.len() ==> ((#[trigger] self.cells[i]).variant == Variant::Wall
                <==> before.cells[i].variant == Variant::Wall)
    }

    /// Whether no living cell is hotter than life bears.
    pub open spec fn life_is_cool(self) -> bool {
        forall|i: int|
            0 <= i < self.cells.len() && (#[trigger] self.cells[i]).variant == Variant::GOL
                ==> self.cells[i].temperature <= BOILING_POINT
    }

    /// Whether the grid holds neither steam, which condenses, nor oxygen,
    /// which burns hydrogen to water.
    pub open spec fn has_no_water_source(self) -> bool {
        forall|i: int|
            0 <= i < self.cells.len() ==> (#[trigger] self.cells[i]).variant != Variant::WTVP
                && self.cells[i].variant != Variant::OXGN
    }

    /// Whether nothing in the grid turns into water in the running sweep:
    /// there is no oxygen, and what steam there is was written in this
    /// sweep, so that the sweep passes over it.
    pub open spec fn water_is_bound(self) -> bool {
        forall|i: int|
            0 <= i < self.cells.len() ==> {
                let p = #[trigger] self.cells[i];
                &&& p.variant != Variant::OXGN
                &&& p.variant == Variant::WTVP ==> p.clock == self.stamp()
            }
    }

    /// The amount of water in all its forms: water, steam, salt water, and
    /// the salt that salt water leaves.
    pub open spec fn wet(self) -> int {
        self.count(Variant::Water) + self.count(Variant::WTVP) + self.count(Variant::SaltWater)
            + self.count(Variant::Salt)
    }

    /// Whether this grid can have come from `before` by updates: shape and
    /// generation are the same, the walls stand where they stood, life is
    /// cool if it was, and water is bound if it was.
    pub open spec fn follows(self, before: Grid) -> bool {
        &&& self.same_frame(before)
        &&& self.cleared == before.cleared
        &&& self.same_walls(before)
        &&& before.life_is_cool() ==> self.life_is_cool()
        &&& before.water_is_bound() ==> self.water_is_bound()
    }

    /// Whether this grid holds as much of every material as `before`.
    pub open spec fn same_matter(self, before: Grid) -> bool {
        forall|v: Variant| #[trigger] self.count(v) == before.count(v)
    }
}

/// A particle that leaves its place for an empty one makes and loses no
/// matter.
pub proof fn lemma_shift(g: Grid, x: int, y: int, p: Particle, dx: int, dy: int)
    requires
        g.wf(),
        g.in_bounds(x, y),
        g.at(x, y).variant == p.variant,
        g.at(x, y).temperature == p.temperature,
        p.variant.property() != VariantProperty::Solid,
        g.look(x + dx, y + dy).variant == Variant::Empty,
    ensures
        g.shift(x, y, p, dx, dy).grid.follows(g),
        g.shift(x, y, p, dx, dy).grid.same_matter(g),
        ({ let m = g.shift(x, y, p, dx, dy); m.grid.look(x + m.dx, y + m.dy).variant == p.variant }),
{
    broadcast use lemma_tally_update, lemma_index_is_cell;

    let m = g.shift(x, y, p, dx, dy);
    assert forall|v: Variant| #[trigger] m.grid.count(v) == g.count(v) by {}
}

/// Two cells that change places make and lose no matter.
pub proof fn lemma_sink(g: Grid, x: int, y: int, dx: int, dy: int)
    requires
        g.wf(),
    ensures
        g.sink(x, y, dx, dy).grid.follows(g),
        g.sink(x, y, dx, dy).grid.same_matter(g),
        g.in_bounds(x, y) ==> ({ let m = g.sink(x, y, dx, dy); m.grid.look(x + m.dx, y + m.dy).variant == g.at(x, y).variant }),
{
    broadcast use lemma_tally_update, lemma_index_is_cell;

    let m = g.sink(x, y, dx, dy);
    assert forall|v: Variant| #[trigger] m.grid.count(v) == g.count(v) by {}
}

/// Moving the powder that a place holds makes and loses no matter, and
/// moves no wall.
pub proof fn lemma_move_powder(g: Grid, x: int, y: int, p: Particle, dir: int)
    requires
        g.wf(),
        g.in_bounds(x, y),
        g.at(x, y).variant == p.variant,
        g.at(x, y).temperature == p.temperature,
        p.variant.property() == VariantProperty::Powder,
    ensures
        g.move_powder(x, y, p, dir).grid.follows(g),
        g.move_powder(x, y, p, dir).grid.same_matter(g),
        ({ let m = g.move_powder(x, y, p, dir); m.grid.look(x + m.dx, y + m.dy).variant == p.variant }),
{
    broadcast use lemma_tally_update, lemma_index_is_cell;

    let m = g.move_powder(x, y, p, dir);
    assert forall|v: Variant| #[trigger] m.grid.count(v) == g.count(v) by {}
}

/// The same of the gas that a place holds.
pub proof fn lemma_move_gas(g: Grid, x: int, y: int, p: Particle, dir: int)
    requires
        g.wf(),
        g.in_bounds(x, y),
        g.at(x, y).variant == p.variant,
        g.at(x, y).temperature == p.temperature,
        p.variant.property() == VariantProperty::Gas,
    ensures
        g.move_gas(x, y, p, dir).grid.follows(g),
        g.move_gas(x, y, p, dir).grid.same_matter(g),
        ({ let m = g.move_gas(x, y, p, dir); m.grid.look(x + m.dx, y + m.dy).variant == p.variant }),
{
    broadcast use lemma_tally_update, lemma_index_is_cell;

    let m = g.move_gas(x, y, p, dir);
    assert forall|v: Variant| #[trigger] m.grid.count(v) == g.count(v) by {}
}

/// A liquid that tells a neighbour its direction makes and loses no matter.
pub proof fn lemma_tell(g: Grid, x: int, y: int, p: Particle)
    requires
        g.wf(),
        p.variant.property() == VariantProperty::Liquid,
    ensures
        g.tell(x, y, p).follows(g),
        g.tell(x, y, p).same_matter(g),
        forall|a: int, b: int| (#[trigger] g.tell(x, y, p).look(a, b)).variant == g.look(a, b).variant,
{
    broadcast use lemma_tally_update, lemma_index_is_cell;

    let t = g.tell(x, y, p);
    assert forall|v: Variant| #[trigger] t.count(v) == g.count(v) by {}
}

/// The same of the liquid that flows from a place.
pub proof fn lemma_flow(g: Grid, x: int, y: int, p: Particle, d: Draws)
    requires
        g.wf(),
        g.in_bounds(x, y),
        g.at(x, y).variant == p.variant,
        g.at(x, y).temperature == p.temperature,
        p.variant.property() == VariantProperty::Liquid,
    ensures
        g.flow(x, y, p, d).grid.follows(g),
        g.flow(x, y, p, d).grid.same_matter(g),
        ({ let m = g.flow(x, y, p, d); m.grid.look(x + m.dx, y + m.dy).variant == p.variant }),
{
    broadcast use lemma_tally_update, lemma_index_is_cell;

    reveal(Grid::flow);
    let side = crate::motion::flow_side(p.ra);
    let run = g.shift(x, y, Particle { rb: crate::motion::SETTLED_AFTER_RUN, ..p }, 2 * side, 0);
    let step = g.shift(x, y, Particle { rb: crate::motion::SETTLED_AFTER_STEP, ..p }, side, 0);
    lemma_tell(run.grid, x + d.spread_x, y + d.spread_y, p);
    lemma_tell(step.grid, x + d.spread_x, y + d.spread_y, p);
    let m = g.flow(x, y, p, d);
    assert forall|v: Variant| #[trigger] m.grid.count(v) == g.count(v) by {
        assert(run.grid.tell(x + d.spread_x, y + d.spread_y, p).count(v) == run.grid.count(v));
        assert(step.grid.tell(x + d.spread_x, y + d.spread_y, p).count(v) == step.grid.count(v));
    }
}

/// The same of the liquid that a place holds.
pub proof fn lemma_move_liquid(g: Grid, x: int, y: int, p: Particle, d: Draws)
    requires
        g.wf(),
        g.in_bounds(x, y),
        g.at(x, y).variant == p.variant,
        g.at(x, y).temperature == p.temperature,
        p.variant.property() == VariantProperty::Liquid,
    ensures
        g.move_liquid(x, y, p, d).grid.follows(g),
        g.move_liquid(x, y, p, d).grid.same_matter(g),
        ({ let m = g.move_liquid(x, y, p, d); m.grid.look(x + m.dx, y + m.dy).variant == p.variant }),
{
    let below = g.look(x, y + 1);
    if below.variant == Variant::Empty {
        let drop = Particle {
            ra: if d.reseed {
                d.bias
            } else {
                p.ra
            },
            ..p
        };
        lemma_shift(g, x, y, drop, 0, 1);
    } else if below.variant.weight() < p.variant.weight() {
        lemma_sink(g, x, y, 0, 1);
    } else if g.look(x + d.dir, y + 1).variant == Variant::Empty {
        lemma_shift(g, x, y, p, d.dir as int, 1);
    } else if g.look(x - d.dir, y + 1).variant == Variant::Empty {
        lemma_shift(g, x, y, p, -d.dir, 1);
    } else {
        lemma_flow(g, x, y, p, d);
    }
}

/// Motion conserves matter: after the particle at a place relaxed and
/// moved, the grid holds as much of every material as before, its walls
/// stand where they stood, and the particle is of the material it was.
pub proof fn lemma_kernel(g: Grid, x: int, y: int, p: Particle, d: Draws)
    requires
        g.wf(),
        g.in_bounds(x, y),
        g.at(x, y) == p,
        p.variant != Variant::Wall,
        p.variant != Variant::Empty,
    ensures
        g.kernel(x, y, p, d).grid.follows(g),
        g.kernel(x, y, p, d).grid.same_matter(g),
        ({ let m = g.kernel(x, y, p, d); m.grid.look(x + m.dx, y + m.dy).variant == p.variant }),
{
    broadcast use lemma_tally_update, lemma_index_is_cell;

    let warm = p.relaxed();
    let g1 = g.put(x, y, warm);
    lemma_relax_between(p.temperature as int, p.variant.base_temperature() as int);
    assert(g1.follows(g));
    assert forall|v: Variant| #[trigger] g1.count(v) == g.count(v) by {}
    let m = g.kernel(x, y, p, d);
    match p.variant.property() {
        VariantProperty::Powder => {
            lemma_move_powder(g1, x, y, warm, d.dir as int);
        },
        VariantProperty::Liquid => {
            lemma_move_liquid(g1, x, y, warm, d);
        },
        VariantProperty::Gas => {
            lemma_move_gas(g1, x, y, warm, d.dir as int);
        },
        VariantProperty::Solid => {},
    }
    assert forall|v: Variant| #[trigger] m.grid.count(v) == g.count(v) by {
        assert(m.grid.count(v) == g1.count(v));
    }
}

/// What the rule of a material changes in the amount of sand, when it is
/// applied to the particle `p`: sand that melts is lost, and a living cell
/// that dies of heat leaves sand.
pub open spec fn sand_yield(v: Variant, p: Particle) -> int {
    if v == Variant::Sand && p.temperature > GLASS_POINT {
        -1
    } else if v == Variant::GOL && p.temperature > BOILING_POINT {
        1
    } else {
        0
    }
}

impl Grid {
    /// What the rule of a material changes in the amount of water, when
    /// it is applied to the particle `p` at a place: water that boils is
    /// lost, and so is water that salt takes up; steam that condenses and
    /// hydrogen that oxygen burns leave water.
    pub open spec fn water_yield(self, x: int, y: int, v: Variant, p: Particle) -> int {
        match v {
            Variant::Water => if p.temperature > BOILING_POINT {
                -1
            } else {
                0
            },
            Variant::Salt => if self.look(x, y - 1).variant == Variant::Water && self.look(
                x,
                y + 1,
            ).variant == Variant::Empty {
                -1
            } else {
                0
            },
            Variant::WTVP => if 0 < p.temperature < BOILING_POINT {
                1
            } else {
                0
            },
            Variant::OXGN => {
                let (hx, hy) = self.coldest_side(x, y);
                let h = self.look(x + hx, y + hy);
                if h.variant == Variant::HYGN && h.strength == 0 {
                    1
                } else {
                    0
                }
            },
            _ => 0,
        }
    }

    /// Whether a grid came from this one by the rule of `v`, applied to `p`
    /// at a place: the walls stand, sand and water changed by what the
    /// rule yields, and no water in any of its forms was lost.
    pub open spec fn reacted(self, after: Grid, x: int, y: int, v: Variant, p: Particle) -> bool {
        &&& after.follows(self)
        &&& after.count(Variant::Sand) == self.count(Variant::Sand) + sand_yield(v, p)
        &&& after.count(Variant::Water) == self.count(Variant::Water) + self.water_yield(
            x,
            y,
            v,
            p,
        )
        &&& after.wet() >= self.wet()
    }
}

/// The rule of the empty cell yields neither sand nor water.
pub proof fn lemma_rule_empty(g: Grid, x: int, y: int, p: Particle, d: Draws)
    requires
        g.wf(),
        g.in_bounds(x, y),
        g.at(x, y) == p,
        p.variant == Variant::Empty,
    ensures
        g.reacted(g.rule_empty(x, y, p, d).grid, x, y, Variant::Empty, p),
{
    broadcast use lemma_tally_update, lemma_index_is_cell;

}

/// The rule of life yields sand where the cell dies of heat.
pub proof fn lemma_rule_gol(g: Grid, x: int, y: int, p: Particle)
    requires
        g.wf(),
        g.in_bounds(x, y),
        g.at(x, y) == p,
        p.variant == Variant::GOL,
    ensures
        g.reacted(g.rule_gol(x, y, p).grid, x, y, Variant::GOL, p),
{
    broadcast use lemma_tally_update, lemma_index_is_cell;

}

/// The rule of sand loses sand where it melts.
pub proof fn lemma_rule_sand(g: Grid, x: int, y: int, p: Particle)
    requires
        g.wf(),
        g.in_bounds(x, y),
        g.at(x, y) == p,
        p.variant == Variant::Sand,
    ensures
        g.reacted(g.rule_sand(x, y, p).grid, x, y, Variant::Sand, p),
{
    broadcast use lemma_tally_update, lemma_index_is_cell;

}

/// The rule of salt loses the water that the salt takes up.
pub proof fn lemma_rule_salt(g: Grid, x: int, y: int, p: Particle)
    requires
        g.wf(),
        g.in_bounds(x, y),
        g.at(x, y) == p,
        p.variant == Variant::Salt,
    ensures
        g.reacted(g.rule_salt(x, y, p).grid, x, y, Variant::Salt, p),
{
    broadcast use lemma_tally_update, lemma_index_is_cell;

}

/// The rule of salt water yields neither sand nor water.
pub proof fn lemma_rule_salt_water(g: Grid, x: int, y: int, p: Particle)
    requires
        g.wf(),
        g.in_bounds(x, y),
        g.at(x, y) == p,
        p.variant == Variant::SaltWater,
    ensures
        g.reacted(g.rule_salt_water(x, y, p).grid, x, y, Variant::SaltWater, p),
{
    broadcast use lemma_tally_update, lemma_index_is_cell;

}

/// The rule of water loses water where it boils.
pub proof fn lemma_rule_water(g: Grid, x: int, y: int, p: Particle)
    requires
        g.wf(),
        g.in_bounds(x, y),
        g.at(x, y) == p,
        p.variant == Variant::Water,
    ensures
        g.reacted(g.rule_water(x, y, p).grid, x, y, Variant::Water, p),
{
    broadcast use lemma_tally_update, lemma_index_is_cell;

}

/// The rule of steam yields water where it condenses.
pub proof fn lemma_rule_steam(g: Grid, x: int, y: int, p: Particle)
    requires
        g.wf(),
        g.in_bounds(x, y),
        g.at(x, y) == p,
        p.variant == Variant::WTVP,
    ensures
        g.reacted(g.rule_steam(x, y, p).grid, x, y, Variant::WTVP, p),
{
    broadcast use lemma_tally_update, lemma_index_is_cell;

}

/// The rule of fire yields neither sand nor water.
pub proof fn lemma_rule_fire(g: Grid, x: int, y: int, p: Particle, d: Draws)
    requires
        g.wf(),
        g.in_bounds(x, y),
        g.at(x, y) == p,
        p.variant == Variant::Fire,
    ensures
        g.reacted(g.rule_fire(x, y, p, d).grid, x, y, Variant::Fire, p),
{
    broadcast use lemma_tally_update, lemma_index_is_cell;

}

/// The rule of a material that decays yields neither sand nor water.
pub proof fn lemma_rule_decay(g: Grid, x: int, y: int, p: Particle, d: Draws)
    requires
        g.wf(),
        g.in_bounds(x, y),
        g.at(x, y) == p,
        crate::sweep::spec_odds(p.variant) == crate::sweep::DECAY_ODDS,
    ensures
        g.reacted(g.rule_decay(x, y, p, d).grid, x, y, p.variant, p),
{
    broadcast use lemma_tally_update, lemma_index_is_cell;

}

/// The rule of oxygen yields water where it burns hydrogen.
pub proof fn lemma_rule_oxygen(g: Grid, x: int, y: int, p: Particle)
    requires
        g.wf(),
        g.in_bounds(x, y),
        g.at(x, y) == p,
        p.variant == Variant::OXGN,
    ensures
        g.reacted(g.rule_oxygen(x, y, p).grid, x, y, Variant::OXGN, p),
{
    broadcast use lemma_tally_update, lemma_index_is_cell;

}

/// Each reaction is accounted for: the rule of a material, applied to the
/// particle of that material at a place, leaves the walls standing and
/// changes the amounts of sand and of water by what it yields.
pub proof fn lemma_react(g: Grid, x: int, y: int, v: Variant, p: Particle, d: Draws)
    requires
        g.wf(),
        g.in_bounds(x, y),
        g.at(x, y) == p,
        p.variant == v,
    ensures
        g.reacted(g.react(x, y, v, p, d).grid, x, y, v, p),
{
    match v {
        Variant::Empty => lemma_rule_empty(g, x, y, p, d),
        Variant::Wall => {},
        Variant::Sand => lemma_rule_sand(g, x, y, p),
        Variant::Glass => {},
        Variant::Water => lemma_rule_water(g, x, y, p),
        Variant::Fire => lemma_rule_fire(g, x, y, p, d),
        Variant::Smoke => lemma_rule_decay(g, x, y, p, d),
        Variant::Salt => lemma_rule_salt(g, x, y, p),
        Variant::SaltWater => lemma_rule_salt_water(g, x, y, p),
        Variant::OXGN => lemma_rule_oxygen(g, x, y, p),
        Variant::WTVP => lemma_rule_steam(g, x, y, p),
        Variant::GOL => lemma_rule_gol(g, x, y, p),
        _ => lemma_rule_decay(g, x, y, p, d),
    }
}

/// Flagging a particle as having acted changes no material and no
/// temperature.
pub proof fn lemma_mark(g: Grid, x: int, y: int)
    requires
        g.wf(),
    ensures
        g.mark(x, y).follows(g),
        g.mark(x, y).same_matter(g),
{
    broadcast use lemma_tally_update, lemma_index_is_cell;

    let m = g.mark(x, y);
    assert forall|v: Variant| #[trigger] m.count(v) == g.count(v) by {}
}

impl Grid {
    /// What the update of the particle at a place changes in the amount of
    /// sand: what the rule of its material yields where it arrived.
    pub open spec fn sand_gain(self, x: int, y: int, d: Draws) -> int {
        let p = self.at(x, y);
        if p.modified || p.variant == Variant::Empty || p.variant.immutable() {
            0
        } else {
            let m = self.kernel(x, y, p, d);
            let q = m.grid.look(x + m.dx, y + m.dy);
            sand_yield(q.variant, q)
        }
    }

    /// What the update of the particle at a place changes in the amount of
    /// water.
    pub open spec fn water_gain(self, x: int, y: int, d: Draws) -> int {
        let p = self.at(x, y);
        if p.modified || p.variant == Variant::Empty || p.variant.immutable() {
            0
        } else {
            let m = self.kernel(x, y, p, d);
            let q = m.grid.look(x + m.dx, y + m.dy);
            m.grid.water_yield(x + m.dx, y + m.dy, q.variant, q)
        }
    }
}

/// Grids that hold as much of every material hold as much water in all its
/// forms.
pub proof fn lemma_same_matter_is_as_wet(a: Grid, b: Grid)
    requires
        a.same_matter(b),
    ensures
        a.wet() == b.wet(),
{
    assert(a.count(Variant::Water) == b.count(Variant::Water));
    assert(a.count(Variant::WTVP) == b.count(Variant::WTVP));
    assert(a.count(Variant::SaltWater) == b.count(Variant::SaltWater));
    assert(a.count(Variant::Salt) == b.count(Variant::Salt));
}

/// The amounts of sand and water after the update of the particle at a
/// place are those before it and what the update gains; the walls stand,
/// and no water in any of its forms is lost.
pub proof fn lemma_update_particle(g: Grid, x: int, y: int, d: Draws)
    requires
        g.wf(),
        g.in_bounds(x, y),
    ensures
        g.update_particle(x, y, g.at(x, y), d).grid.follows(g),
        g.update_particle(x, y, g.at(x, y), d).grid.count(Variant::Sand) == g.count(Variant::Sand)
            + g.sand_gain(x, y, d),
        g.update_particle(x, y, g.at(x, y), d).grid.count(Variant::Water) == g.count(
            Variant::Water,
        ) + g.water_gain(x, y, d),
        g.update_particle(x, y, g.at(x, y), d).grid.wet() >= g.wet(),
{
    let p = g.at(x, y);
    if p.modified {
    } else if p.variant == Variant::Empty {
        lemma_rule_empty(g, x, y, p, d);
        let o = g.rule_empty(x, y, p, d);
        lemma_mark(o.grid, x, y);
        assert(o.grid.mark(x, y).count(Variant::Sand) == o.grid.count(Variant::Sand));
        assert(o.grid.mark(x, y).count(Variant::Water) == o.grid.count(Variant::Water));
        lemma_same_matter_is_as_wet(o.grid.mark(x, y), o.grid);
    } else if p.variant.immutable() {
    } else {
        lemma_kernel(g, x, y, p, d);
        let m = g.kernel(x, y, p, d);
        let nx = x + m.dx;
        let ny = y + m.dy;
        let q = m.grid.look(nx, ny);
        assert(m.grid.count(Variant::Sand) == g.count(Variant::Sand));
        assert(m.grid.count(Variant::Water) == g.count(Variant::Water));
        if m.grid.in_bounds(nx, ny) {
            lemma_react(m.grid, nx, ny, q.variant, q, d);
        }
        let o = m.grid.react(nx, ny, q.variant, q, d);
        lemma_mark(o.grid, nx, ny);
        assert(o.grid.mark(nx, ny).count(Variant::Sand) == o.grid.count(Variant::Sand));
        assert(o.grid.mark(nx, ny).count(Variant::Water) == o.grid.count(Variant::Water));
        lemma_same_matter_is_as_wet(o.grid.mark(nx, ny), o.grid);
        lemma_same_matter_is_as_wet(m.grid, g);
    }
}

/// A visit leaves the walls standing and changes the amounts of sand and
/// water by no more than the update of the particle gains.
pub proof fn lemma_step(g: Grid, x: int, y: int, d: Draws)
    requires
        g.wf(),
    ensures
        g.step(x, y, d).follows(g),
        g.step(x, y, d).wf(),
        g.life_is_cool() ==> g.step(x, y, d).count(Variant::Sand) <= g.count(Variant::Sand),
        g.water_is_bound() ==> g.step(x, y, d).count(Variant::Water) <= g.count(Variant::Water),
        g.step(x, y, d).wet() >= g.wet(),
{
    if g.in_bounds(x, y) {
        lemma_update_particle(g, x, y, d);
        lemma_index_in_range(g.width, g.height, x, y);
        let p = g.at(x, y);
        assert(p == g.cells[g.index(x, y)]);
        if !p.modified && !g.written(p) && p.variant != Variant::Empty && !p.variant.immutable() {
            lemma_kernel(g, x, y, p, d);
            let m = g.kernel(x, y, p, d);
            let q = m.grid.look(x + m.dx, y + m.dy);
            assert(q.variant == p.variant);
            if m.grid.in_bounds(x + m.dx, y + m.dy) {
                lemma_index_in_range(m.grid.width, m.grid.height, x + m.dx, y + m.dy);
            }
            if g.water_is_bound() {
                assert(p.variant != Variant::OXGN && p.variant != Variant::WTVP);
                assert(g.water_gain(x, y, d) <= 0);
            }
        }
    }
}

/// Cells of the same materials hold the same amount of each.
pub proof fn lemma_tally_by_variant(a: Seq<Particle>, b: Seq<Particle>, v: Variant)
    requires
        a.len() == b.len(),
        forall|i: int| 0 <= i < a.len() ==> a[i].variant == b[i].variant,
    ensures
        tally(a, v) == tally(b, v),
    decreases a.len(),
{
    if a.len() > 0 {
        lemma_tally_by_variant(a.drop_last(), b.drop_last(), v);
    }
}

impl Grid {
    /// Whether this grid can have come from `before` in a sweep: by updates
    /// that made no sand where life is cool and no water where water is
    /// bound, and lost no water in any of its forms.
    pub open spec fn swept_from(self, before: Grid) -> bool {
        &&& self.follows(before)
        &&& self.wf()
        &&& before.life_is_cool() ==> self.count(Variant::Sand) <= before.count(Variant::Sand)
        &&& before.water_is_bound() ==> self.count(Variant::Water) <= before.count(
            Variant::Water,
        )
        &&& self.wet() >= before.wet()
    }
}

/// What a visit keeps, the sweep of a column keeps.
pub proof fn lemma_swept_column(g: Grid, draws: Seq<Draws>, x: int, rows: nat)
    requires
        g.wf(),
    ensures
        g.swept_column(draws, x, rows).swept_from(g),
    decreases rows,
{
    if rows > 0 {
        lemma_swept_column(g, draws, x, (rows - 1) as nat);
        let h = g.swept_column(draws, x, (rows - 1) as nat);
        let y = g.height - rows;
        lemma_step(h, x, y, draws[g.index(x, y)]);
    }
}

/// What the sweep of a column keeps, the sweep of the grid keeps.
pub proof fn lemma_swept(g: Grid, draws: Seq<Draws>, columns: nat)
    requires
        g.wf(),
    ensures
        g.swept(draws, columns).swept_from(g),
    decreases columns,
{
    if columns > 0 {
        lemma_swept(g, draws, (columns - 1) as nat);
        let h = g.swept(draws, (columns - 1) as nat);
        lemma_swept_column(h, draws, g.column(columns - 1), g.height as nat);
    }
}

/// The end of a sweep changes the material of no cell.
pub proof fn lemma_finished(g: Grid, v: Variant)
    ensures
        g.finished().same_walls(g),
        g.finished().count(v) == g.count(v),
        g.finished().cells.len() == g.cells.len(),
        g.finished().wet() == g.wet(),
{
    lemma_tally_by_variant(g.finished().cells, g.cells, v);
    lemma_tally_by_variant(g.finished().cells, g.cells, Variant::Water);
    lemma_tally_by_variant(g.finished().cells, g.cells, Variant::WTVP);
    lemma_tally_by_variant(g.finished().cells, g.cells, Variant::SaltWater);
    lemma_tally_by_variant(g.finished().cells, g.cells, Variant::Salt);
}

impl Grid {
    /// What holds of every tick that leads from this grid to `after`: the
    /// shape stays, the `cleared` flag is down, the walls stand, no sand is
    /// made while life is cool, no water is made while there is neither
    /// steam nor oxygen, water that is lost is found as steam, salt water
    /// or salt, a world that does not run stands still, and one that runs
    /// has advanced by a generation and has nothing left to redraw.
    pub open spec fn ticked_to(self, after: Grid) -> bool {
        &&& after.wf()
        &&& after.width == self.width
        &&& after.height == self.height
        &&& after.running == self.running
        &&& !after.cleared
        &&& after.same_walls(self)
        &&& self.life_is_cool() ==> after.count(Variant::Sand) <= self.count(Variant::Sand)
        &&& self.has_no_water_source() ==> after.count(Variant::Water) <= self.count(
            Variant::Water,
        )
        &&& after.wet() >= self.wet()
        &&& !self.running ==> after == (Grid { cleared: false, ..self })
        &&& self.running ==> after.generation == self.stamp() && after.modified == Set::<
            usize,
        >::empty() && !after.needs_update()
    }
}

/// Every tick keeps what `ticked_to` says.
pub proof fn lemma_tick(g: Grid, draws: Seq<Draws>)
    requires
        g.wf(),
    ensures
        g.ticked_to(g.ticked(draws)),
{
    let start = Grid { cleared: false, ..g };
    lemma_walls_stand(g, draws);
    if g.life_is_cool() {
        lemma_sand_is_conserved(g, draws);
    }
    if g.has_no_water_source() {
        lemma_water_is_conserved(g, draws);
    }
    lemma_lost_water_is_found(g, draws);
    if g.running && g.width > 0 && g.height > 0 {
        lemma_swept(start, draws, g.width as nat);
    }
    assert(g.running ==> g.ticked(draws).modified =~= Set::<usize>::empty());
}

/// Walls stand: a cell holds a wall after a tick exactly if it held one
/// before.
pub proof fn lemma_walls_stand(g: Grid, draws: Seq<Draws>)
    requires
        g.wf(),
    ensures
        g.ticked(draws).same_walls(g),
{
    let start = Grid { cleared: false, ..g };
    if g.running && g.width > 0 && g.height > 0 {
        lemma_swept(start, draws, g.width as nat);
        lemma_finished(start.swept(draws, g.width as nat), Variant::Wall);
    } else {
        lemma_finished(start, Variant::Wall);
    }
}

/// Sand is conserved: while no living cell is hotter than life bears, a
/// tick makes no sand. It can only lose sand, to glass.
pub proof fn lemma_sand_is_conserved(g: Grid, draws: Seq<Draws>)
    requires
        g.wf(),
        g.life_is_cool(),
    ensures
        g.ticked(draws).count(Variant::Sand) <= g.count(Variant::Sand),
{
    let start = Grid { cleared: false, ..g };
    if g.running && g.width > 0 && g.height > 0 {
        lemma_swept(start, draws, g.width as nat);
        lemma_finished(start.swept(draws, g.width as nat), Variant::Sand);
    } else {
        lemma_finished(start, Variant::Sand);
    }
}

/// Water is conserved: while the grid holds neither steam, which condenses,
/// nor oxygen, which burns hydrogen, a tick makes no water. Steam that
/// comes of boiling in the tick is passed over until the next.
pub proof fn lemma_water_is_conserved(g: Grid, draws: Seq<Draws>)
    requires
        g.wf(),
        g.has_no_water_source(),
    ensures
        g.ticked(draws).count(Variant::Water) <= g.count(Variant::Water),
{
    let start = Grid { cleared: false, ..g };
    assert(start.water_is_bound());
    if g.running && g.width > 0 && g.height > 0 {
        lemma_swept(start, draws, g.width as nat);
        lemma_finished(start.swept(draws, g.width as nat), Variant::Water);
    } else {
        lemma_finished(start, Variant::Water);
    }
}

/// Lost water is accounted for: a tick never lessens the amount of water
/// in all its forms. Water that boils is steam, water that salt takes up
/// is salt water, and salt water that parts leaves its salt. So what a
/// tick loses in water it gains in steam, salt water and salt.
pub proof fn lemma_lost_water_is_found(g: Grid, draws: Seq<Draws>)
    requires
        g.wf(),
    ensures
        g.ticked(draws).wet() >= g.wet(),
        g.count(Variant::Water) - g.ticked(draws).count(Variant::Water) <= (g.ticked(
            draws,
        ).wet() - g.ticked(draws).count(Variant::Water)) - (g.wet() - g.count(Variant::Water)),
{
    let start = Grid { cleared: false, ..g };
    if g.running && g.width > 0 && g.height > 0 {
        lemma_swept(start, draws, g.width as nat);
        lemma_finished(start.swept(draws, g.width as nat), Variant::Water);
    } else {
        lemma_finished(start, Variant::Water);
    }
}

/// A world that does not run stands still: a tick changes no cell, nothing
/// of the environment and not the generation.
pub proof fn lemma_paused_tick_is_idle(g: Grid, draws: Seq<Draws>)
    requires
        !g.running,
    ensures
        g.ticked(draws) == (Grid { cleared: false, ..g }),
        g.ticked(draws).cells == g.cells,
{
}

/// A tick is a function of the grid and the draws: from one grid, under
/// the same draws, it leads to one grid.
pub proof fn lemma_tick_is_determined(a: Grid, b: Grid, draws: Seq<Draws>, after_a: Grid, after_b: Grid)
    requires
        a == b,
        a.ticks_to(after_a, draws),
        b.ticks_to(after_b, draws),
    ensures
        after_a == after_b,
{
}

/// After a reset every place holds the empty cell, and the host has
/// something to redraw until the next tick, which leaves nothing to redraw.
pub proof fn lemma_reset_empties(g: Grid, x: int, y: int, draws: Seq<Draws>)
    requires
        g.wf(),
    ensures
        g.emptied().at(x, y) == Particle::spec_empty(),
        g.emptied().at(x, y).variant == Variant::Empty,
        g.emptied().needs_update(),
        g.emptied().wf(),
        !g.emptied().ticked(draws).needs_update(),
{
    if g.in_bounds(x, y) {
        lemma_index_in_range(g.width, g.height, x, y);
    }
    let start = Grid { cleared: false, ..g.emptied() };
    if g.running && g.width > 0 && g.height > 0 {
        lemma_swept(start, draws, g.width as nat);
    }
    assert(g.emptied().ticked(draws).modified =~= Set::<usize>::empty());
}

/// A second reset changes nothing.
pub proof fn lemma_reset_is_idempotent(g: Grid)
    ensures
        g.emptied().emptied() == g.emptied(),
{
    assert(g.emptied().emptied().cells =~= g.emptied().cells);
}

} // verus!
