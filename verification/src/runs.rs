//! Runs of a small world, proved for every outcome of chance.

use vstd::prelude::*;
use crate::grid::Grid;
use crate::particle::Particle;
use crate::rng::Draws;
use crate::variant::Variant;

verus! {

/// A grid of three by three cells with water over salt in the middle
/// column, both fresh, and nothing else.
pub open spec fn water_over_salt(a: u8, b: u8) -> Grid {
    Grid::fresh(3, 3).placed(1, 0, Variant::Water, a).placed(1, 1, Variant::Salt, b)
}

/// The materials of a row of a grid of three columns.
pub open spec fn row(g: Grid, y: int) -> (Variant, Variant, Variant) {
    (g.cells[3 * y].variant, g.cells[3 * y + 1].variant, g.cells[3 * y + 2].variant)
}

/// Whether a particle is as the rules leave a fresh one at rest: with no
/// strength, no hotter than the room, and without the mark of a cell that
/// turned.
pub open spec fn tame(p: Particle) -> bool {
    &&& p.strength == 0
    &&& 0 <= p.temperature <= 22_000
    &&& p.variant == Variant::Empty ==> p.rb == 0
}

/// Whether a grid is one of three by three tame cells in a given
/// generation, running.
pub open spec fn board(g: Grid, generation: u8) -> bool {
    &&& g.width == 3
    &&& g.height == 3
    &&& g.cells.len() == 9
    &&& g.env.len() == 9
    &&& g.running
    &&& g.generation == generation
    &&& forall|i: int| 0 <= i < 9 ==> tame(#[trigger] g.cells[i])
}

/// Whether no particle of the grid has acted or was written in the running
/// sweep.
pub open spec fn rested(g: Grid) -> bool {
    forall|i: int|
        0 <= i < 9 ==> !(#[trigger] g.cells[i]).modified && g.cells[i].clock != g.stamp()
}

/// Whether a grid holds no living cell.
pub open spec fn lifeless(g: Grid) -> bool {
    forall|i: int| 0 <= i < 9 ==> (#[trigger] g.cells[i]).variant != Variant::GOL
}

/// Whether the sweep has nothing to do in a column: each of its cells is
/// empty or was written in the running sweep.
pub open spec fn idle_column(g: Grid, x: int) -> bool {
    forall|y: int|
        0 <= y < 3 ==> {
            let p = #[trigger] g.cells[x + 3 * y];
            p.variant == Variant::Empty || p.clock == g.stamp()
        }
}

/// The sweep of an idle column of a lifeless board changes no cell.
pub proof fn lemma_idle_column(g: Grid, d: Seq<Draws>, x: int, generation: u8)
    requires
        board(g, generation),
        lifeless(g),
        0 <= x < 3,
        idle_column(g, x),
    ensures
        g.swept_column(d, x, 3).cells == g.cells,
        g.swept_column(d, x, 3).same_frame(g),
        g.swept_column(d, x, 3).env == g.env,
{
    reveal_with_fuel(Grid::swept_column, 4);
    assert(tame(g.cells[x + 3 * 2]) && tame(g.cells[x + 3 * 1]) && tame(g.cells[x + 3 * 0]));
    let g1 = g.step(x, 2, d[g.index(x, 2)]);
    assert(g1.cells == g.cells && g1.same_frame(g) && g1.env == g.env);
    let g2 = g1.step(x, 1, d[g.index(x, 1)]);
    assert(g2.cells == g.cells && g2.same_frame(g) && g2.env == g.env);
    let g3 = g2.step(x, 0, d[g.index(x, 0)]);
    assert(g3.cells == g.cells && g3.same_frame(g) && g3.env == g.env);
}

/// In the first sweep the salt falls, and the water falls onto it and
/// dissolves it: salt water is left in the middle and water at the bottom.
pub proof fn lemma_water_meets_salt(g: Grid, d: Seq<Draws>)
    requires
        board(g, 0),
        rested(g),
        forall|i: int| 0 <= i < 9 ==> (#[trigger] g.cells[i]).clock <= 1,
        row(g, 0) == (Variant::Empty, Variant::Water, Variant::Empty),
        row(g, 1) == (Variant::Empty, Variant::Salt, Variant::Empty),
        row(g, 2) == (Variant::Empty, Variant::Empty, Variant::Empty),
    ensures
        ({
            let h = g.swept_column(d, 1, 3);
            &&& board(h, 0)
            &&& row(h, 0) == (Variant::Empty, Variant::Empty, Variant::Empty)
            &&& row(h, 1) == (Variant::Empty, Variant::SaltWater, Variant::Empty)
            &&& row(h, 2) == (Variant::Empty, Variant::Water, Variant::Empty)
            &&& forall|i: int| 0 <= i < 9 ==> (#[trigger] h.cells[i]).clock <= 1
        }),
{
    reveal_with_fuel(Grid::swept_column, 4);
    assert(forall|i: int| 0 <= i < 9 ==> tame(#[trigger] g.cells[i]));
    let g1 = g.step(1, 2, d[g.index(1, 2)]);
    assert(g1.cells == g.cells && g1.same_frame(g) && g1.env == g.env);
    let g2 = g1.step(1, 1, d[g.index(1, 1)]);
    assert(board(g2, 0));
    assert(row(g2, 0) == (Variant::Empty, Variant::Water, Variant::Empty));
    assert(row(g2, 1) == (Variant::Empty, Variant::Empty, Variant::Empty));
    assert(row(g2, 2) == (Variant::Empty, Variant::Salt, Variant::Empty));
    assert(forall|i: int| 0 <= i < 9 ==> (#[trigger] g2.cells[i]).clock <= 1);
    assert(g2.cells[1] == g.cells[1]);
    let g3 = g2.step(1, 0, d[g.index(1, 0)]);
    assert(board(g3, 0));
    assert(row(g3, 0) == (Variant::Empty, Variant::Empty, Variant::Empty));
    assert(row(g3, 1) == (Variant::Empty, Variant::SaltWater, Variant::Empty));
    assert(row(g3, 2) == (Variant::Empty, Variant::Water, Variant::Empty));
    assert(forall|i: int| 0 <= i < 9 ==> (#[trigger] g3.cells[i]).clock <= 1);
}

/// Water at the bottom of the middle column, with room on both sides,
/// flows one cell aside, whatever its side.
pub proof fn lemma_water_flows_aside(g: Grid, d: Draws)
    requires
        board(g, 1),
        rested(g),
        row(g, 0) == (Variant::Empty, Variant::Empty, Variant::Empty),
        row(g, 1) == (Variant::Empty, Variant::SaltWater, Variant::Empty),
        row(g, 2) == (Variant::Empty, Variant::Water, Variant::Empty),
    ensures
        ({
            let h = g.step(1, 2, d);
            &&& board(h, 1)
            &&& row(h, 0) == row(g, 0)
            &&& row(h, 1) == row(g, 1)
            &&& h.cells[4] == g.cells[4]
            &&& h.cells[7].variant == Variant::Empty
            &&& h.cells[6].variant == Variant::Empty || (h.cells[6].variant == Variant::Water
                && h.cells[6].clock == 2)
            &&& h.cells[8].variant == Variant::Empty || (h.cells[8].variant == Variant::Water
                && h.cells[8].clock == 2)
        }),
{
    reveal(Grid::flow);
    assert(forall|i: int| 0 <= i < 9 ==> tame(#[trigger] g.cells[i]));
    assert(!g.cells[7].modified && g.cells[7].clock != 2);
    let p = g.cells[7];
    let warm = p.relaxed();
    let g1 = g.put(1, 2, warm);
    let side = crate::motion::flow_side(warm.ra);
    let step = Particle { rb: crate::motion::SETTLED_AFTER_STEP, ..warm };
    let sh = g1.shift(1, 2, step, side, 0).grid;
    let to = 7 + side;
    assert(sh.cells[to].variant == Variant::Water && sh.cells[to].clock == 2 && sh.cells[to].ra
        == warm.ra);
    assert forall|i: int| 0 <= i < 9 && i != to implies (#[trigger] sh.cells[i]).variant
        != Variant::Water by {
        assert(row(g, 0) == (Variant::Empty, Variant::Empty, Variant::Empty));
        assert(row(g, 1) == (Variant::Empty, Variant::SaltWater, Variant::Empty));
        assert(row(g, 2) == (Variant::Empty, Variant::Water, Variant::Empty));
    }
    let told = sh.tell(1 + d.spread_x, 2 + d.spread_y, warm);
    assert(told == sh) by {
        let a = 1 + d.spread_x;
        let b = 2 + d.spread_y;
        assert(sh.width == 3 && sh.height == 3);
        if sh.in_bounds(a, b) {
            let i = sh.index(a, b);
            crate::grid::lemma_index_in_range(3, 3, a, b);
            assert(0 <= i < 9);
            if i != to {
                assert(sh.cells[i].variant != Variant::Water);
            }
        }
    }
    let m = g1.flow(1, 2, warm, d);
    assert(m.grid == sh && m.dx == side && m.dy == 0);
    assert(g.kernel(1, 2, p, d) == m);
    let q = m.grid.look(1 + side, 2);
    assert(q == sh.cells[to]);
    assert(m.grid.react(1 + side, 2, q.variant, q, d).grid == sh);
    let h = g.step(1, 2, d);
    assert(h.cells == sh.cells);
    assert forall|i: int| 0 <= i < 9 implies tame(#[trigger] h.cells[i]) by {
        assert(tame(g.cells[i]));
    }
}

/// Salt water in the middle, over an empty cell, falls into it.
pub proof fn lemma_salt_water_falls(g: Grid, d: Draws)
    requires
        board(g, 1),
        !g.cells[4].modified,
        g.cells[4].clock != 2,
        row(g, 0) == (Variant::Empty, Variant::Empty, Variant::Empty),
        row(g, 1) == (Variant::Empty, Variant::SaltWater, Variant::Empty),
        g.cells[7].variant == Variant::Empty,
    ensures
        ({
            let h = g.step(1, 1, d);
            &&& board(h, 1)
            &&& row(h, 0) == row(g, 0)
            &&& row(h, 1) == (Variant::Empty, Variant::Empty, Variant::Empty)
            &&& h.cells[7].variant == Variant::SaltWater
            &&& h.cells[6] == g.cells[6]
            &&& h.cells[8] == g.cells[8]
        }),
{
    assert(forall|i: int| 0 <= i < 9 ==> tame(#[trigger] g.cells[i]));
    assert(tame(g.cells[4]) && tame(g.cells[7]));
}

/// In the second sweep the water, which cannot fall, flows aside, and the
/// salt water falls into its place at the bottom.
pub proof fn lemma_salt_water_sinks(g: Grid, d: Seq<Draws>)
    requires
        board(g, 1),
        rested(g),
        row(g, 0) == (Variant::Empty, Variant::Empty, Variant::Empty),
        row(g, 1) == (Variant::Empty, Variant::SaltWater, Variant::Empty),
        row(g, 2) == (Variant::Empty, Variant::Water, Variant::Empty),
    ensures
        ({
            let h = g.swept_column(d, 1, 3);
            &&& board(h, 1)
            &&& lifeless(h)
            &&& idle_column(h, 0)
            &&& idle_column(h, 2)
            &&& h.cells[7].variant == Variant::SaltWater
        }),
{
    reveal_with_fuel(Grid::swept_column, 4);
    let g1 = g.step(1, 2, d[g.index(1, 2)]);
    lemma_water_flows_aside(g, d[g.index(1, 2)]);
    assert(!g.cells[4].modified && g.cells[4].clock != 2);
    let g2 = g1.step(1, 1, d[g.index(1, 1)]);
    lemma_salt_water_falls(g1, d[g.index(1, 1)]);
    let g3 = g2.step(1, 0, d[g.index(1, 0)]);
    lemma_top_is_idle(g2, d[g.index(1, 0)]);
    assert(g.swept_column(d, 1, 3) == g3);
    assert forall|y: int| 0 <= y < 3 implies ({
        let p = #[trigger] g3.cells[0 + 3 * y];
        p.variant == Variant::Empty || p.clock == g3.stamp()
    }) by {
        assert(g3.cells[0].variant == row(g3, 0).0);
        assert(g3.cells[3].variant == row(g3, 1).0);
    }
    assert forall|y: int| 0 <= y < 3 implies ({
        let p = #[trigger] g3.cells[2 + 3 * y];
        p.variant == Variant::Empty || p.clock == g3.stamp()
    }) by {
        assert(g3.cells[2].variant == row(g3, 0).2);
        assert(g3.cells[5].variant == row(g3, 1).2);
    }
    assert forall|i: int| 0 <= i < 9 implies (#[trigger] g3.cells[i]).variant != Variant::GOL by {
        assert(row(g3, 0) == (Variant::Empty, Variant::Empty, Variant::Empty));
        assert(row(g3, 1) == (Variant::Empty, Variant::Empty, Variant::Empty));
    }
}

/// An empty cell at the top of the middle column, over empty cells, with
/// no life around, stays as it is.
pub proof fn lemma_top_is_idle(g: Grid, d: Draws)
    requires
        board(g, 1),
        row(g, 0) == (Variant::Empty, Variant::Empty, Variant::Empty),
        row(g, 1) == (Variant::Empty, Variant::Empty, Variant::Empty),
    ensures
        g.step(1, 0, d).cells == g.cells,
        g.step(1, 0, d).same_frame(g),
        g.step(1, 0, d).env == g.env,
{
    assert(forall|i: int| 0 <= i < 9 ==> tame(#[trigger] g.cells[i]));
    assert(tame(g.cells[0]) && tame(g.cells[1]) && tame(g.cells[2]) && tame(g.cells[3]) && tame(
        g.cells[4],
    ) && tame(g.cells[5]));
}

/// The materials of the rows say which cells of a board are empty and that
/// none lives.
proof fn lemma_rows_are_lifeless(g: Grid, generation: u8)
    requires
        board(g, generation),
        row(g, 0).0 == Variant::Empty && row(g, 0).2 == Variant::Empty,
        row(g, 1).0 == Variant::Empty && row(g, 1).2 == Variant::Empty,
        row(g, 2).0 == Variant::Empty && row(g, 2).2 == Variant::Empty,
        row(g, 0).1 != Variant::GOL && row(g, 1).1 != Variant::GOL && row(g, 2).1 != Variant::GOL,
    ensures
        lifeless(g),
        idle_column(g, 0),
        idle_column(g, 2),
{
    assert forall|i: int| 0 <= i < 9 implies (#[trigger] g.cells[i]).variant != Variant::GOL by {
        assert(g.cells[0].variant == row(g, 0).0 && g.cells[1].variant == row(g, 0).1
            && g.cells[2].variant == row(g, 0).2);
        assert(g.cells[3].variant == row(g, 1).0 && g.cells[4].variant == row(g, 1).1
            && g.cells[5].variant == row(g, 1).2);
        assert(g.cells[6].variant == row(g, 2).0 && g.cells[7].variant == row(g, 2).1
            && g.cells[8].variant == row(g, 2).2);
    }
    assert forall|y: int| 0 <= y < 3 implies ({
        let p = #[trigger] g.cells[0 + 3 * y];
        p.variant == Variant::Empty || p.clock == g.stamp()
    }) by {
        assert(g.cells[0].variant == row(g, 0).0);
        assert(g.cells[3].variant == row(g, 1).0);
        assert(g.cells[6].variant == row(g, 2).0);
    }
    assert forall|y: int| 0 <= y < 3 implies ({
        let p = #[trigger] g.cells[2 + 3 * y];
        p.variant == Variant::Empty || p.clock == g.stamp()
    }) by {
        assert(g.cells[2].variant == row(g, 0).2);
        assert(g.cells[5].variant == row(g, 1).2);
        assert(g.cells[8].variant == row(g, 2).2);
    }
}

/// The first tick of water over salt: salt water is left in the middle of
/// the grid and water at the bottom, at rest in the next generation.
pub proof fn lemma_first_tick(a: u8, b: u8, draws: Seq<Draws>)
    ensures
        ({
            let h = water_over_salt(a, b).ticked(draws);
            &&& board(h, 1)
            &&& rested(h)
            &&& row(h, 0) == (Variant::Empty, Variant::Empty, Variant::Empty)
            &&& row(h, 1) == (Variant::Empty, Variant::SaltWater, Variant::Empty)
            &&& row(h, 2) == (Variant::Empty, Variant::Water, Variant::Empty)
        }),
{
    let g = water_over_salt(a, b);
    let s0 = Grid { cleared: false, ..g };
    assert(g.cells.len() == 9);
    assert(g.cells[1] == Particle::seeded(Variant::Water, a, 0));
    assert(g.cells[4] == Particle::seeded(Variant::Salt, b, 0));
    assert(forall|i: int| 0 <= i < 9 && i != 1 && i != 4 ==> g.cells[i] == Particle::spec_empty());
    assert(board(s0, 0));
    assert(rested(s0));
    lemma_rows_are_lifeless(s0, 0);
    reveal_with_fuel(Grid::swept, 4);
    let c0 = s0.swept_column(draws, 0, 3);
    lemma_idle_column(s0, draws, 0, 0);
    assert(board(c0, 0) && rested(c0));
    let c1 = c0.swept_column(draws, 1, 3);
    lemma_water_meets_salt(c0, draws);
    lemma_rows_are_lifeless(c1, 0);
    let c2 = c1.swept_column(draws, 2, 3);
    lemma_idle_column(c1, draws, 2, 0);
    assert(s0.swept(draws, 3) == c2);
    let h = c2.finished();
    assert(g.ticked(draws) == h);
    assert forall|i: int| 0 <= i < 9 implies tame(#[trigger] h.cells[i]) && !h.cells[i].modified
        && h.cells[i].clock != h.stamp() && h.cells[i].variant == c1.cells[i].variant by {
        assert(tame(c1.cells[i]) && c1.cells[i].clock <= 1);
    }
    assert(h.generation == 1 && h.running && h.width == 3 && h.height == 3);
    assert(h.env.len() == 9 && h.cells.len() == 9);
    assert(board(h, 1));
    assert(rested(h));
    assert(row(h, 0) == row(c1, 0));
    assert(row(h, 1) == row(c1, 1));
    assert(row(h, 2) == row(c1, 2));
}

/// Salt takes up water: in a grid of three by three cells with water over
/// salt in the middle column, both fresh, salt water lies at the bottom of
/// the column after two ticks, whatever chance decides.
pub proof fn lemma_salt_takes_up_water(a: u8, b: u8, first: Seq<Draws>, second: Seq<Draws>)
    ensures
        water_over_salt(a, b).ticked(first).ticked(second).at(1, 2).variant == Variant::SaltWater,
{
    let g = water_over_salt(a, b).ticked(first);
    lemma_first_tick(a, b, first);
    let s0 = Grid { cleared: false, ..g };
    assert(board(s0, 1) && rested(s0));
    lemma_rows_are_lifeless(s0, 1);
    reveal_with_fuel(Grid::swept, 4);
    let c0 = s0.swept_column(second, 2, 3);
    lemma_idle_column(s0, second, 2, 1);
    assert(board(c0, 1) && rested(c0));
    let c1 = c0.swept_column(second, 1, 3);
    lemma_salt_water_sinks(c0, second);
    let c2 = c1.swept_column(second, 0, 3);
    lemma_idle_column(c1, second, 0, 1);
    assert(s0.swept(second, 3) == c2);
    let h = c2.finished();
    assert(g.ticked(second) == h);
    assert(h.cells[7].variant == c1.cells[7].variant);
    assert(h.at(1, 2) == h.cells[7]);
}

} // verus!
