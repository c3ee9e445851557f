//! What each material does once it has moved: burn, dissolve, boil, condense,
//! live and die.
//!
//! A rule reports a change where it changed the material of a cell; what it
//! only wrote back, with a strength counted down or a mark wiped, it does
//! not report.

use vstd::prelude::*;
use crate::api::API;
use crate::grid::Grid;
use crate::motion::is_void;
use crate::particle::Particle;
use crate::rng::Draws;
use crate::variant::Variant;
use crate::variant_type::VariantType;

verus! {

/// Above this temperature sand melts into glass.
pub const GLASS_POINT: i32 = 1_700_000;

/// Above this temperature water boils, oxygen ignites and life ends.
pub const BOILING_POINT: i32 = 100_000;

/// Above this temperature salt water parts into steam and salt.
pub const BRINE_BOILING_POINT: i32 = 102_000;

/// The ambient temperature that a fire forces on its cell.
pub const FIRE_AMBIENT: i32 = 800_000;

/// The mark in the second scratch byte of a cell that changed between alive
/// and dead in the running sweep.
pub const TURNED: u8 = 1;

/// What a rule left: the grid after it, and whether it reports a change.
pub struct Outcome {
    pub grid: Grid,
    pub changed: bool,
}

impl Outcome {
    /// The outcome with the particle at a place flagged as having acted, if
    /// the rule reported a change.
    pub open spec fn marked(self, x: int, y: int) -> Outcome {
        if self.changed {
            Outcome { grid: self.grid.mark(x, y), changed: true }
        } else {
            self
        }
    }
}

/// One for true, zero for false.
pub open spec fn bit(b: bool) -> int {
    if b {
        1
    } else {
        0
    }
}

impl Particle {
    /// Whether the cell was alive when the running sweep began: a living
    /// cell that was not born in this sweep, or the remnant of one that died
    /// in it. `stamp` is the clock value of this sweep.
    pub open spec fn alive_at_start(self, stamp: u8) -> bool {
        let turned = self.rb == TURNED && self.clock == stamp;
        ||| self.variant == Variant::GOL && !turned
        ||| self.variant == Variant::Empty && turned
    }

    /// What a living cell leaves when it dies: an empty cell with the mark.
    pub open spec fn spec_remnant() -> Particle {
        Particle { rb: TURNED, ..Particle::spec_empty() }
    }

    /// What a living cell leaves when it dies.
    #[verifier::when_used_as_spec(spec_remnant)]
    pub fn remnant() -> (p: Particle)
        ensures
            p == Self::spec_remnant(),
    {
        let mut p = Particle::empty();
        p.rb = TURNED;
        p
    }

    /// Whether the cell was alive when the sweep with this stamp began.
    pub fn was_alive(&self, stamp: u8) -> (r: bool)
        ensures
            r == self.alive_at_start(stamp),
    {
        let turned = self.rb == TURNED && self.clock == stamp;
        match self.variant {
            Variant::GOL => !turned,
            Variant::Empty => turned,
            _ => false,
        }
    }
}

/// Index of the coldest of four temperatures; of equally cold ones, the first.
pub open spec fn coldest(t0: int, t1: int, t2: int, t3: int) -> int {
    if t0 <= t1 && t0 <= t2 && t0 <= t3 {
        0
    } else if t1 <= t2 && t1 <= t3 {
        1
    } else if t2 <= t3 {
        2
    } else {
        3
    }
}

/// The offset of the `k`-th cardinal neighbour: left, right, up, down.
pub open spec fn cardinal(k: int) -> (int, int) {
    if k == 0 {
        (-1, 0)
    } else if k == 1 {
        (1, 0)
    } else if k == 2 {
        (0, -1)
    } else {
        (0, 1)
    }
}

impl Grid {
    /// Number of the eight neighbours of a place that were alive when the
    /// running sweep began.
    pub open spec fn census(self, x: int, y: int) -> int {
        let s = self.stamp();
        bit(self.look(x - 1, y - 1).alive_at_start(s)) + bit(
            self.look(x - 1, y).alive_at_start(s),
        ) + bit(self.look(x - 1, y + 1).alive_at_start(s)) + bit(
            self.look(x, y - 1).alive_at_start(s),
        ) + bit(self.look(x, y + 1).alive_at_start(s)) + bit(
            self.look(x + 1, y - 1).alive_at_start(s),
        ) + bit(self.look(x + 1, y).alive_at_start(s)) + bit(
            self.look(x + 1, y + 1).alive_at_start(s),
        )
    }

    /// The rule changes nothing and reports nothing.
    pub open spec fn unchanged(self) -> Outcome {
        Outcome { grid: self, changed: false }
    }

    /// An empty cell with exactly three neighbours alive comes alive;
    /// otherwise a mark left on it is wiped.
    pub open spec fn rule_empty(self, x: int, y: int, p: Particle, d: Draws) -> Outcome {
        if self.census(x, y) == 3 {
            Outcome {
                grid: self.put(x, y, Particle::seeded(Variant::GOL, d.grain, TURNED)),
                changed: true,
            }
        } else if p.rb == TURNED {
            Outcome { grid: self.put(x, y, Particle::spec_empty()), changed: false }
        } else {
            self.unchanged()
        }
    }

    /// A living cell with fewer than two or more than three neighbours alive
    /// dies and leaves a remnant; one that stays alive loses its mark; one
    /// that is too hot turns to sand whatever its neighbours. The rule
    /// reports a change where the cell is no longer alive.
    pub open spec fn rule_gol(self, x: int, y: int, p: Particle) -> Outcome {
        let n = self.census(x, y);
        let lonely = n < 2 || n > 3;
        let g = if lonely {
            self.put(x, y, Particle::spec_remnant())
        } else {
            self.put(x, y, Particle { rb: 0, ..p })
        };
        Outcome {
            grid: if p.temperature > BOILING_POINT {
                g.put(x, y, Particle { variant: Variant::Sand, ..p })
            } else {
                g
            },
            changed: lonely || p.temperature > BOILING_POINT,
        }
    }

    /// Sand that is hot enough melts into glass.
    pub open spec fn rule_sand(self, x: int, y: int, p: Particle) -> Outcome {
        if p.temperature > GLASS_POINT {
            Outcome { grid: self.put(x, y, Particle { variant: Variant::Glass, ..p }), changed: true }
        } else {
            self.unchanged()
        }
    }

    /// Salt under water and over an empty cell turns the water into salt
    /// water in the cell below.
    pub open spec fn rule_salt(self, x: int, y: int, p: Particle) -> Outcome {
        if self.look(x, y - 1).variant == Variant::Water && self.look(x, y + 1).variant
            == Variant::Empty {
            Outcome {
                grid: self.put(x, y - 1, Particle::spec_empty()).put(
                    x,
                    y + 1,
                    Particle { variant: Variant::SaltWater, ..p },
                ),
                changed: true,
            }
        } else {
            self.unchanged()
        }
    }

    /// Salt water that is hot enough parts: steam above and salt below where
    /// both cells are empty, else salt in its place.
    pub open spec fn rule_salt_water(self, x: int, y: int, p: Particle) -> Outcome {
        if p.temperature > BRINE_BOILING_POINT {
            if self.look(x, y - 1).variant == Variant::Empty && self.look(x, y + 1).variant
                == Variant::Empty {
                Outcome {
                    grid: self.put(x, y - 1, Particle { variant: Variant::WTVP, ..p }).put(
                        x,
                        y + 1,
                        Particle { variant: Variant::Salt, ..p },
                    ).put(x, y, Particle::spec_empty()),
                    changed: true,
                }
            } else {
                Outcome {
                    grid: self.put(x, y, Particle { variant: Variant::Salt, ..p }),
                    changed: true,
                }
            }
        } else {
            self.unchanged()
        }
    }

    /// Water that is hot enough turns to steam. Water over salt dissolves
    /// it: salt that withstands loses strength, salt that does not turns to
    /// salt water and changes places with the water.
    pub open spec fn rule_water(self, x: int, y: int, p: Particle) -> Outcome {
        let below = self.look(x, y + 1);
        if p.temperature > BOILING_POINT {
            Outcome { grid: self.put(x, y, Particle { variant: Variant::WTVP, ..p }), changed: true }
        } else if below.variant == Variant::Salt {
            let (brine, turned) = below.dissolved(
                Variant::SaltWater,
                Variant::SaltWater.base_strength(),
            );
            if turned {
                Outcome { grid: self.put(x, y, brine).put(x, y + 1, p), changed: true }
            } else {
                Outcome { grid: self.put(x, y + 1, brine), changed: false }
            }
        } else {
            self.unchanged()
        }
    }

    /// Steam between freezing and boiling condenses.
    pub open spec fn rule_steam(self, x: int, y: int, p: Particle) -> Outcome {
        if 0 < p.temperature < BOILING_POINT {
            Outcome { grid: self.put(x, y, Particle { variant: Variant::Water, ..p }), changed: true }
        } else {
            self.unchanged()
        }
    }

    /// Fire whose reaction is due dissolves towards smoke; fire that stays
    /// fire heats its cell.
    pub open spec fn rule_fire(self, x: int, y: int, p: Particle, d: Draws) -> Outcome {
        if d.react {
            let (q, turned) = p.dissolved(Variant::Smoke, Variant::Smoke.base_strength());
            if turned {
                Outcome { grid: self.put(x, y, q), changed: true }
            } else {
                Outcome { grid: self.put(x, y, q).warm(x, y, FIRE_AMBIENT), changed: false }
            }
        } else {
            Outcome { grid: self.warm(x, y, FIRE_AMBIENT), changed: false }
        }
    }

    /// A material that decays: when its reaction is due it dissolves towards
    /// nothing, and reports a change when it is gone.
    pub open spec fn rule_decay(self, x: int, y: int, p: Particle, d: Draws) -> Outcome {
        if d.react {
            let (q, turned) = p.dissolved(Variant::Empty, Variant::Empty.base_strength());
            if turned {
                Outcome { grid: self.put(x, y, Particle::spec_empty()), changed: true }
            } else {
                Outcome { grid: self.put(x, y, q), changed: false }
            }
        } else {
            self.unchanged()
        }
    }

    /// The offset of the coldest of the four cardinal neighbours of a place.
    pub open spec fn coldest_side(self, x: int, y: int) -> (int, int) {
        cardinal(
            coldest(
                self.look(x - 1, y).temperature as int,
                self.look(x + 1, y).temperature as int,
                self.look(x, y - 1).temperature as int,
                self.look(x, y + 1).temperature as int,
            ),
        )
    }

    /// Oxygen whose coldest cardinal neighbour is hydrogen dissolves it:
    /// hydrogen that withstands loses strength, hydrogen that does not turns
    /// to water and changes places with the oxygen. Then, where the cell of
    /// the oxygen is hot enough, the oxygen turns to fire. The rule reports
    /// a change where water or fire came of it.
    pub open spec fn rule_oxygen(self, x: int, y: int, p: Particle) -> Outcome {
        let (hx, hy) = self.coldest_side(x, y);
        let h = self.look(x + hx, y + hy);
        let (water, turned) = h.dissolved(Variant::Water, Variant::Water.base_strength());
        let joined = h.variant == Variant::HYGN && turned;
        let g = if joined {
            self.put(x, y, water).put(x + hx, y + hy, p)
        } else if h.variant == Variant::HYGN {
            self.put(x + hx, y + hy, water)
        } else {
            self
        };
        let (ox, oy) = if joined {
            (x + hx, y + hy)
        } else {
            (x, y)
        };
        if g.climate(ox, oy).ambient_temperature > BOILING_POINT {
            Outcome { grid: g.put(ox, oy, Particle { variant: Variant::Fire, ..p }), changed: true }
        } else {
            Outcome { grid: g, changed: joined }
        }
    }

    /// What the rule of a material does to the particle `p` at a place.
    pub open spec fn react(self, x: int, y: int, v: Variant, p: Particle, d: Draws) -> Outcome {
        match v {
            Variant::Empty => self.rule_empty(x, y, p, d),
            Variant::Wall => self.unchanged(),
            Variant::Sand => self.rule_sand(x, y, p),
            Variant::Glass => self.unchanged(),
            Variant::Water => self.rule_water(x, y, p),
            Variant::Fire => self.rule_fire(x, y, p, d),
            Variant::Smoke => self.rule_decay(x, y, p, d),
            Variant::Salt => self.rule_salt(x, y, p),
            Variant::SaltWater => self.rule_salt_water(x, y, p),
            Variant::OXGN => self.rule_oxygen(x, y, p),
            Variant::HYGN => self.rule_decay(x, y, p, d),
            Variant::HELM => self.rule_decay(x, y, p, d),
            Variant::CARB => self.rule_decay(x, y, p, d),
            Variant::NITR => self.rule_decay(x, y, p, d),
            Variant::IRON => self.rule_decay(x, y, p, d),
            Variant::CO2 => self.rule_decay(x, y, p, d),
            Variant::WTVP => self.rule_steam(x, y, p),
            Variant::GOL => self.rule_gol(x, y, p),
        }
    }
}

impl<'a> API<'a> {
    /// Number of the eight neighbours of the cursor that were alive when the
    /// running sweep began.
    pub fn census(&self) -> (n: u8)
        requires
            self.grid().wf(),
        ensures
            n == self.grid().census(self.x as int, self.y as int),
            n <= 8,
    {
        let s = self.world.generation.wrapping_add(1);
        let mut n: u8 = 0;
        if self.get(-1, -1).was_alive(s) {
            n = n + 1;
        }
        if self.get(-1, 0).was_alive(s) {
            n = n + 1;
        }
        if self.get(-1, 1).was_alive(s) {
            n = n + 1;
        }
        if self.get(0, -1).was_alive(s) {
            n = n + 1;
        }
        if self.get(0, 1).was_alive(s) {
            n = n + 1;
        }
        if self.get(1, -1).was_alive(s) {
            n = n + 1;
        }
        if self.get(1, 0).was_alive(s) {
            n = n + 1;
        }
        if self.get(1, 1).was_alive(s) {
            n = n + 1;
        }
        n
    }

    /// The offset of the coldest of the four cardinal neighbours of the
    /// cursor.
    pub fn coldest_side(&self) -> (to: (i32, i32))
        requires
            self.grid().wf(),
        ensures
            (to.0 as int, to.1 as int) == self.grid().coldest_side(self.x as int, self.y as int),
            -1 <= to.0 <= 1,
            -1 <= to.1 <= 1,
    {
        let t0 = self.get(-1, 0).temperature;
        let t1 = self.get(1, 0).temperature;
        let t2 = self.get(0, -1).temperature;
        let t3 = self.get(0, 1).temperature;
        if t0 <= t1 && t0 <= t2 && t0 <= t3 {
            (-1, 0)
        } else if t1 <= t2 && t1 <= t3 {
            (1, 0)
        } else if t2 <= t3 {
            (0, -1)
        } else {
            (0, 1)
        }
    }
}

fn update_empty(particle: Particle, api: API, d: Draws) -> (changed: bool)
    requires
        api.grid().wf(),
    ensures
        (Outcome { grid: final(api.world)@, changed }) == api.grid().rule_empty(
            api.x as int,
            api.y as int,
            particle,
            d,
        ),
        final(api.world)@.wf(),
        final(api.world)@.same_frame(api.grid()),
{
    let mut api = api;
    if api.census() == 3 {
        api.set(
            0,
            0,
            Particle::with_grain(VariantType::from_variant(Variant::GOL), d.grain, TURNED),
        );
        return true;
    }
    if particle.rb == TURNED {
        api.set(0, 0, Particle::empty());
    }
    false
}

fn update_gol(particle: Particle, api: API) -> (changed: bool)
    requires
        api.grid().wf(),
    ensures
        (Outcome { grid: final(api.world)@, changed }) == api.grid().rule_gol(
            api.x as int,
            api.y as int,
            particle,
        ),
        final(api.world)@.wf(),
        final(api.world)@.same_frame(api.grid()),
{
    let mut api = api;
    let alive_nbrs = api.census();
    let lonely = alive_nbrs < 2 || alive_nbrs > 3;
    if lonely {
        api.set(0, 0, Particle::remnant());
    } else {
        let mut kept = particle;
        kept.rb = 0;
        api.set(0, 0, kept);
    }
    if particle.temperature > BOILING_POINT {
        let mut sand = particle;
        sand.variant = Variant::Sand;
        api.set(0, 0, sand);
        return true;
    }
    lonely
}

fn update_sand(particle: Particle, api: API) -> (changed: bool)
    requires
        api.grid().wf(),
    ensures
        (Outcome { grid: final(api.world)@, changed }) == api.grid().rule_sand(
            api.x as int,
            api.y as int,
            particle,
        ),
        final(api.world)@.wf(),
        final(api.world)@.same_frame(api.grid()),
{
    let mut api = api;
    if particle.temperature > GLASS_POINT {
        let mut glass = particle;
        glass.variant = Variant::Glass;
        api.set(0, 0, glass);
        return true;
    }
    false
}

fn update_glass(_particle: Particle, api: API) -> (changed: bool)
    requires
        api.grid().wf(),
    ensures
        !changed,
        final(api.world)@ == api.grid(),
        final(api.world)@.wf(),
        final(api.world)@.same_frame(api.grid()),
{
    false
}

fn update_salt(particle: Particle, api: API) -> (changed: bool)
    requires
        api.grid().wf(),
    ensures
        (Outcome { grid: final(api.world)@, changed }) == api.grid().rule_salt(
            api.x as int,
            api.y as int,
            particle,
        ),
        final(api.world)@.wf(),
        final(api.world)@.same_frame(api.grid()),
{
    let mut api = api;
    let top = api.get(0, -1);
    let bottom = api.get(0, 1);
    if top.get_variant() == Variant::Water && is_void(bottom.get_variant()) {
        api.set(0, -1, Particle::empty());
        let mut brine = particle;
        brine.variant = Variant::SaltWater;
        api.set(0, 1, brine);
        return true;
    }
    false
}

fn update_salt_water(particle: Particle, api: API) -> (changed: bool)
    requires
        api.grid().wf(),
    ensures
        (Outcome { grid: final(api.world)@, changed }) == api.grid().rule_salt_water(
            api.x as int,
            api.y as int,
            particle,
        ),
        final(api.world)@.wf(),
        final(api.world)@.same_frame(api.grid()),
{
    let mut api = api;
    let top = api.get(0, -1);
    let bottom = api.get(0, 1);
    if particle.temperature > BRINE_BOILING_POINT {
        let mut salt = particle;
        salt.variant = Variant::Salt;
        if is_void(top.get_variant()) && is_void(bottom.get_variant()) {
            let mut steam = particle;
            steam.variant = Variant::WTVP;
            api.set(0, -1, steam);
            api.set(0, 1, salt);
            api.set(0, 0, Particle::empty());
        } else {
            api.set(0, 0, salt);
        }
        return true;
    }
    false
}

fn update_water(particle: Particle, api: API) -> (changed: bool)
    requires
        api.grid().wf(),
    ensures
        (Outcome { grid: final(api.world)@, changed }) == api.grid().rule_water(
            api.x as int,
            api.y as int,
            particle,
        ),
        final(api.world)@.wf(),
        final(api.world)@.same_frame(api.grid()),
{
    let mut api = api;
    if particle.temperature > BOILING_POINT {
        let mut steam = particle;
        steam.variant = Variant::WTVP;
        api.set(0, 0, steam);
        return true;
    }
    let mut below = api.get(0, 1);
    if below.get_variant() == Variant::Salt {
        if below.dissolve_to(VariantType::from_variant(Variant::SaltWater)) {
            api.set(0, 0, below);
            api.set(0, 1, particle);
            return true;
        }
        api.set(0, 1, below);
    }
    false
}

fn update_wtvp(particle: Particle, api: API) -> (changed: bool)
    requires
        api.grid().wf(),
    ensures
        (Outcome { grid: final(api.world)@, changed }) == api.grid().rule_steam(
            api.x as int,
            api.y as int,
            particle,
        ),
        final(api.world)@.wf(),
        final(api.world)@.same_frame(api.grid()),
{
    let mut api = api;
    if particle.temperature < BOILING_POINT && particle.temperature > 0 {
        let mut water = particle;
        water.variant = Variant::Water;
        api.set(0, 0, water);
        return true;
    }
    false
}

fn update_fire(particle: Particle, api: API, d: Draws) -> (changed: bool)
    requires
        api.grid().wf(),
    ensures
        (Outcome { grid: final(api.world)@, changed }) == api.grid().rule_fire(
            api.x as int,
            api.y as int,
            particle,
            d,
        ),
        final(api.world)@.wf(),
        final(api.world)@.same_frame(api.grid()),
{
    let mut api = api;
    let mut particle = particle;
    if d.react {
        let turned = particle.dissolve_to(VariantType::from_variant(Variant::Smoke));
        api.set(0, 0, particle);
        if turned {
            return true;
        }
    }
    let x = api.x;
    let y = api.y;
    api.set_temperature(x, y, FIRE_AMBIENT);
    false
}

/// The rule of the materials that decay.
fn update_decay(particle: Particle, api: API, d: Draws) -> (changed: bool)
    requires
        api.grid().wf(),
    ensures
        (Outcome { grid: final(api.world)@, changed }) == api.grid().rule_decay(
            api.x as int,
            api.y as int,
            particle,
            d,
        ),
        final(api.world)@.wf(),
        final(api.world)@.same_frame(api.grid()),
{
    let mut api = api;
    let mut particle = particle;
    if d.react {
        if particle.dissolve_to(VariantType::from_variant(Variant::Empty)) {
            api.set(0, 0, Particle::empty());
            return true;
        }
        api.set(0, 0, particle);
    }
    false
}

fn update_oxygen(particle: Particle, api: API) -> (changed: bool)
    requires
        api.grid().wf(),
    ensures
        (Outcome { grid: final(api.world)@, changed }) == api.grid().rule_oxygen(
            api.x as int,
            api.y as int,
            particle,
        ),
        final(api.world)@.wf(),
        final(api.world)@.same_frame(api.grid()),
{
    let mut api = api;
    let (hx, hy) = api.coldest_side();
    let mut nbr = api.get(hx, hy);
    let mut at: (i32, i32) = (0, 0);
    let mut joined = false;
    if nbr.get_variant() == Variant::HYGN {
        if nbr.dissolve_to(VariantType::from_variant(Variant::Water)) {
            api.set(0, 0, nbr);
            api.set(hx, hy, particle);
            at = (hx, hy);
            joined = true;
        } else {
            api.set(hx, hy, nbr);
        }
    }
    let ox: i64 = api.x as i64 + at.0 as i64;
    let oy: i64 = api.y as i64 + at.1 as i64;
    let hot = if ox < i32::MIN as i64 || ox > i32::MAX as i64 || oy < i32::MIN as i64 || oy
        > i32::MAX as i64 {
        crate::grid::AMBIENT_TEMPERATURE > BOILING_POINT
    } else {
        api.get_temperature(ox as i32, oy as i32) > BOILING_POINT
    };
    if hot {
        let mut fire = particle;
        fire.variant = Variant::Fire;
        api.set(at.0, at.1, fire);
        return true;
    }
    joined
}

impl Variant {
    /// Applies the rule of this material to `particle`, which sits under the
    /// cursor of `api`, with what chance decided in `d`.
    pub fn update(&self, particle: Particle, api: API, d: Draws) -> (changed: bool)
        requires
            api.grid().wf(),
        ensures
            (Outcome { grid: final(api.world)@, changed }) == api.grid().react(
                api.x as int,
                api.y as int,
                *self,
                particle,
                d,
            ),
            final(api.world)@.wf(),
            final(api.world)@.same_frame(api.grid()),
    {
        match self {
            Variant::Sand => update_sand(particle, api),
            Variant::Water => update_water(particle, api),
            Variant::Fire => update_fire(particle, api, d),
            Variant::Smoke => update_decay(particle, api, d),
            Variant::Salt => update_salt(particle, api),
            Variant::SaltWater => update_salt_water(particle, api),
            Variant::CARB => update_decay(particle, api, d),
            Variant::IRON => update_decay(particle, api, d),
            Variant::OXGN => update_oxygen(particle, api),
            Variant::HYGN => update_decay(particle, api, d),
            Variant::HELM => update_decay(particle, api, d),
            Variant::NITR => update_decay(particle, api, d),
            Variant::CO2 => update_decay(particle, api, d),
            Variant::WTVP => update_wtvp(particle, api),
            Variant::GOL => update_gol(particle, api),
            Variant::Empty => update_empty(particle, api, d),
            Variant::Glass => update_glass(particle, api),
            Variant::Wall => false,
        }
    }
}

impl Particle {
    /// Applies the rule of the particle's material to it.
    pub fn update(&mut self, api: API, d: Draws) -> (changed: bool)
        requires
            api.grid().wf(),
        ensures
            (Outcome { grid: final(api.world)@, changed }) == api.grid().react(
                api.x as int,
                api.y as int,
                old(self).variant,
                *old(self),
                d,
            ),
            final(api.world)@.wf(),
            final(api.world)@.same_frame(api.grid()),
            *final(self) == *old(self),
    {
        self.variant.update(*self, api, d)
    }
}

} // verus!
