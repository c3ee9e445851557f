//! The one source of chance, and the bundle of draws that one cell update
//! consumes.

use vstd::prelude::*;
use rand::Rng;

verus! {

/// A number drawn from the generator that `rand::thread_rng` hands out, by
/// `rand::Rng::gen_range` on the range from zero up to `n`, `n` left out.
/// Trusted: the result lies in that range, and an empty range, on which the
/// call panics, is ruled out. Which number comes is left open.
#[verifier::external_body]
pub(crate) fn uniform_below(n: i32) -> (r: i32)
    requires
        n > 0,
    ensures
        0 <= r < n,
{
    rand::thread_rng().gen_range(0..n)
}

/// The direction that a draw stands for: left, none or right.
pub open spec fn spec_dir_of(i: int) -> int {
    i % 3 - 1
}

/// The direction that a draw stands for.
pub fn dir_of(i: i32) -> (d: i32)
    requires
        i >= 0,
    ensures
        d == spec_dir_of(i as int),
        -1 <= d <= 1,
{
    (i % 3) - 1
}

/// The step that a draw stands for: one of the eight directions, or none.
pub open spec fn spec_vec_of(i: int) -> (int, int) {
    let k = i % 9;
    if k == 0 {
        (1, 1)
    } else if k == 1 {
        (1, 0)
    } else if k == 2 {
        (1, -1)
    } else if k == 3 {
        (0, -1)
    } else if k == 4 {
        (-1, -1)
    } else if k == 5 {
        (-1, 0)
    } else if k == 6 {
        (-1, 1)
    } else if k == 7 {
        (0, 1)
    } else {
        (0, 0)
    }
}

/// The step that a draw stands for.
pub fn vec_of(i: i32) -> (v: (i32, i32))
    requires
        i >= 0,
    ensures
        (v.0 as int, v.1 as int) == spec_vec_of(i as int),
        -1 <= v.0 <= 1,
        -1 <= v.1 <= 1,
{
    match i % 9 {
        0 => (1, 1),
        1 => (1, 0),
        2 => (1, -1),
        3 => (0, -1),
        4 => (-1, -1),
        5 => (-1, 0),
        6 => (-1, 1),
        7 => (0, 1),
        _ => (0, 0),
    }
}

/// Whether a draw is the one that counts: the first of its range.
pub open spec fn spec_hit_of(i: int) -> bool {
    i == 0
}

/// Whether a draw is the one that counts.
pub fn hit_of(i: i32) -> (hit: bool)
    ensures
        hit == spec_hit_of(i as int),
{
    i == 0
}

/// The grain of a new particle: one of two values, chosen by a coin.
pub open spec fn spec_grain_of(coin: int) -> u8 {
    if coin == 0 {
        100
    } else {
        150
    }
}

/// The grain that a coin stands for.
pub fn grain_of(coin: i32) -> (g: u8)
    requires
        0 <= coin <= 1,
    ensures
        g == spec_grain_of(coin as int),
        g == 100 + coin * 50,
{
    if coin == 0 {
        100
    } else {
        150
    }
}

/// What chance decides in the update of one cell.
#[derive(Clone, Copy, Debug, PartialEq, Eq, Structural)]
pub struct Draws {
    /// The side a falling or rising particle leans to: -1, 0 or 1.
    pub dir: i32,
    /// Whether a falling liquid takes a new flow bias.
    pub reseed: bool,
    /// The new flow bias, from 100 up to 150, 150 left out.
    pub bias: u8,
    /// The neighbour a flowing liquid tells its direction, as a step in x.
    pub spread_x: i32,
    /// The same step, in y.
    pub spread_y: i32,
    /// Whether the material's slow reaction is due.
    pub react: bool,
    /// The grain of a particle born in this update: 100 or 150.
    pub grain: u8,
}

impl Draws {
    /// Whether each draw lies in its range.
    pub open spec fn valid(self) -> bool {
        &&& -1 <= self.dir <= 1
        &&& 100 <= self.bias < 150
        &&& -1 <= self.spread_x <= 1
        &&& -1 <= self.spread_y <= 1
        &&& (self.grain == 100 || self.grain == 150)
    }

    /// The draws under which chance changes nothing.
    pub open spec fn spec_still() -> Draws {
        Draws { dir: 0, reseed: false, bias: 100, spread_x: 0, spread_y: 0, react: false, grain: 100 }
    }

    /// Whether each draw lies in its range.
    pub fn is_valid(&self) -> (r: bool)
        ensures
            r == self.valid(),
    {
        -1 <= self.dir && self.dir <= 1 && 100 <= self.bias && self.bias < 150 && -1
            <= self.spread_x && self.spread_x <= 1 && -1 <= self.spread_y && self.spread_y <= 1 && (
        self.grain == 100 || self.grain == 150)
    }

    /// The draws under which chance changes nothing.
    #[verifier::when_used_as_spec(spec_still)]
    pub fn still() -> (d: Draws)
        ensures
            d == Self::spec_still(),
            d.valid(),
    {
        Draws { dir: 0, reseed: false, bias: 100, spread_x: 0, spread_y: 0, react: false, grain: 100 }
    }
}

} // verus!
