//! The record that every cell of the grid holds.

use vstd::prelude::*;
use crate::rng::{grain_of, uniform_below};
use crate::variant::Variant;
use crate::variant_type::VariantType;

verus! {

/// The hottest a particle gets.
pub const MAX_TEMP: i32 = 9_275_000;

/// The coldest a particle gets.
pub const MIN_TEMP: i32 = -200_000;

/// The share of its distance to the base temperature that a particle covers
/// in one update is one in this many.
pub const RELAX_DIVISOR: i32 = 100;

/// Reserved for ballistic motion; no rule reads it.
#[derive(Clone, Copy, Debug, PartialEq, Eq, Structural)]
pub struct Velocity {
    pub x: i32,
    pub y: i32,
}

/// What a cell holds.
#[derive(Clone, Copy, Debug, PartialEq, Eq, Structural)]
pub struct Particle {
    /// Handle into the catalogue.
    pub variant: Variant,
    /// Scratch byte: colour grain, and the side a liquid flows to.
    pub ra: u8,
    /// Scratch byte: how settled a liquid is, and the mark of a cell that
    /// changed between alive and dead in the running sweep.
    pub rb: u8,
    /// The generation that last wrote the cell.
    pub clock: u8,
    /// How often the particle still withstands dissolving.
    pub strength: u8,
    /// Whether the particle has already acted in the running sweep.
    pub modified: bool,
    pub velocity: Velocity,
    /// In thousandths of a degree Celsius.
    pub temperature: i32,
}

/// `t` clamped to the temperatures a particle can have.
pub open spec fn clamp_temperature(t: int) -> int {
    if t < MIN_TEMP {
        MIN_TEMP as int
    } else if t > MAX_TEMP {
        MAX_TEMP as int
    } else {
        t
    }
}

/// `t` moved towards `base` by a hundredth of the distance, rounded towards `t`.
pub open spec fn relax_toward(t: int, base: int) -> int {
    if base >= t {
        t + (base - t) / (RELAX_DIVISOR as int)
    } else {
        t - (t - base) / (RELAX_DIVISOR as int)
    }
}

impl Particle {
    /// The empty cell: every field zero.
    pub open spec fn spec_empty() -> Particle {
        Particle {
            variant: Variant::Empty,
            ra: 0,
            rb: 0,
            clock: 0,
            strength: 0,
            modified: false,
            velocity: Velocity { x: 0, y: 0 },
            temperature: 0,
        }
    }

    /// A fresh particle of a material with the given scratch bytes.
    pub open spec fn seeded(variant: Variant, ra: u8, rb: u8) -> Particle {
        Particle { variant, ra, rb, ..Self::spec_empty() }
    }

    /// The particle with `heat` added, within the limits.
    pub open spec fn heated(self, heat: int) -> Particle {
        Particle { temperature: clamp_temperature(self.temperature + heat) as i32, ..self }
    }

    /// The particle after one step of cooling or warming towards the base
    /// temperature of its material.
    pub open spec fn relaxed(self) -> Particle {
        Particle {
            temperature: relax_toward(
                self.temperature as int,
                self.variant.base_temperature() as int,
            ) as i32,
            ..self
        }
    }

    /// What dissolving towards `target` leaves: a particle with strength left
    /// loses one and stays, one without turns into a fresh `target`.
    pub open spec fn dissolved(self, target: Variant, refill: u8) -> (Particle, bool) {
        if self.strength > 0 {
            (Particle { strength: (self.strength - 1) as u8, ..self }, false)
        } else {
            (Particle { variant: target, strength: refill, ..self }, true)
        }
    }

    /// The empty cell.
    #[verifier::when_used_as_spec(spec_empty)]
    pub fn empty() -> (p: Particle)
        ensures
            p == Self::spec_empty(),
    {
        Particle {
            variant: Variant::Empty,
            ra: 0,
            rb: 0,
            clock: 0,
            strength: 0,
            modified: false,
            velocity: Velocity { x: 0, y: 0 },
            temperature: 0,
        }
    }

    /// A fresh particle of a material. Its grain is drawn: 100 or 150. The
    /// second argument is not read.
    pub fn new(variant_type: VariantType, _ra: u8, rb: u8) -> (p: Particle)
        ensures
            p == Self::seeded(variant_type.source_variant, p.ra, rb),
            p.ra == 100 || p.ra == 150,
    {
        let coin = uniform_below(2);
        Self::with_grain(variant_type, grain_of(coin), rb)
    }

    /// A fresh particle whose grain is `ra`.
    pub fn with_grain(variant_type: VariantType, ra: u8, rb: u8) -> (p: Particle)
        ensures
            p == Self::seeded(variant_type.source_variant, ra, rb),
    {
        Particle {
            variant: variant_type.source_variant,
            ra,
            rb,
            clock: 0,
            strength: 0,
            modified: false,
            velocity: Velocity { x: 0, y: 0 },
            temperature: 0,
        }
    }

    /// The material of the particle.
    pub fn get_variant(&self) -> (v: Variant)
        ensures
            v == self.variant,
    {
        self.variant
    }

    /// Adds heat, in thousandths of a degree; the temperature stays within
    /// its limits.
    pub fn add_heat(&mut self, heat: i32)
        ensures
            *final(self) == old(self).heated(heat as int),
    {
        let sum: i64 = self.temperature as i64 + heat as i64;
        if sum < MIN_TEMP as i64 {
            self.temperature = MIN_TEMP;
        } else if sum > MAX_TEMP as i64 {
            self.temperature = MAX_TEMP;
        } else {
            self.temperature = sum as i32;
        }
    }

    /// One step towards the base temperature of the particle's material.
    pub fn relax(&mut self)
        ensures
            *final(self) == old(self).relaxed(),
    {
        let t: i64 = self.temperature as i64;
        let b: i64 = VariantType::from_variant(self.variant).base_temperature as i64;
        if b >= t {
            self.temperature = (t + (b - t) / RELAX_DIVISOR as i64) as i32;
        } else {
            self.temperature = (t - (t - b) / RELAX_DIVISOR as i64) as i32;
        }
    }

    /// Dissolves the particle towards the material of a descriptor, and says
    /// whether it turned into it.
    pub fn dissolve_to(&mut self, variant_type: VariantType) -> (turned: bool)
        ensures
            (*final(self), turned) == old(self).dissolved(
                variant_type.source_variant,
                variant_type.strength,
            ),
    {
        if self.strength > 0 {
            self.strength -= 1;
            false
        } else {
            self.variant = variant_type.source_variant;
            self.strength = variant_type.strength;
            true
        }
    }
}

impl Default for Particle {
    fn default() -> (p: Particle)
        ensures
            p == Particle::spec_empty(),
    {
        Particle::empty()
    }
}

/// Relaxing never leaves the span between the temperature and the base, so a
/// particle that is no hotter than a bound above the base stays so.
pub proof fn lemma_relax_between(t: int, base: int)
    ensures
        base >= t ==> t <= relax_toward(t, base) <= base,
        base <= t ==> base <= relax_toward(t, base) <= t,
{
}

} // verus!
