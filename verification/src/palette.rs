//! Arithmetic on colours, and the colour that a particle shows.
//!
//! Every blend is stated in whole numbers: a channel is the integer part of
//! the exact fraction, held to the range of a byte.

use vstd::prelude::*;
use crate::particle::Particle;
use crate::variant::{Variant, VARIANT_COUNT};
use crate::variant_type::{get_color, ParticleColor};

verus! {

/// Below this temperature a colour does not whiten.
pub const WHITEN_FROM: i32 = 20_000;

/// Below this temperature a colour does not glow.
pub const MELT_FROM: i32 = 1_000_000;

/// The span of temperature over which a colour whitens, or glows, fully.
pub const HEAT_SPAN: i32 = 1_000_000;

/// `n` held to the range of a byte.
pub open spec fn saturate(n: int) -> u8 {
    if n <= 0 {
        0
    } else if n >= 255 {
        255
    } else {
        n as u8
    }
}

/// The integer part of `a` and `b` mixed, `a` with `weight` parts in
/// `whole` and `b` with the rest.
pub open spec fn mix(a: int, b: int, weight: int, whole: int) -> int {
    (a * weight + b * (whole - weight)) / whole
}

/// How far a temperature has come from `from` towards `from` and the span,
/// as a part of the span.
pub open spec fn heat_share(temperature: int, from: int) -> int {
    if temperature - from > HEAT_SPAN {
        HEAT_SPAN as int
    } else {
        temperature - from
    }
}

/// The largest of three.
pub open spec fn max3(a: int, b: int, c: int) -> int {
    if a >= b && a >= c {
        a
    } else if b >= c {
        b
    } else {
        c
    }
}

/// The smallest of three.
pub open spec fn min3(a: int, b: int, c: int) -> int {
    if a <= b && a <= c {
        a
    } else if b <= c {
        b
    } else {
        c
    }
}

/// Where the hue of a colour puts each channel between the darkest and the
/// brightest: the shares of red, green and blue, and what they are shares of.
/// A grey counts as red.
pub open spec fn hue_shares(c: ParticleColor) -> (int, int, int, int) {
    let r = c.r as int;
    let g = c.g as int;
    let b = c.b as int;
    let top = max3(r, g, b);
    let delta = top - min3(r, g, b);
    if delta == 0 {
        (1, 0, 0, 1)
    } else if top == r {
        (delta, g - b, 0, delta)
    } else if top == g {
        if b < r {
            (r - b, delta, 0, delta)
        } else {
            (0, delta, b - r, delta)
        }
    } else {
        if r < g {
            (0, g - r, delta, delta)
        } else {
            (r - g, 0, delta, delta)
        }
    }
}

/// One channel of a colour whose saturation and value were both raised by
/// `amount` two-hundredths, as an exact fraction: numerator and denominator.
/// `share` in `whole` is the channel's place between darkest and brightest.
pub open spec fn varied_fraction(c: ParticleColor, amount: int, share: int, whole: int) -> (
    int,
    int,
) {
    let top = max3(c.r as int, c.g as int, c.b as int);
    let delta = top - min3(c.r as int, c.g as int, c.b as int);
    let value = 200 * top + 255 * amount;
    let sat_num = if top > 0 {
        200 * delta + amount * top
    } else {
        amount
    };
    let sat_den = if top > 0 {
        200 * top
    } else {
        200
    };
    (value * (whole * (sat_den - sat_num) + sat_num * share), 200 * sat_den * whole)
}

/// The integer part of a fraction with a positive denominator, held to the
/// range of a byte.
pub open spec fn saturate_fraction(f: (int, int)) -> u8 {
    if f.0 <= 0 {
        0
    } else {
        saturate(f.0 / f.1)
    }
}

/// The square of the distance of two colours, alpha left out.
pub open spec fn spec_distance(a: ParticleColor, b: ParticleColor) -> int {
    (a.r - b.r) * (a.r - b.r) + (a.g - b.g) * (a.g - b.g) + (a.b - b.b) * (a.b - b.b)
}

/// Whether `v` is the material whose base colour is nearest to `c`, and of
/// equally near ones the one with the lowest code.
pub open spec fn is_nearest(c: ParticleColor, v: Variant) -> bool {
    forall|n: u8|
        n < VARIANT_COUNT ==> {
            let u = #[trigger] Variant::spec_from_u8(n);
            &&& spec_distance(c, v.base_color()) <= spec_distance(c, u.base_color())
            &&& n < v.spec_code() ==> spec_distance(c, v.base_color()) < spec_distance(
                c,
                u.base_color(),
            )
        }
}

impl ParticleColor {
    /// This colour over `other`, weighted by the alpha of `other`, opaque.
    pub open spec fn spec_blend(self, other: ParticleColor) -> ParticleColor {
        ParticleColor {
            r: mix(self.r as int, other.r as int, other.a as int, 255) as u8,
            g: mix(self.g as int, other.g as int, other.a as int, 255) as u8,
            b: mix(self.b as int, other.b as int, other.a as int, 255) as u8,
            a: 255,
        }
    }

    /// This colour over yellow, weighted by its own alpha, opaque.
    pub open spec fn spec_fire_color(self) -> ParticleColor {
        ParticleColor {
            r: mix(self.r as int, 255, self.a as int, 255) as u8,
            g: mix(self.g as int, 255, self.a as int, 255) as u8,
            b: mix(self.b as int, 0, self.a as int, 255) as u8,
            a: 255,
        }
    }

    /// The colour darkened by a strength: each channel loses that many parts
    /// in 255.
    pub open spec fn darkened(self, strength: u8) -> ParticleColor {
        ParticleColor {
            r: mix(self.r as int, 0, 255 - strength, 255) as u8,
            g: mix(self.g as int, 0, 255 - strength, 255) as u8,
            b: mix(self.b as int, 0, 255 - strength, 255) as u8,
            a: self.a,
        }
    }

    /// The colour whitened by a temperature: white takes as many parts of
    /// each channel as the temperature has covered of the span from 20
    /// degrees on.
    pub open spec fn whitened(self, temperature: i32) -> ParticleColor {
        if temperature < WHITEN_FROM {
            self
        } else {
            let w = heat_share(temperature as int, WHITEN_FROM as int);
            ParticleColor {
                r: mix(255, self.r as int, w, HEAT_SPAN as int) as u8,
                g: mix(255, self.g as int, w, HEAT_SPAN as int) as u8,
                b: mix(255, self.b as int, w, HEAT_SPAN as int) as u8,
                a: self.a,
            }
        }
    }

    /// The colour glowing at a temperature: orange takes as many parts of
    /// each channel as the temperature has covered of the span from 1000
    /// degrees on.
    pub open spec fn molten(self, temperature: i32) -> ParticleColor {
        if temperature < MELT_FROM {
            self
        } else {
            let w = heat_share(temperature as int, MELT_FROM as int);
            ParticleColor {
                r: mix(255, self.r as int, w, HEAT_SPAN as int) as u8,
                g: mix(128, self.g as int, w, HEAT_SPAN as int) as u8,
                b: mix(0, self.b as int, w, HEAT_SPAN as int) as u8,
                a: 255,
            }
        }
    }

    /// The opposite of each channel, opaque.
    pub open spec fn spec_inverse(self) -> ParticleColor {
        ParticleColor {
            r: (255 - self.r) as u8,
            g: (255 - self.g) as u8,
            b: (255 - self.b) as u8,
            a: 255,
        }
    }

    /// Alpha, red, green and blue as the bytes of one number, alpha highest.
    pub open spec fn spec_to_u32(self) -> u32 {
        (self.a * 0x100_0000 + self.r * 0x1_0000 + self.g * 0x100 + self.b) as u32
    }

    /// The colour with saturation and value both raised by `amount`
    /// two-hundredths, the hue kept, and made opaque.
    pub open spec fn varied(self, amount: int) -> ParticleColor {
        let (kr, kg, kb, whole) = hue_shares(self);
        ParticleColor {
            r: saturate_fraction(varied_fraction(self, amount, kr, whole)),
            g: saturate_fraction(varied_fraction(self, amount, kg, whole)),
            b: saturate_fraction(varied_fraction(self, amount, kb, whole)),
            a: 255,
        }
    }

    /// The colour of four channels.
    pub fn from_rgba(color: (u8, u8, u8, u8)) -> (c: ParticleColor)
        ensures
            c == (ParticleColor { r: color.0, g: color.1, b: color.2, a: color.3 }),
    {
        ParticleColor { r: color.0, g: color.1, b: color.2, a: color.3 }
    }

    /// The four channels of the colour.
    pub fn to_rgba8(&self) -> (c: (u8, u8, u8, u8))
        ensures
            c == (self.r, self.g, self.b, self.a),
    {
        (self.r, self.g, self.b, self.a)
    }

    /// Red, green and blue of the colour.
    pub fn to_rgb8(&self) -> (c: (u8, u8, u8))
        ensures
            c == (self.r, self.g, self.b),
    {
        (self.r, self.g, self.b)
    }

    /// The colour as one number: alpha, red, green, blue, from the top byte
    /// down.
    pub fn to_u32(&self) -> (n: u32)
        ensures
            n == self.spec_to_u32(),
    {
        let a = self.a as u32;
        let r = self.r as u32;
        let g = self.g as u32;
        let b = self.b as u32;
        assert(a << 24 | r << 16 | g << 8 | b == a * 0x100_0000 + r * 0x1_0000 + g * 0x100 + b)
            by (bit_vector)
            requires
                a < 256,
                r < 256,
                g < 256,
                b < 256,
        ;
        a << 24 | r << 16 | g << 8 | b
    }

    /// This colour over `other`, weighted by the alpha of `other`.
    pub fn blend(&self, other: &ParticleColor) -> (c: ParticleColor)
        ensures
            c == self.spec_blend(*other),
    {
        ParticleColor {
            r: mix_bytes(self.r, other.r, other.a as u32, 255),
            g: mix_bytes(self.g, other.g, other.a as u32, 255),
            b: mix_bytes(self.b, other.b, other.a as u32, 255),
            a: 255,
        }
    }

    /// The opposite colour, opaque.
    pub fn inverse(&self) -> (c: ParticleColor)
        ensures
            c == self.spec_inverse(),
    {
        ParticleColor { r: 255 - self.r, g: 255 - self.g, b: 255 - self.b, a: 255 }
    }

    /// This colour over yellow, weighted by its own alpha.
    pub fn fire_color(&self) -> (c: ParticleColor)
        ensures
            c == self.spec_fire_color(),
    {
        ParticleColor {
            r: mix_bytes(self.r, 255, self.a as u32, 255),
            g: mix_bytes(self.g, 255, self.a as u32, 255),
            b: mix_bytes(self.b, 0, self.a as u32, 255),
            a: 255,
        }
    }

    /// Darkens the colour: a strength of 255 leaves black.
    pub fn darken_by_strength(&mut self, strength: u8)
        ensures
            *final(self) == old(self).darkened(strength),
    {
        self.r = mix_bytes(self.r, 0, (255 - strength) as u32, 255);
        self.g = mix_bytes(self.g, 0, (255 - strength) as u32, 255);
        self.b = mix_bytes(self.b, 0, (255 - strength) as u32, 255);
    }

    /// Whitens the colour with the temperature: not at all below 20 degrees,
    /// fully from 1020 degrees on.
    pub fn whiten(&mut self, temperature: i32)
        ensures
            *final(self) == old(self).whitened(temperature),
    {
        if temperature < WHITEN_FROM {
            return ;
        }
        let over: i64 = temperature as i64 - WHITEN_FROM as i64;
        let w: u32 = if over > HEAT_SPAN as i64 {
            HEAT_SPAN as u32
        } else {
            over as u32
        };
        self.r = mix_bytes(255, self.r, w, HEAT_SPAN as u32);
        self.g = mix_bytes(255, self.g, w, HEAT_SPAN as u32);
        self.b = mix_bytes(255, self.b, w, HEAT_SPAN as u32);
    }

    /// The colour glowing orange with the temperature: not at all below
    /// 1000 degrees, fully from 2000 degrees on.
    pub fn melting(&mut self, temperature: i32) -> (c: ParticleColor)
        ensures
            c == old(self).molten(temperature),
            *final(self) == *old(self),
    {
        if temperature < MELT_FROM {
            return *self;
        }
        let over: i64 = temperature as i64 - MELT_FROM as i64;
        let w: u32 = if over > HEAT_SPAN as i64 {
            HEAT_SPAN as u32
        } else {
            over as u32
        };
        ParticleColor {
            r: mix_bytes(255, self.r, w, HEAT_SPAN as u32),
            g: mix_bytes(128, self.g, w, HEAT_SPAN as u32),
            b: mix_bytes(0, self.b, w, HEAT_SPAN as u32),
            a: 255,
        }
    }

    /// The square of the distance to another colour.
    pub fn distance(&self, other: &ParticleColor) -> (d: u32)
        ensures
            d == spec_distance(*self, *other),
            d <= 3 * 255 * 255,
    {
        let dr: i32 = self.r as i32 - other.r as i32;
        let dg: i32 = self.g as i32 - other.g as i32;
        let db: i32 = self.b as i32 - other.b as i32;
        assert(0 <= dr * dr <= 255 * 255) by (nonlinear_arith)
            requires
                -255 <= dr <= 255,
        ;
        assert(0 <= dg * dg <= 255 * 255) by (nonlinear_arith)
            requires
                -255 <= dg <= 255,
        ;
        assert(0 <= db * db <= 255 * 255) by (nonlinear_arith)
            requires
                -255 <= db <= 255,
        ;
        (dr * dr + dg * dg + db * db) as u32
    }
}

/// `a` and `b` mixed, `a` with `weight` parts in `whole`.
pub fn mix_bytes(a: u8, b: u8, weight: u32, whole: u32) -> (m: u8)
    requires
        0 < whole,
        weight <= whole,
    ensures
        m == mix(a as int, b as int, weight as int, whole as int),
{
    let rest: u64 = (whole - weight) as u64;
    assert(a * weight <= 255 * weight) by (nonlinear_arith)
        requires
            a <= 255,
            weight >= 0,
    ;
    assert(b * rest <= 255 * rest) by (nonlinear_arith)
        requires
            b <= 255,
            rest >= 0,
    ;
    let sum: u64 = a as u64 * weight as u64 + b as u64 * rest;
    assert(sum <= 255 * whole);
    assert(sum / (whole as u64) <= 255) by (nonlinear_arith)
        requires
            sum <= 255 * whole,
            whole > 0,
    ;
    (sum / whole as u64) as u8
}

/// One channel of the colour between two: `a` with `factor` parts in `max`
/// and `b` with the rest, held to the range of a byte. Where `max` is zero
/// there are no parts to take, and the channel is zero.
pub open spec fn interpolated(a: u8, b: u8, factor: u8, max: u8) -> u8 {
    if max == 0 {
        0
    } else {
        saturate(mix(a as int, b as int, factor as int, max as int))
    }
}

/// The colour between two: `color_1` with `factor` parts in `max`, `color_2`
/// with the rest.
pub fn interpolate(color_1: &(u8, u8, u8), color_2: &(u8, u8, u8), factor: u8, max: u8) -> (c: (
    u8,
    u8,
    u8,
))
    ensures
        c.0 == interpolated(color_1.0, color_2.0, factor, max),
        c.1 == interpolated(color_1.1, color_2.1, factor, max),
        c.2 == interpolated(color_1.2, color_2.2, factor, max),
{
    (
        mix_saturating(color_1.0, color_2.0, factor, max),
        mix_saturating(color_1.1, color_2.1, factor, max),
        mix_saturating(color_1.2, color_2.2, factor, max),
    )
}

fn mix_saturating(a: u8, b: u8, factor: u8, max: u8) -> (m: u8)
    ensures
        m == interpolated(a, b, factor, max),
{
    if max == 0 {
        return 0;
    }
    let rest: i32 = max as i32 - factor as i32;
    assert(0 <= a * factor <= 255 * 255) by (nonlinear_arith)
        requires
            0 <= a <= 255,
            0 <= factor <= 255,
    ;
    assert(-255 * 255 <= b * rest <= 255 * 255) by (nonlinear_arith)
        requires
            0 <= b <= 255,
            -255 <= rest <= 255,
    ;
    let sum: i32 = a as i32 * factor as i32 + b as i32 * rest;
    if sum <= 0 {
        assert((sum as int) / (max as int) <= 0) by (nonlinear_arith)
            requires
                sum <= 0,
                max > 0,
        ;
        0
    } else {
        let q = sum / max as i32;
        if q >= 255 {
            255
        } else {
            q as u8
        }
    }
}

/// The largest size of the value and of the saturation's numerator in
/// `varied_fraction`, for any amount that fits 32 bits.
pub const VARY_BOUND: i128 = 600_000_000_000;

/// The integer part of the fraction `num` by `den`, held to the range of a
/// byte.
fn saturating_quotient(num: i128, den: i128) -> (q: u8)
    requires
        den > 0,
    ensures
        q == saturate_fraction((num as int, den as int)),
{
    if num <= 0 {
        0
    } else {
        let q = num / den;
        if q >= 255 {
            255
        } else {
            q as u8
        }
    }
}

impl ParticleColor {
    /// Raises saturation and value by `amount` two-hundredths each.
    pub fn vary_color(&mut self, amount: i32) -> (c: ParticleColor)
        ensures
            c == old(self).varied(amount as int),
            *final(self) == *old(self),
    {
        let r = self.r as i128;
        let g = self.g as i128;
        let b = self.b as i128;
        let a = amount as i128;
        let top: i128 = if r >= g && r >= b {
            r
        } else if g >= b {
            g
        } else {
            b
        };
        let low: i128 = if r <= g && r <= b {
            r
        } else if g <= b {
            g
        } else {
            b
        };
        let delta = top - low;
        let (kr, kg, kb, whole): (i128, i128, i128, i128) = if delta == 0 {
            (1, 0, 0, 1)
        } else if top == r {
            (delta, g - b, 0, delta)
        } else if top == g {
            if b < r {
                (r - b, delta, 0, delta)
            } else {
                (0, delta, b - r, delta)
            }
        } else {
            if r < g {
                (0, g - r, delta, delta)
            } else {
                (r - g, 0, delta, delta)
            }
        };
        let value: i128 = 200 * top + 255 * a;
        assert(-547_608_330_240 <= a * top <= 547_608_330_240) by (nonlinear_arith)
            requires
                -0x8000_0000 <= a <= 0x7fff_ffff,
                0 <= top <= 255,
        ;
        let sat_num: i128 = if top > 0 {
            200 * delta + a * top
        } else {
            a
        };
        let sat_den: i128 = if top > 0 {
            200 * top
        } else {
            200
        };
        assert(0 < sat_den * whole <= 51_000 * 255) by (nonlinear_arith)
            requires
                200 <= sat_den <= 51_000,
                1 <= whole <= 255,
        ;
        assert(200 * sat_den * whole == 200 * (sat_den * whole)) by (nonlinear_arith);
        let den: i128 = 200 * (sat_den * whole);
        ParticleColor {
            r: vary_channel(value, sat_num, sat_den, kr, whole, den),
            g: vary_channel(value, sat_num, sat_den, kg, whole, den),
            b: vary_channel(value, sat_num, sat_den, kb, whole, den),
            a: 255,
        }
    }
}

/// One channel of a varied colour, from the parts of its fraction.
fn vary_channel(value: i128, sat_num: i128, sat_den: i128, share: i128, whole: i128, den: i128)
    -> (q: u8)
    requires
        -VARY_BOUND <= value <= VARY_BOUND,
        -VARY_BOUND <= sat_num <= VARY_BOUND,
        200 <= sat_den <= 51_000,
        -255 <= share <= 255,
        1 <= whole <= 255,
        den > 0,
    ensures
        q == saturate_fraction(
            (value * (whole * (sat_den - sat_num) + sat_num * share), den as int),
        ),
{
    let gap: i128 = sat_den - sat_num;
    assert(-255 * (VARY_BOUND + 51_000) <= whole * gap <= 255 * (VARY_BOUND + 51_000))
        by (nonlinear_arith)
        requires
            1 <= whole <= 255,
            -(VARY_BOUND + 51_000) <= gap <= VARY_BOUND + 51_000,
    ;
    assert(-255 * VARY_BOUND <= sat_num * share <= 255 * VARY_BOUND) by (nonlinear_arith)
        requires
            -255 <= share <= 255,
            -VARY_BOUND <= sat_num <= VARY_BOUND,
    ;
    let inner: i128 = whole * gap + sat_num * share;
    assert(-183_960_000_000_000_000_000_000_000 <= value * inner
        <= 183_960_000_000_000_000_000_000_000) by (nonlinear_arith)
        requires
            -600_000_000_000 <= value <= 600_000_000_000,
            -306_600_000_000_000 <= inner <= 306_600_000_000_000,
    ;
    saturating_quotient(value * inner, den)
}

/// The material whose base colour is nearest to a colour.
pub fn nearest_variant(color: ParticleColor) -> (v: Variant)
    ensures
        is_nearest(color, v),
{
    let mut best = Variant::Empty;
    let mut best_distance = color.distance(&get_color(Variant::Empty));
    let mut n: u8 = 1;
    while n < 18
        invariant
            1 <= n <= 18,
            best.spec_code() < n,
            best_distance == spec_distance(color, best.base_color()),
            forall|k: u8|
                k < n ==> {
                    let u = #[trigger] Variant::spec_from_u8(k);
                    &&& best_distance <= spec_distance(color, u.base_color())
                    &&& k < best.spec_code() ==> best_distance < spec_distance(
                        color,
                        u.base_color(),
                    )
                },
        decreases 18 - n,
    {
        let candidate = Variant::from_u8(n);
        let d = color.distance(&get_color(candidate));
        proof {
            crate::variant::lemma_from_u8_total(n);
        }
        if d < best_distance {
            best = candidate;
            best_distance = d;
        }
        n = n + 1;
    }
    best
}

impl Particle {
    /// The colour that the particle shows: the base colour of its material;
    /// whitened by heat and varied by grain for sand, water, iron and glass;
    /// varied by grain for fire; darkened by strength for smoke.
    pub open spec fn color(self) -> ParticleColor {
        let base = self.variant.base_color();
        match self.variant {
            Variant::Sand | Variant::Water | Variant::IRON | Variant::Glass => base.whitened(
                self.temperature,
            ).varied(self.ra as int),
            Variant::Fire => base.varied(self.ra as int),
            Variant::Smoke => base.darkened(self.strength),
            _ => base,
        }
    }

    /// The red, green and blue that a picture of the grid holds for the
    /// particle.
    pub fn save(&self) -> (rgb: (u8, u8, u8))
        ensures
            rgb == (self.color().r, self.color().g, self.color().b),
    {
        let color = particle_to_color(*self);
        (color.r, color.g, color.b)
    }
}

/// The colour that a particle shows.
pub fn particle_to_color(particle: Particle) -> (c: ParticleColor)
    ensures
        c == particle.color(),
{
    let mut color = get_color(particle.get_variant());
    match particle.get_variant() {
        Variant::Sand | Variant::Water | Variant::IRON | Variant::Glass => {
            color.whiten(particle.temperature);
            color.vary_color(particle.ra as i32)
        },
        Variant::Fire => color.vary_color(particle.ra as i32),
        Variant::Smoke => {
            color.darken_by_strength(particle.strength);
            color
        },
        _ => color,
    }
}

/// The particle that a pixel of a picture stands for: an untouched particle
/// of the material with the nearest base colour.
pub fn color_to_particle(color: (u8, u8, u8)) -> (p: Particle)
    ensures
        is_nearest((ParticleColor { r: color.0, g: color.1, b: color.2, a: 255 }), p.variant),
        p == (Particle { variant: p.variant, ..Particle::spec_empty() }),
{
    let mut particle = Particle::empty();
    particle.variant = nearest_variant(ParticleColor::from_rgba((color.0, color.1, color.2, 255)));
    particle
}

} // verus!
