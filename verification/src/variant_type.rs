//! The catalogue: one descriptor per material, and the colour type.

use vstd::prelude::*;
use crate::variant::Variant;

verus! {

/// The coarse physical class that selects how a material moves.
#[derive(Clone, Copy, Debug, PartialEq, Eq, Structural)]
pub enum VariantProperty {
    Solid,
    Powder,
    Liquid,
    Gas,
}

/// The material burns.
pub const FLAG_BURNS: u8 = 0b00000001;

/// The material explodes.
pub const FLAG_EXPLOSIVE: u8 = 0b00000010;

/// The material never moves and never reacts.
pub const FLAG_IMMUTABLE: u8 = 0b00000100;

/// The material sets others on fire.
pub const FLAG_IGNITES: u8 = 0b00001000;

/// The material lives.
pub const FLAG_ALIVE: u8 = 0b00100000;

/// An RGBA colour, one byte per channel.
#[derive(Clone, Copy, Debug, PartialEq, Eq, Structural)]
pub struct ParticleColor {
    pub r: u8,
    pub g: u8,
    pub b: u8,
    pub a: u8,
}

/// What is fixed about a material.
#[derive(Clone, Copy, Debug)]
pub struct VariantType {
    /// Relative density: the heavier of two materials sinks.
    pub weight: u8,
    pub color: ParticleColor,
    /// How often a particle withstands dissolving before it turns.
    pub strength: u8,
    pub source_variant: Variant,
    /// The temperature a particle relaxes towards, in thousandths of a degree.
    pub base_temperature: i32,
    pub variant_property: VariantProperty,
    pub flags: u8,
    pub name: &'static str,
}

/// Room temperature, in thousandths of a degree Celsius.
pub const ROOM_TEMPERATURE: i32 = 22_000;

/// The base temperature of fire.
pub const FIRE_TEMPERATURE: i32 = 422_000;

impl Variant {
    /// The relative density of the material.
    pub open spec fn weight(self) -> u8 {
        match self {
            Variant::Wall => 255,
            Variant::Sand => 64,
            Variant::Water => 32,
            Variant::Fire => 64,
            Variant::Smoke => 1,
            Variant::Salt => 1,
            Variant::SaltWater => 38,
            _ => 0,
        }
    }

    /// The strength that a particle has when it has just turned into the
    /// material.
    pub open spec fn base_strength(self) -> u8 {
        match self {
            Variant::Fire => 16,
            Variant::Smoke => 64,
            Variant::GOL => 16,
            _ => 0,
        }
    }

    /// The physical class of the material.
    pub open spec fn property(self) -> VariantProperty {
        match self {
            Variant::Sand | Variant::Salt | Variant::CARB => VariantProperty::Powder,
            Variant::Water | Variant::SaltWater => VariantProperty::Liquid,
            Variant::Fire
            | Variant::Smoke
            | Variant::OXGN
            | Variant::HYGN
            | Variant::HELM
            | Variant::NITR
            | Variant::CO2
            | Variant::WTVP => VariantProperty::Gas,
            _ => VariantProperty::Solid,
        }
    }

    /// The flags of the material.
    pub open spec fn flags(self) -> u8 {
        match self {
            Variant::Wall => FLAG_IMMUTABLE,
            Variant::Fire => FLAG_BURNS,
            Variant::OXGN | Variant::HYGN => 0b00001001,
            _ => 0,
        }
    }

    /// The temperature that particles of the material relax towards.
    pub open spec fn base_temperature(self) -> i32 {
        match self {
            Variant::Fire => FIRE_TEMPERATURE,
            _ => ROOM_TEMPERATURE,
        }
    }

    /// The colour of the material.
    pub open spec fn base_color(self) -> ParticleColor {
        match self {
            Variant::Empty => ParticleColor { r: 0, g: 0, b: 0, a: 0 },
            Variant::Wall => ParticleColor { r: 128, g: 128, b: 128, a: 255 },
            Variant::Sand => ParticleColor { r: 215, g: 172, b: 86, a: 255 },
            Variant::Water => ParticleColor { r: 0, g: 0, b: 255, a: 255 },
            Variant::Fire => ParticleColor { r: 255, g: 0, b: 0, a: 255 },
            Variant::Smoke => ParticleColor { r: 128, g: 128, b: 128, a: 128 },
            Variant::Salt => ParticleColor { r: 255, g: 255, b: 255, a: 255 },
            Variant::SaltWater => ParticleColor { r: 50, g: 164, b: 168, a: 255 },
            Variant::OXGN => ParticleColor { r: 255, g: 0, b: 0, a: 255 },
            Variant::HYGN => ParticleColor { r: 0, g: 255, b: 0, a: 255 },
            Variant::HELM => ParticleColor { r: 255, g: 255, b: 0, a: 255 },
            Variant::CARB => ParticleColor { r: 10, g: 10, b: 20, a: 255 },
            Variant::NITR => ParticleColor { r: 0, g: 0, b: 255, a: 255 },
            Variant::IRON => ParticleColor { r: 128, g: 128, b: 128, a: 255 },
            Variant::CO2 => ParticleColor { r: 0, g: 255, b: 255, a: 255 },
            Variant::WTVP => ParticleColor { r: 255, g: 255, b: 255, a: 255 },
            Variant::GOL => ParticleColor { r: 255, g: 255, b: 255, a: 255 },
            Variant::Glass => ParticleColor { r: 190, g: 225, b: 235, a: 255 },
        }
    }

    /// The name of the material.
    pub open spec fn long_name(self) -> Seq<char> {
        match self {
            Variant::Empty => "Empty"@,
            Variant::Wall => "Wall"@,
            Variant::Sand => "Sand"@,
            Variant::Water => "Water"@,
            Variant::Fire => "Fire"@,
            Variant::Smoke => "Smoke"@,
            Variant::Salt => "Salt"@,
            Variant::SaltWater => "SaltWater"@,
            Variant::OXGN => "OXGN"@,
            Variant::HYGN => "HYGN"@,
            Variant::HELM => "HELM"@,
            Variant::CARB => "CARB"@,
            Variant::NITR => "NITR"@,
            Variant::IRON => "IRON"@,
            Variant::CO2 => "CO2"@,
            Variant::WTVP => "WTVP"@,
            Variant::GOL => "GOL"@,
            Variant::Glass => "GLASS"@,
        }
    }

    /// Whether the material never moves, never reacts and is never displaced.
    pub open spec fn immutable(self) -> bool {
        self == Variant::Wall
    }
}

impl VariantType {
    /// Whether this is the catalogue's descriptor of `variant`.
    pub open spec fn describes(self, variant: Variant) -> bool {
        &&& self.weight == variant.weight()
        &&& self.color == variant.base_color()
        &&& self.strength == variant.base_strength()
        &&& self.source_variant == variant
        &&& self.base_temperature == variant.base_temperature()
        &&& self.variant_property == variant.property()
        &&& self.flags == variant.flags()
        &&& self.name@ == variant.long_name()
    }

    /// Whether the descriptor has one of the given flags.
    pub open spec fn spec_has_flag(self, flag: u8) -> bool {
        self.flags & flag != 0
    }

    /// Whether the descriptor has one of the given flags.
    pub fn has_flag(&self, flag: u8) -> (r: bool)
        ensures
            r == self.spec_has_flag(flag),
    {
        self.flags & flag != 0
    }

    /// The one descriptor of a material.
    pub fn from_variant(variant: Variant) -> (t: VariantType)
        ensures
            t.describes(variant),
    {
        assert(FLAG_BURNS | FLAG_IGNITES == 0b00001001u8) by (bit_vector);
        match variant {
            Variant::Empty => VariantType {
                weight: 0,
                strength: 0,
                color: ParticleColor { r: 0, g: 0, b: 0, a: 0 },
                source_variant: Variant::Empty,
                variant_property: VariantProperty::Solid,
                flags: 0,
                base_temperature: ROOM_TEMPERATURE,
                name: "Empty",
            },
            Variant::Wall => VariantType {
                weight: 255,
                strength: 0,
                color: ParticleColor { r: 128, g: 128, b: 128, a: 255 },
                source_variant: Variant::Wall,
                variant_property: VariantProperty::Solid,
                flags: FLAG_IMMUTABLE,
                base_temperature: ROOM_TEMPERATURE,
                name: "Wall",
            },
            Variant::Sand => VariantType {
                weight: 64,
                strength: 0,
                color: ParticleColor { r: 215, g: 172, b: 86, a: 255 },
                source_variant: Variant::Sand,
                variant_property: VariantProperty::Powder,
                flags: 0,
                base_temperature: ROOM_TEMPERATURE,
                name: "Sand",
            },
            Variant::Water => VariantType {
                weight: 32,
                strength: 0,
                color: ParticleColor { r: 0, g: 0, b: 255, a: 255 },
                source_variant: Variant::Water,
                variant_property: VariantProperty::Liquid,
                flags: 0,
                base_temperature: ROOM_TEMPERATURE,
                name: "Water",
            },
            Variant::Fire => VariantType {
                weight: 64,
                strength: 16,
                color: ParticleColor { r: 255, g: 0, b: 0, a: 255 },
                source_variant: Variant::Fire,
                variant_property: VariantProperty::Gas,
                flags: FLAG_BURNS,
                base_temperature: FIRE_TEMPERATURE,
                name: "Fire",
            },
            Variant::Smoke => VariantType {
                weight: 1,
                strength: 64,
                color: ParticleColor { r: 128, g: 128, b: 128, a: 128 },
                source_variant: Variant::Smoke,
                variant_property: VariantProperty::Gas,
                flags: 0,
                base_temperature: ROOM_TEMPERATURE,
                name: "Smoke",
            },
            Variant::Salt => VariantType {
                weight: 1,
                strength: 0,
                color: ParticleColor { r: 255, g: 255, b: 255, a: 255 },
                source_variant: Variant::Salt,
                variant_property: VariantProperty::Powder,
                flags: 0,
                base_temperature: ROOM_TEMPERATURE,
                name: "Salt",
            },
            Variant::SaltWater => VariantType {
                weight: 38,
                strength: 0,
                color: ParticleColor { r: 50, g: 164, b: 168, a: 255 },
                source_variant: Variant::SaltWater,
                variant_property: VariantProperty::Liquid,
                flags: 0,
                base_temperature: ROOM_TEMPERATURE,
                name: "SaltWater",
            },
            Variant::OXGN => VariantType {
                weight: 0,
                strength: 0,
                color: ParticleColor { r: 255, g: 0, b: 0, a: 255 },
                source_variant: Variant::OXGN,
                variant_property: VariantProperty::Gas,
                flags: FLAG_BURNS | FLAG_IGNITES,
                base_temperature: ROOM_TEMPERATURE,
                name: "OXGN",
            },
            Variant::HYGN => VariantType {
                weight: 0,
                strength: 0,
                color: ParticleColor { r: 0, g: 255, b: 0, a: 255 },
                source_variant: Variant::HYGN,
                variant_property: VariantProperty::Gas,
                flags: FLAG_BURNS | FLAG_IGNITES,
                base_temperature: ROOM_TEMPERATURE,
                name: "HYGN",
            },
            Variant::HELM => VariantType {
                weight: 0,
                strength: 0,
                color: ParticleColor { r: 255, g: 255, b: 0, a: 255 },
                source_variant: Variant::HELM,
                variant_property: VariantProperty::Gas,
                flags: 0,
                base_temperature: ROOM_TEMPERATURE,
                name: "HELM",
            },
            Variant::CARB => VariantType {
                weight: 0,
                strength: 0,
                color: ParticleColor { r: 10, g: 10, b: 20, a: 255 },
                source_variant: Variant::CARB,
                variant_property: VariantProperty::Powder,
                flags: 0,
                base_temperature: ROOM_TEMPERATURE,
                name: "CARB",
            },
            Variant::NITR => VariantType {
                weight: 0,
                strength: 0,
                color: ParticleColor { r: 0, g: 0, b: 255, a: 255 },
                source_variant: Variant::NITR,
                variant_property: VariantProperty::Gas,
                flags: 0,
                base_temperature: ROOM_TEMPERATURE,
                name: "NITR",
            },
            Variant::IRON => VariantType {
                weight: 0,
                strength: 0,
                color: ParticleColor { r: 128, g: 128, b: 128, a: 255 },
                source_variant: Variant::IRON,
                variant_property: VariantProperty::Solid,
                flags: 0,
                base_temperature: ROOM_TEMPERATURE,
                name: "IRON",
            },
            Variant::CO2 => VariantType {
                weight: 0,
                strength: 0,
                color: ParticleColor { r: 0, g: 255, b: 255, a: 255 },
                source_variant: Variant::CO2,
                variant_property: VariantProperty::Gas,
                flags: 0,
                base_temperature: ROOM_TEMPERATURE,
                name: "CO2",
            },
            Variant::WTVP => VariantType {
                weight: 0,
                strength: 0,
                color: ParticleColor { r: 255, g: 255, b: 255, a: 255 },
                source_variant: Variant::WTVP,
                variant_property: VariantProperty::Gas,
                flags: 0,
                base_temperature: ROOM_TEMPERATURE,
                name: "WTVP",
            },
            Variant::GOL => VariantType {
                weight: 0,
                strength: 16,
                color: ParticleColor { r: 255, g: 255, b: 255, a: 255 },
                source_variant: Variant::GOL,
                variant_property: VariantProperty::Solid,
                flags: 0,
                base_temperature: ROOM_TEMPERATURE,
                name: "GOL",
            },
            Variant::Glass => VariantType {
                weight: 0,
                strength: 0,
                color: ParticleColor { r: 190, g: 225, b: 235, a: 255 },
                source_variant: Variant::Glass,
                variant_property: VariantProperty::Solid,
                flags: 0,
                base_temperature: ROOM_TEMPERATURE,
                name: "GLASS",
            },
        }
    }
}

/// The colour getter of the catalogue.
pub fn get_color(variant: Variant) -> (c: ParticleColor)
    ensures
        c == variant.base_color(),
{
    VariantType::from_variant(variant).color
}

/// The base colour of a descriptor, channel by channel.
pub fn particle_to_color(variant_type: VariantType) -> (c: (u8, u8, u8, u8))
    ensures
        c == (
            variant_type.color.r,
            variant_type.color.g,
            variant_type.color.b,
            variant_type.color.a,
        ),
{
    (variant_type.color.r, variant_type.color.g, variant_type.color.b, variant_type.color.a)
}

/// Only walls carry the immutable flag.
pub proof fn lemma_immutable_flag(v: Variant)
    ensures
        (v.flags() & FLAG_IMMUTABLE != 0) <==> v.immutable(),
{
    assert(0b00000100u8 & 0b00000100u8 != 0) by (bit_vector);
    assert(0b00000001u8 & 0b00000100u8 == 0) by (bit_vector);
    assert(0b00001001u8 & 0b00000100u8 == 0) by (bit_vector);
    assert(0u8 & 0b00000100u8 == 0) by (bit_vector);
}

} // verus!
