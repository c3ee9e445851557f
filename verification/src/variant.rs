//! The materials and their stable codes.

use vstd::prelude::*;

verus! {

/// A material. Each has a code that snapshots store, so the codes never
/// change; the materials stand in the order of their codes.
#[derive(Clone, Copy, Debug, PartialEq, Eq, Structural)]
pub enum Variant {
    Empty,
    Wall,
    Sand,
    Water,
    Fire,
    Smoke,
    Salt,
    SaltWater,
    OXGN,
    HYGN,
    HELM,
    CARB,
    NITR,
    IRON,
    CO2,
    WTVP,
    GOL,
    Glass,
}

/// Number of materials, and one more than the largest code.
pub const VARIANT_COUNT: usize = 18;

impl Variant {
    /// The code of a material.
    pub open spec fn spec_code(self) -> u8 {
        match self {
            Variant::Empty => 0,
            Variant::Wall => 1,
            Variant::Sand => 2,
            Variant::Water => 3,
            Variant::Fire => 4,
            Variant::Smoke => 5,
            Variant::Salt => 6,
            Variant::SaltWater => 7,
            Variant::OXGN => 8,
            Variant::HYGN => 9,
            Variant::HELM => 10,
            Variant::CARB => 11,
            Variant::NITR => 12,
            Variant::IRON => 13,
            Variant::CO2 => 14,
            Variant::WTVP => 15,
            Variant::GOL => 16,
            Variant::Glass => 17,
        }
    }

    /// The material of a code; a code that names none stands for `Empty`.
    pub open spec fn spec_from_u8(n: u8) -> Variant {
        if n == 1 {
            Variant::Wall
        } else if n == 2 {
            Variant::Sand
        } else if n == 3 {
            Variant::Water
        } else if n == 4 {
            Variant::Fire
        } else if n == 5 {
            Variant::Smoke
        } else if n == 6 {
            Variant::Salt
        } else if n == 7 {
            Variant::SaltWater
        } else if n == 8 {
            Variant::OXGN
        } else if n == 9 {
            Variant::HYGN
        } else if n == 10 {
            Variant::HELM
        } else if n == 11 {
            Variant::CARB
        } else if n == 12 {
            Variant::NITR
        } else if n == 13 {
            Variant::IRON
        } else if n == 14 {
            Variant::CO2
        } else if n == 15 {
            Variant::WTVP
        } else if n == 16 {
            Variant::GOL
        } else if n == 17 {
            Variant::Glass
        } else {
            Variant::Empty
        }
    }

    /// The short display label of a material.
    pub open spec fn spec_name(self) -> Seq<char> {
        match self {
            Variant::Empty => "EMPT"@,
            Variant::Wall => "WALL"@,
            Variant::Sand => "SAND"@,
            Variant::Water => "WATR"@,
            Variant::Fire => "FIRE"@,
            Variant::Smoke => "SMOK"@,
            Variant::Salt => "SALT"@,
            Variant::SaltWater => "SWTR"@,
            Variant::CARB => "CRBN"@,
            Variant::IRON => "IRON"@,
            Variant::OXGN => "OXYG"@,
            Variant::HYGN => "HYDR"@,
            Variant::HELM => "HELM"@,
            Variant::NITR => "NITR"@,
            Variant::CO2 => "CO2"@,
            Variant::WTVP => "STM"@,
            Variant::GOL => "GOL"@,
            Variant::Glass => "GLAS"@,
        }
    }

    /// The code of the material.
    pub fn code(&self) -> (c: u8)
        ensures
            c == self.spec_code(),
            c < VARIANT_COUNT,
    {
        match self {
            Variant::Empty => 0,
            Variant::Wall => 1,
            Variant::Sand => 2,
            Variant::Water => 3,
            Variant::Fire => 4,
            Variant::Smoke => 5,
            Variant::Salt => 6,
            Variant::SaltWater => 7,
            Variant::OXGN => 8,
            Variant::HYGN => 9,
            Variant::HELM => 10,
            Variant::CARB => 11,
            Variant::NITR => 12,
            Variant::IRON => 13,
            Variant::CO2 => 14,
            Variant::WTVP => 15,
            Variant::GOL => 16,
            Variant::Glass => 17,
        }
    }

    /// The material of a code.
    pub fn from_u8(n: u8) -> (v: Variant)
        ensures
            v == Self::spec_from_u8(n),
    {
        match n {
            1 => Variant::Wall,
            2 => Variant::Sand,
            3 => Variant::Water,
            4 => Variant::Fire,
            5 => Variant::Smoke,
            6 => Variant::Salt,
            7 => Variant::SaltWater,
            8 => Variant::OXGN,
            9 => Variant::HYGN,
            10 => Variant::HELM,
            11 => Variant::CARB,
            12 => Variant::NITR,
            13 => Variant::IRON,
            14 => Variant::CO2,
            15 => Variant::WTVP,
            16 => Variant::GOL,
            17 => Variant::Glass,
            _ => Variant::Empty,
        }
    }

    /// Whether this is the empty material.
    pub fn is_empty(&self) -> (r: bool)
        ensures
            r == (*self == Variant::Empty),
    {
        match self {
            Variant::Empty => true,
            _ => false,
        }
    }

    /// The short display label.
    pub fn get_name(&self) -> (name: &'static str)
        ensures
            name@ == self.spec_name(),
    {
        match self {
            Variant::Empty => "EMPT",
            Variant::Wall => "WALL",
            Variant::Sand => "SAND",
            Variant::Water => "WATR",
            Variant::Fire => "FIRE",
            Variant::Smoke => "SMOK",
            Variant::Salt => "SALT",
            Variant::SaltWater => "SWTR",
            Variant::CARB => "CRBN",
            Variant::IRON => "IRON",
            Variant::OXGN => "OXYG",
            Variant::HYGN => "HYDR",
            Variant::HELM => "HELM",
            Variant::NITR => "NITR",
            Variant::CO2 => "CO2",
            Variant::WTVP => "STM",
            Variant::GOL => "GOL",
            Variant::Glass => "GLAS",
        }
    }
}

/// Reading back the code of a material gives that material: the codes are
/// distinct, and a snapshot names every material exactly.
pub proof fn lemma_code_round_trip(v: Variant)
    ensures
        Variant::spec_from_u8(v.spec_code()) == v,
        v.spec_code() < VARIANT_COUNT,
{
}

/// A code beyond the catalogue reads as `Empty`, and every code below the
/// count is the code of the material it reads as.
pub proof fn lemma_from_u8_total(n: u8)
    ensures
        n >= VARIANT_COUNT ==> Variant::spec_from_u8(n) == Variant::Empty,
        n < VARIANT_COUNT ==> Variant::spec_from_u8(n).spec_code() == n,
{
}

} // verus!
