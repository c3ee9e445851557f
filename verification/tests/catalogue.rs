use silica_engine::variant::{Variant, VARIANT_COUNT};
use silica_engine::variant_type::{
    get_color, particle_to_color, ParticleColor, VariantProperty, VariantType, FLAG_ALIVE,
    FLAG_BURNS, FLAG_EXPLOSIVE, FLAG_IGNITES, FLAG_IMMUTABLE,
};

const ALL: [Variant; 18] = [
    Variant::Empty,
    Variant::Wall,
    Variant::Sand,
    Variant::Water,
    Variant::Fire,
    Variant::Smoke,
    Variant::Salt,
    Variant::SaltWater,
    Variant::OXGN,
    Variant::HYGN,
    Variant::HELM,
    Variant::CARB,
    Variant::NITR,
    Variant::IRON,
    Variant::CO2,
    Variant::WTVP,
    Variant::GOL,
    Variant::Glass,
];

#[test]
fn codes_are_stable() {
    for (code, v) in ALL.iter().enumerate() {
        assert_eq!(v.code() as usize, code);
        assert_eq!(Variant::from_u8(code as u8), *v);
    }
    assert_eq!(VARIANT_COUNT, 18);
    assert_eq!(Variant::Glass.code(), 17);
    assert_eq!(Variant::Glass as u8, 17);
    assert_eq!(Variant::Water as u8, 3);
    for v in ALL {
        assert_eq!(v as u8, v.code());
    }
    assert_eq!(Variant::GOL.code(), 16);
}

#[test]
fn unknown_codes_read_as_empty() {
    for n in 18..=255u8 {
        assert_eq!(Variant::from_u8(n), Variant::Empty);
    }
}

#[test]
fn only_empty_is_empty() {
    for v in ALL {
        assert_eq!(v.is_empty(), v == Variant::Empty);
    }
}

#[test]
fn short_names() {
    let names: Vec<&str> = ALL.iter().map(|v| v.get_name()).collect();
    assert_eq!(
        names,
        vec![
            "EMPT", "WALL", "SAND", "WATR", "FIRE", "SMOK", "SALT", "SWTR", "OXYG", "HYDR", "HELM",
            "CRBN", "NITR", "IRON", "CO2", "STM", "GOL", "GLAS"
        ]
    );
}

#[test]
fn one_descriptor_for_each_material() {
    for v in ALL {
        let t = VariantType::from_variant(v);
        assert_eq!(t.source_variant, v);
        assert_eq!(get_color(v), t.color);
        assert_eq!(
            particle_to_color(t),
            (t.color.r, t.color.g, t.color.b, t.color.a)
        );
    }
}

#[test]
fn descriptors_hold_the_catalogue() {
    let sand = VariantType::from_variant(Variant::Sand);
    assert_eq!(sand.weight, 64);
    assert_eq!(sand.strength, 0);
    assert_eq!(sand.variant_property, VariantProperty::Powder);
    assert_eq!(sand.base_temperature, 22_000);
    assert_eq!(sand.name, "Sand");
    assert_eq!(
        sand.color,
        ParticleColor {
            r: 215,
            g: 172,
            b: 86,
            a: 255
        }
    );
    let fire = VariantType::from_variant(Variant::Fire);
    assert_eq!(fire.weight, 64);
    assert_eq!(fire.strength, 16);
    assert_eq!(fire.variant_property, VariantProperty::Gas);
    assert_eq!(fire.base_temperature, 422_000);
    assert_eq!(fire.flags, FLAG_BURNS);
    let wall = VariantType::from_variant(Variant::Wall);
    assert_eq!(wall.weight, 255);
    assert_eq!(wall.flags, FLAG_IMMUTABLE);
    assert_eq!(wall.variant_property, VariantProperty::Solid);
    assert_eq!(VariantType::from_variant(Variant::Water).weight, 32);
    assert_eq!(VariantType::from_variant(Variant::SaltWater).weight, 38);
    assert_eq!(VariantType::from_variant(Variant::Smoke).strength, 64);
    assert_eq!(VariantType::from_variant(Variant::Smoke).weight, 1);
    assert_eq!(VariantType::from_variant(Variant::Salt).weight, 1);
    assert_eq!(VariantType::from_variant(Variant::GOL).strength, 16);
    assert_eq!(
        VariantType::from_variant(Variant::Water).variant_property,
        VariantProperty::Liquid
    );
    assert_eq!(
        VariantType::from_variant(Variant::CARB).variant_property,
        VariantProperty::Powder
    );
    assert_eq!(
        VariantType::from_variant(Variant::IRON).variant_property,
        VariantProperty::Solid
    );
    assert_eq!(VariantType::from_variant(Variant::Glass).name, "GLASS");
}

#[test]
fn flags_are_tested_by_bits() {
    let oxygen = VariantType::from_variant(Variant::OXGN);
    assert_eq!(oxygen.flags, FLAG_BURNS | FLAG_IGNITES);
    assert!(oxygen.has_flag(FLAG_BURNS));
    assert!(oxygen.has_flag(FLAG_IGNITES));
    assert!(!oxygen.has_flag(FLAG_IMMUTABLE));
    assert!(!oxygen.has_flag(FLAG_EXPLOSIVE));
    assert!(!oxygen.has_flag(FLAG_ALIVE));
    assert!(oxygen.has_flag(FLAG_BURNS | FLAG_IMMUTABLE));
    for v in ALL {
        assert_eq!(
            VariantType::from_variant(v).has_flag(FLAG_IMMUTABLE),
            v == Variant::Wall
        );
    }
    assert_eq!(FLAG_BURNS, 1);
    assert_eq!(FLAG_EXPLOSIVE, 2);
    assert_eq!(FLAG_IMMUTABLE, 4);
    assert_eq!(FLAG_IGNITES, 8);
    assert_eq!(FLAG_ALIVE, 32);
}
