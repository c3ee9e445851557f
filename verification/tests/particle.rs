use silica_engine::particle::{Particle, Velocity, MAX_TEMP, MIN_TEMP};
use silica_engine::variant::Variant;
use silica_engine::variant_type::VariantType;

#[test]
fn a_new_particle_has_one_of_two_grains() {
    let mut seen = (false, false);
    for _ in 0..200 {
        let p = Particle::new(VariantType::from_variant(Variant::Water), 77, 5);
        assert_eq!(p.get_variant(), Variant::Water);
        assert!(p.ra == 100 || p.ra == 150);
        if p.ra == 100 {
            seen.0 = true;
        } else {
            seen.1 = true;
        }
        assert_eq!(p.rb, 5);
        assert_eq!(p.clock, 0);
        assert_eq!(p.strength, 0);
        assert!(!p.modified);
        assert_eq!(p.velocity, Velocity { x: 0, y: 0 });
        assert_eq!(p.temperature, 0);
    }
    assert!(seen.0 && seen.1);
}

#[test]
fn the_empty_cell_is_all_zero() {
    let e = Particle::empty();
    assert_eq!(e, Particle::default());
    assert_eq!(
        e,
        Particle {
            variant: Variant::Empty,
            ra: 0,
            rb: 0,
            clock: 0,
            strength: 0,
            modified: false,
            velocity: Velocity { x: 0, y: 0 },
            temperature: 0,
        }
    );
    let g = Particle::with_grain(VariantType::from_variant(Variant::Fire), 9, 8);
    assert_eq!(
        g,
        Particle {
            variant: Variant::Fire,
            ra: 9,
            rb: 8,
            ..e
        }
    );
    assert_eq!(Particle::remnant(), Particle { rb: 1, ..e });
}

#[test]
fn heat_is_clamped() {
    let mut p = Particle::empty();
    p.add_heat(1_500);
    assert_eq!(p.temperature, 1_500);
    p.add_heat(-2_500);
    assert_eq!(p.temperature, -1_000);
    p.add_heat(i32::MIN);
    assert_eq!(p.temperature, -200_000);
    assert_eq!(MIN_TEMP, -200_000);
    p.add_heat(i32::MAX);
    assert_eq!(p.temperature, 9_275_000);
    assert_eq!(MAX_TEMP, 9_275_000);
    p.add_heat(i32::MAX);
    assert_eq!(p.temperature, 9_275_000);
    p.temperature = i32::MAX;
    p.add_heat(-1);
    assert_eq!(p.temperature, 9_275_000);
    p.temperature = i32::MIN;
    p.add_heat(0);
    assert_eq!(p.temperature, -200_000);
}

#[test]
fn relaxing_covers_a_hundredth_of_the_way() {
    let mut p = Particle::with_grain(VariantType::from_variant(Variant::Sand), 0, 0);
    p.relax();
    assert_eq!(p.temperature, 220);
    p.temperature = 1_022_000;
    p.relax();
    assert_eq!(p.temperature, 1_012_000);
    p.temperature = 22_099;
    p.relax();
    assert_eq!(p.temperature, 22_099);
    p.temperature = 21_901;
    p.relax();
    assert_eq!(p.temperature, 21_901);
    p.temperature = 22_100;
    p.relax();
    assert_eq!(p.temperature, 22_099);
    p.temperature = i32::MIN;
    p.relax();
    assert_eq!(p.temperature, i32::MIN + 21_474_836 + 220);
    p.temperature = i32::MAX;
    p.relax();
    assert_eq!(p.temperature, i32::MAX - 21_474_616);
    let mut f = Particle::with_grain(VariantType::from_variant(Variant::Fire), 0, 0);
    f.relax();
    assert_eq!(f.temperature, 4_220);
}

#[test]
fn dissolving_counts_strength_down_and_then_turns() {
    let mut p = Particle::with_grain(VariantType::from_variant(Variant::Fire), 100, 0);
    p.strength = 2;
    p.temperature = 55;
    let smoke = VariantType::from_variant(Variant::Smoke);
    assert!(!p.dissolve_to(smoke));
    assert_eq!(p.strength, 1);
    assert_eq!(p.get_variant(), Variant::Fire);
    assert!(!p.dissolve_to(smoke));
    assert_eq!(p.strength, 0);
    assert_eq!(p.get_variant(), Variant::Fire);
    assert!(p.dissolve_to(smoke));
    assert_eq!(p.get_variant(), Variant::Smoke);
    assert_eq!(p.strength, 64);
    assert_eq!(p.ra, 100);
    assert_eq!(p.temperature, 55);
}
