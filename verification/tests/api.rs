use silica_engine::api::API;
use silica_engine::particle::Particle;
use silica_engine::variant::Variant;
use silica_engine::variant_type::VariantType;
use silica_engine::world::World;

#[test]
fn test_api() {
    let mut world = World::new(100, 100);
    let mut api = API {
        world: &mut world,
        x: 0,
        y: 0,
    };
    api.set(
        0,
        0,
        Particle::new(VariantType::from_variant(Variant::Sand), 0, 0),
    );
    assert_eq!(api.get(0, 0).get_variant(), Variant::Sand);
}

#[test]
fn api_test_world_set() {
    let mut world = World::new(100, 100);
    let mut api = API {
        world: &mut world,
        x: 0,
        y: 0,
    };
    api.set(
        0,
        0,
        Particle::new(VariantType::from_variant(Variant::Sand), 0, 0),
    );
    assert_eq!(api.get(0, 0).get_variant(), Variant::Sand);
}

#[test]
fn test_world_reset() {
    let mut world = World::new(100, 100);
    let mut api = API {
        world: &mut world,
        x: 0,
        y: 0,
    };
    api.set(
        0,
        0,
        Particle::new(VariantType::from_variant(Variant::Sand), 0, 0),
    );
    api.reset();
    assert_eq!(api.get(0, 0).get_variant(), Variant::Empty);
    assert_eq!(api.get(1, 1).get_variant(), Variant::Empty);
}

#[test]
fn world_test_world_set() {
    let world = World::new(100, 100);
    assert_eq!(world.get_particle(0, 0).get_variant(), Variant::Empty);
}

#[test]
fn set_stamps_the_clock_and_get_sees_a_wall_beyond_the_border() {
    let mut world = World::new(4, 3);
    world.generation = 255;
    let mut api = API {
        world: &mut world,
        x: 0,
        y: 0,
    };
    api.set(
        1,
        2,
        Particle::with_grain(VariantType::from_variant(Variant::Water), 7, 9),
    );
    let written = api.get(1, 2);
    assert_eq!(written.get_variant(), Variant::Water);
    assert_eq!(written.ra, 7);
    assert_eq!(written.rb, 9);
    assert_eq!(written.clock, 0);
    let outside = api.get(-1, 0);
    assert_eq!(outside.get_variant(), Variant::Wall);
    assert_eq!(outside.clock, 255);
    api.set(-1, -1, Particle::empty());
    assert_eq!(world.get_particle_count(), 1);
    assert_eq!(world.get_particle(-1, 0).get_variant(), Variant::Empty);
    assert_eq!(world.get_idx(1, 2), 9);
    assert_eq!(world.get_idx(4, 0), 0);
}

#[test]
fn get_nbrs_lists_the_neighbours_column_by_column() {
    let mut world = World::new(3, 3);
    world.place(0, 0, Variant::Sand, 100);
    world.place(0, 1, Variant::Water, 100);
    world.place(0, 2, Variant::Fire, 100);
    world.place(1, 0, Variant::Smoke, 100);
    world.place(1, 2, Variant::Salt, 100);
    world.place(2, 0, Variant::IRON, 100);
    world.place(2, 1, Variant::GOL, 100);
    world.place(2, 2, Variant::Glass, 100);
    let api = API {
        world: &mut world,
        x: 1,
        y: 1,
    };
    let got: Vec<Variant> = api.get_nbrs().iter().map(|p| p.get_variant()).collect();
    assert_eq!(
        got,
        vec![
            Variant::Sand,
            Variant::Water,
            Variant::Fire,
            Variant::Smoke,
            Variant::Salt,
            Variant::IRON,
            Variant::GOL,
            Variant::Glass
        ]
    );
}

#[test]
fn swap_exchanges_two_cells_and_gives_both_the_latch() {
    let mut world = World::new(3, 1);
    world.place(0, 0, Variant::Sand, 100);
    world.place(1, 0, Variant::Water, 150);
    world.place(2, 0, Variant::Wall, 100);
    world.add_heat(0, 0, 7);
    world.modified_state = true;
    let sand = world.get_particle(0, 0);
    let water = world.get_particle(1, 0);
    let wall = world.get_particle(2, 0);
    let mut api = API {
        world: &mut world,
        x: 0,
        y: 0,
    };
    api.swap(0, 1);
    assert_eq!(api.get(0, 0), Particle { modified: true, ..water });
    assert_eq!(api.get(1, 0), Particle { modified: true, ..sand });
    assert_eq!(api.get(2, 0), wall);
    api.swap(1, 2);
    assert_eq!(api.get(1, 0), Particle { modified: true, ..wall });
    assert_eq!(api.get(2, 0), Particle { modified: true, ..sand });
    assert_eq!(api.get(0, 0), Particle { modified: true, ..water });
    api.swap(2, 2);
    assert_eq!(api.get(2, 0), Particle { modified: true, ..sand });
    api.swap(0, 3);
    api.swap(3, 0);
    api.swap(usize::MAX, 1);
    assert_eq!(api.get(0, 0), Particle { modified: true, ..water });
    assert_eq!(api.get(1, 0), Particle { modified: true, ..wall });
    world.modified_state = false;
    let mut api = API {
        world: &mut world,
        x: 0,
        y: 0,
    };
    api.swap_dirty(0, 0, 1, 0);
    assert_eq!(api.get(0, 0), wall);
    assert_eq!(api.get(1, 0), water);
    assert_eq!(api.get(2, 0), Particle { modified: true, ..sand });
    api.swap_dirty(0, 0, 1, 1);
    api.swap_dirty(-1, 0, 1, 0);
    api.swap_dirty(2, 0, 3, 0);
    assert_eq!(api.get(0, 0), wall);
    assert_eq!(api.get(1, 0), water);
    assert_eq!(world.get_particle_count(), 2);
}

#[test]
fn motion_exchanges_no_wall() {
    let mut world = World::new(3, 1);
    world.place(0, 0, Variant::Sand, 100);
    world.place(1, 0, Variant::Water, 150);
    world.place(2, 0, Variant::Wall, 100);
    let mut api = API {
        world: &mut world,
        x: 0,
        y: 0,
    };
    assert!(api.swap_with(1, 0));
    assert_eq!(api.get(0, 0).get_variant(), Variant::Water);
    assert_eq!(api.get(1, 0).get_variant(), Variant::Sand);
    assert!(!api.swap_with(2, 0));
    assert!(!api.swap_with(-1, 0));
    assert!(!api.swap_with(0, 1));
    api.x = 2;
    assert!(!api.swap_with(-1, 0));
    assert!(!api.swap_with(-2, 0));
    assert_eq!(api.get(-2, 0).get_variant(), Variant::Water);
    assert_eq!(api.get(-1, 0).get_variant(), Variant::Sand);
    assert_eq!(api.get(0, 0).get_variant(), Variant::Wall);
    api.x = 1;
    assert!(api.swap_with(0, 0));
    assert!(api.swap_with(-1, 0));
    assert_eq!(api.get(-1, 0).get_variant(), Variant::Sand);
}

#[test]
fn chance_stays_in_its_range() {
    let mut world = World::new(1, 1);
    let mut api = API {
        world: &mut world,
        x: 0,
        y: 0,
    };
    let mut seen = [false; 3];
    for _ in 0..200 {
        let i = api.rand_int(7);
        assert!((0..7).contains(&i));
        let d = api.rand_dir();
        assert!((-1..=1).contains(&d));
        seen[(d + 1) as usize] = true;
        let (vx, vy) = api.rand_vec();
        assert!((-1..=1).contains(&vx) && (-1..=1).contains(&vy));
        assert!(api.once_in(1));
        assert!(api.once_per(1));
        assert!(silica_engine::rng::hit_of(0));
        assert!(!silica_engine::rng::hit_of(1));
        assert!(!silica_engine::rng::hit_of(-1));
    }
    assert!(seen[0] && seen[1] && seen[2]);
}

#[test]
fn the_api_reaches_the_surroundings_of_any_place() {
    let mut world = World::new(3, 3);
    let mut api = API {
        world: &mut world,
        x: 1,
        y: 1,
    };
    assert_eq!(api.get_temperature(2, 2), 22_000);
    api.set_temperature(2, 2, 640_000);
    api.set_pressure(0, 1, -12);
    api.set_temperature(3, 3, 1);
    api.set_pressure(-1, 0, 1);
    assert_eq!(api.get_temperature(2, 2), 640_000);
    assert_eq!(api.get_pressure(0, 1), -12);
    assert_eq!(api.get_temperature(3, 3), 22_000);
    assert_eq!(api.get_pressure(-1, 0), 0);
    assert_eq!(api.get_idx(2, 1), 5);
    assert_eq!(api.get_idx(3, 1), 0);
    api.set(1, 0, Particle::with_grain(VariantType::from_variant(Variant::Salt), 1, 2));
    assert_eq!(api.get_from_idx(5).get_variant(), Variant::Salt);
    assert_eq!(api.get_from_idx(4), Particle::empty());
    assert_eq!(world.get_temperature(2, 2), 640_000);
    assert_eq!(world.get_pressure(0, 1), -12);
}

#[test]
fn the_api_advances_the_world() {
    let mut world = World::new(3, 3);
    world.place(1, 0, Variant::Sand, 100);
    let mut api = API {
        world: &mut world,
        x: 0,
        y: 0,
    };
    api.update_world();
    api.update_world();
    assert_eq!(api.get(1, 2).get_variant(), Variant::Sand);
    assert_eq!(api.x, 0);
    assert_eq!(world.generation, 2);
}

#[test]
fn a_visit_lets_chance_decide() {
    let mut world = World::new(3, 3);
    world.place(1, 0, Variant::Sand, 100);
    world.place(1, 1, Variant::Wall, 100);
    world.visit(1, 0);
    let landed = [
        world.get_particle(0, 1).get_variant(),
        world.get_particle(1, 0).get_variant(),
        world.get_particle(2, 1).get_variant(),
    ];
    assert_eq!(
        landed.iter().filter(|v| **v == Variant::Sand).count(),
        1
    );
    assert_eq!(world.get_particle_count(), 1);
    world.visit(7, 7);
    world.visit(-1, 0);
    assert_eq!(world.get_particle_count(), 1);
}
