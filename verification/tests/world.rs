use silica_engine::grid::Environment;
use silica_engine::particle::Particle;
use silica_engine::rng::Draws;
use silica_engine::variant::Variant;
use silica_engine::variant_type::VariantType;
use silica_engine::world::World;

fn still(world: &World) -> Vec<Draws> {
    vec![Draws::still(); world.particles().len()]
}

fn variants(world: &World) -> Vec<Variant> {
    world.particles().iter().map(|p| p.get_variant()).collect()
}

#[test]
fn a_new_world_is_empty_calm_and_running() {
    let world = World::new(7, 3);
    assert_eq!(world.particles().len(), 21);
    assert_eq!(world.environment.len(), 21);
    assert!(world.particles().iter().all(|p| *p == Particle::empty()));
    assert!(world.environment.iter().all(|e| *e
        == Environment {
            pressure: 0,
            ambient_temperature: 22_000,
            ambient_pressure: 0
        }));
    assert_eq!(world.width, 7);
    assert_eq!(world.height, 3);
    assert!(world.running);
    assert_eq!(world.generation, 0);
    assert!(!world.cleared);
    assert!(!world.is_modified());
    assert!(!world.needs_update());
    assert_eq!(world.get_particle_count(), 0);
}

#[test]
fn a_world_without_sides_has_no_cells() {
    for (w, h) in [(0, 5), (5, 0), (-3, 4), (4, -3), (-2, -2), (0, 0)] {
        let mut world = World::new(w, h);
        assert_eq!(world.particles().len(), 0);
        assert_eq!(world.get_particle(0, 0).get_variant(), Variant::Empty);
        world.set_particle(0, 0, Variant::Sand);
        world.tick();
        assert_eq!(world.generation, 1);
        assert_eq!(world.get_particle_count(), 0);
    }
}

#[test]
fn the_default_world_has_256_by_256_cells() {
    let world = World::default();
    assert_eq!(world.width, 256);
    assert_eq!(world.height, 256);
    assert_eq!(world.particles().len(), 65_536);
}

#[test]
fn indices_run_row_by_row() {
    let world = World::new(5, 4);
    assert_eq!(world.get_idx(0, 0), 0);
    assert_eq!(world.get_idx(4, 0), 4);
    assert_eq!(world.get_idx(0, 1), 5);
    assert_eq!(world.get_idx(3, 2), 13);
    assert_eq!(world.get_idx(4, 3), 19);
    assert_eq!(world.get_idx(5, 0), 0);
    assert_eq!(world.get_idx(-1, 2), 0);
    assert_eq!(world.get_idx(0, 4), 0);
    assert_eq!(world.get_idx(0, -1), 0);
    assert!(world.contains(4, 3));
    assert!(!world.contains(5, 3));
}

#[test]
fn every_cell_holds_a_material_at_all_times() {
    let mut world = World::new(6, 6);
    world.set_particle(1, 1, Variant::Water);
    world.set_particle(2, 1, Variant::Fire);
    world.set_particle(3, 1, Variant::Salt);
    for _ in 0..50 {
        world.tick();
        for y in -1..7 {
            for x in -1..7 {
                let v = world.get_particle(x, y).get_variant();
                assert_eq!(Variant::from_u8(v.code()), v);
                if !(0..6).contains(&x) || !(0..6).contains(&y) {
                    assert_eq!(v, Variant::Empty);
                }
            }
        }
    }
}

#[test]
fn placing_spares_walls_and_equal_particles() {
    let mut world = World::new(3, 3);
    world.set_particle(1, 1, Variant::Wall);
    world.set_particle(1, 1, Variant::Sand);
    assert_eq!(world.get_particle(1, 1).get_variant(), Variant::Wall);
    world.place(0, 0, Variant::Water, 150);
    let first = world.get_particle(0, 0);
    assert_eq!(
        first,
        Particle::with_grain(VariantType::from_variant(Variant::Water), 150, 0)
    );
    world.add_heat(0, 0, 5_000);
    world.place(0, 0, Variant::Water, 100);
    assert_eq!(world.get_particle(0, 0).ra, 150);
    assert_eq!(world.get_particle(0, 0).temperature, 5_000);
    world.place(0, 0, Variant::Sand, 100);
    assert_eq!(
        world.get_particle(0, 0),
        Particle::with_grain(VariantType::from_variant(Variant::Sand), 100, 0)
    );
    world.set_particle(3, 0, Variant::Sand);
    world.set_particle(0, -1, Variant::Sand);
    world.place(-1, 0, Variant::Sand, 100);
    assert_eq!(world.get_particle_count(), 1);
    world.set_particle(0, 0, Variant::Empty);
    assert_eq!(world.get_particle_count(), 0);
}

#[test]
fn only_erase_indestructible_removes_a_wall() {
    let mut world = World::new(2, 2);
    world.set_particle(0, 0, Variant::Wall);
    world.set_particle(1, 0, Variant::Sand);
    world.set_particle(0, 0, Variant::Empty);
    assert_eq!(world.get_particle(0, 0).get_variant(), Variant::Wall);
    world.erase_indestructible(1, 0);
    assert_eq!(world.get_particle(1, 0).get_variant(), Variant::Sand);
    world.erase_indestructible(5, 5);
    world.erase_indestructible(-1, 0);
    assert_eq!(world.get_particle(0, 0).get_variant(), Variant::Wall);
    world.erase_indestructible(0, 0);
    assert_eq!(world.get_particle(0, 0), Particle::empty());
}

#[test]
fn the_count_leaves_out_walls_and_empty_cells() {
    let mut world = World::new(4, 1);
    world.set_particle(0, 0, Variant::Wall);
    world.set_particle(1, 0, Variant::Sand);
    world.set_particle(2, 0, Variant::GOL);
    assert_eq!(world.get_particle_count(), 2);
}

#[test]
fn reset_empties_and_asks_for_a_redraw_until_the_next_tick() {
    let mut world = World::new(4, 4);
    for x in 0..4 {
        world.set_particle(x, x, Variant::Sand);
    }
    world.set_temperature(1, 1, 99_000);
    world.tick();
    assert!(!world.needs_update());
    world.reset();
    for y in 0..4 {
        for x in 0..4 {
            assert_eq!(world.get_particle(x, y), Particle::empty());
        }
    }
    assert!(world.cleared);
    assert!(world.needs_update());
    assert!(world.needs_update());
    assert_eq!(world.generation, 1);
    assert_eq!(world.get_temperature(1, 1), 99_000);
    world.tick();
    assert!(!world.cleared);
    assert!(!world.needs_update());
}

#[test]
fn a_second_reset_changes_nothing() {
    let mut world = World::new(5, 2);
    world.set_particle(2, 1, Variant::Water);
    world.modified_indices.insert(3);
    world.reset();
    let cells = world.particles().clone();
    let env = world.environment.clone();
    let state = (
        world.width,
        world.height,
        world.running,
        world.generation,
        world.cleared,
        world.modified_state,
        world.modified_indices.clone(),
    );
    world.reset();
    assert_eq!(world.particles(), &cells);
    assert!(world.environment == env);
    assert_eq!(
        (
            world.width,
            world.height,
            world.running,
            world.generation,
            world.cleared,
            world.modified_state,
            world.modified_indices.clone()
        ),
        state
    );
    assert!(world.modified_indices.is_empty());
}

#[test]
fn a_paused_world_stands_still() {
    let mut world = World::new(5, 5);
    world.set_particle(2, 0, Variant::Sand);
    world.set_particle(3, 0, Variant::Water);
    world.set_particle(1, 4, Variant::Fire);
    world.cleared = true;
    world.pause();
    assert!(!world.running);
    let cells = world.particles().clone();
    let env = world.environment.clone();
    for _ in 0..10 {
        world.tick();
        let d = still(&world);
        world.tick_with(&d);
    }
    assert_eq!(world.particles(), &cells);
    assert!(world.environment == env);
    assert_eq!(world.generation, 0);
    assert!(!world.cleared);
    world.resume();
    assert!(world.running);
    world.tick();
    assert_eq!(world.generation, 1);
    assert_eq!(world.get_particle(2, 1).get_variant(), Variant::Sand);
}

#[test]
fn walls_stand_through_ticks() {
    let mut world = World::new(8, 8);
    let walls = [(0, 7), (1, 7), (2, 6), (3, 3), (4, 4), (7, 0), (5, 2)];
    for (x, y) in walls {
        world.set_particle(x, y, Variant::Wall);
    }
    for x in 0..8 {
        world.set_particle(x, 0, Variant::Water);
        world.set_particle(x, 1, Variant::Sand);
    }
    world.set_particle(3, 5, Variant::Fire);
    world.set_particle(4, 5, Variant::Salt);
    world.set_particle(6, 5, Variant::OXGN);
    for _ in 0..200 {
        let before = variants(&world);
        world.tick();
        let after = variants(&world);
        for i in 0..64 {
            assert_eq!(before[i] == Variant::Wall, after[i] == Variant::Wall);
        }
    }
    for (x, y) in walls {
        assert_eq!(world.get_particle(x, y).get_variant(), Variant::Wall);
    }
}

#[test]
fn motion_makes_and_loses_no_sand_and_no_water() {
    let mut world = World::new(10, 10);
    for x in 0..10 {
        world.set_particle(x, 9, Variant::Wall);
        world.set_particle(x, 2, Variant::Sand);
        world.set_particle(x, 5, Variant::Water);
    }
    world.set_particle(4, 0, Variant::Sand);
    fn count(world: &World, v: Variant) -> usize {
        world
            .particles()
            .iter()
            .filter(|p| p.get_variant() == v)
            .count()
    }
    for _ in 0..300 {
        world.tick();
        assert_eq!(count(&world, Variant::Sand), 11);
        assert_eq!(count(&world, Variant::Water), 10);
        assert_eq!(count(&world, Variant::Wall), 10);
    }
}

#[test]
fn temperature_and_pressure_of_the_surroundings() {
    let mut world = World::new(3, 2);
    assert_eq!(world.get_temperature(1, 1), 22_000);
    assert_eq!(world.get_pressure(1, 1), 0);
    world.set_temperature(1, 1, -3_500);
    world.set_pressure(1, 1, 700);
    world.set_temperature(3, 1, 1);
    world.set_pressure(0, 2, 1);
    world.set_temperature(-1, 0, 1);
    assert_eq!(world.get_temperature(1, 1), -3_500);
    assert_eq!(world.get_pressure(1, 1), 700);
    assert_eq!(world.get_temperature(3, 1), 22_000);
    assert_eq!(world.get_pressure(0, 2), 0);
    assert_eq!(world.get_temperature(0, 0), 22_000);
    assert_eq!(
        world.environment[4],
        Environment {
            pressure: 0,
            ambient_temperature: -3_500,
            ambient_pressure: 700
        }
    );
    let untouched = world
        .environment
        .iter()
        .filter(|e| **e == Environment::calm())
        .count();
    assert_eq!(untouched, 5);
}

#[test]
fn heat_reaches_only_the_particle_at_the_place() {
    let mut world = World::new(2, 2);
    world.add_heat(1, 0, 1_000_000);
    world.add_heat(1, 0, 9_000_000);
    world.add_heat(2, 0, 5);
    world.add_heat(0, -1, 5);
    assert_eq!(world.get_particle(1, 0).temperature, 9_275_000);
    assert_eq!(world.get_particle(0, 0).temperature, 0);
    world.add_heat(0, 1, -300_000);
    assert_eq!(world.get_particle(0, 1).temperature, -200_000);
}

#[test]
fn a_place_shares_a_quarter_of_its_ambient_temperature() {
    let mut world = World::new(3, 3);
    world.set_temperature(1, 1, 1_003);
    world.distribute_cell_temperature(1, 1);
    let t: Vec<i32> = world.particles().iter().map(|p| p.temperature).collect();
    assert_eq!(t, vec![0, 0, 0, 250, 250, 250, 0, 250, 0]);
    world.set_temperature(0, 0, -1_003);
    world.distribute_cell_temperature(0, 0);
    let t: Vec<i32> = world.particles().iter().map(|p| p.temperature).collect();
    assert_eq!(t, vec![-250, -250, 0, 0, 250, 250, 0, 250, 0]);
    world.distribute_cell_temperature(3, 1);
    let t: Vec<i32> = world.particles().iter().map(|p| p.temperature).collect();
    assert_eq!(t, vec![-250, -250, 0, 0, 250, 5_750, 0, 250, 0]);
}

#[test]
fn the_latch_toggles() {
    let mut world = World::new(1, 1);
    assert!(!world.is_modified());
    assert!(world.toggle_modified_state());
    assert!(world.is_modified());
    assert!(!world.toggle_modified_state());
    assert!(!world.is_modified());
}

#[test]
fn the_end_of_a_sweep_advances_the_generation_and_clears_the_flags() {
    let mut world = World::new(2, 1);
    world.generation = 255;
    world.particles[0].modified = true;
    world.particles[1].modified = true;
    world.modified_indices.insert(1);
    world.finish();
    assert_eq!(world.generation, 0);
    assert!(world.modified_indices.is_empty());
    assert!(world.particles().iter().all(|p| !p.modified));
}

#[test]
fn the_generation_wraps_at_256() {
    let mut world = World::new(2, 2);
    for _ in 0..256 {
        world.tick();
    }
    assert_eq!(world.generation, 0);
    world.tick();
    assert_eq!(world.generation, 1);
}

#[test]
fn a_world_is_well_formed_while_its_vectors_fit_its_sides() {
    let mut world = World::new(4, 3);
    assert!(world.is_well_formed());
    world.particles.pop();
    assert!(!world.is_well_formed());
    world.particles.push(Particle::empty());
    world.environment.push(Environment::calm());
    assert!(!world.is_well_formed());
    world.environment.pop();
    world.width = 3;
    world.height = 4;
    assert!(world.is_well_formed());
    world.width = -3;
    assert!(!world.is_well_formed());
    assert!(World::new(-3, 4).is_well_formed());
    world.width = i32::MAX;
    world.height = i32::MAX;
    assert!(!world.is_well_formed());
}

#[test]
fn draws_are_valid_within_their_ranges() {
    assert!(Draws::still().is_valid());
    for (d, ok) in [
        (Draws { dir: 2, ..Draws::still() }, false),
        (Draws { dir: -1, ..Draws::still() }, true),
        (Draws { bias: 99, ..Draws::still() }, false),
        (Draws { bias: 150, ..Draws::still() }, false),
        (Draws { bias: 149, ..Draws::still() }, true),
        (Draws { spread_x: -2, ..Draws::still() }, false),
        (Draws { spread_y: 2, ..Draws::still() }, false),
        (Draws { spread_x: 1, spread_y: -1, ..Draws::still() }, true),
        (Draws { grain: 0, ..Draws::still() }, false),
        (Draws { grain: 150, ..Draws::still() }, true),
        (Draws { react: true, reseed: true, ..Draws::still() }, true),
    ] {
        assert_eq!(d.is_valid(), ok);
    }
}

#[test]
fn water_that_boils_is_found_as_steam() {
    fn count(world: &World, v: Variant) -> usize {
        world
            .particles()
            .iter()
            .filter(|p| p.get_variant() == v)
            .count()
    }
    fn wet(world: &World) -> usize {
        count(world, Variant::Water)
            + count(world, Variant::WTVP)
            + count(world, Variant::SaltWater)
            + count(world, Variant::Salt)
    }
    let mut world = World::new(6, 6);
    for x in 0..6 {
        world.set_particle(x, 5, Variant::Wall);
        world.set_particle(x, 3, Variant::Water);
    }
    world.set_particle(2, 1, Variant::Salt);
    world.set_particle(4, 0, Variant::SaltWater);
    world.add_heat(1, 3, 500_000);
    world.add_heat(3, 3, 200_000);
    world.add_heat(4, 0, 300_000);
    let water = count(&world, Variant::Water);
    let all = wet(&world);
    world.tick();
    assert_eq!(count(&world, Variant::Water), water - 2);
    assert_eq!(count(&world, Variant::WTVP), 3);
    assert!(wet(&world) >= all);
    let mut last = wet(&world);
    for _ in 0..200 {
        world.tick();
        assert!(wet(&world) >= last);
        last = wet(&world);
    }
}
