use silica_engine::api::API;
use silica_engine::motion::{flow, kernel, move_gas, move_liquid, move_powder};
use silica_engine::particle::Particle;
use silica_engine::rng::Draws;
use silica_engine::variant::Variant;
use silica_engine::variant_type::VariantType;
use silica_engine::world::World;

fn grain(v: Variant, ra: u8, rb: u8) -> Particle {
    Particle::with_grain(VariantType::from_variant(v), ra, rb)
}

fn put(world: &mut World, x: i32, y: i32, p: Particle) {
    let i = world.get_idx(x, y);
    world.particles[i] = p;
}

fn at(world: &World, x: i32, y: i32) -> Variant {
    world.get_particle(x, y).get_variant()
}

fn leaning(dir: i32) -> Draws {
    Draws {
        dir,
        ..Draws::still()
    }
}

#[test]
fn powder_falls_straight_and_relaxes() {
    let mut world = World::new(3, 3);
    put(&mut world, 1, 0, grain(Variant::Sand, 150, 4));
    world.visit_with(1, 0, leaning(1));
    assert_eq!(
        world.get_particle(1, 1),
        Particle {
            clock: 1,
            temperature: 220,
            ..grain(Variant::Sand, 150, 4)
        }
    );
    assert_eq!(
        world.get_particle(1, 0),
        Particle {
            clock: 1,
            ..Particle::empty()
        }
    );
    assert_eq!(world.get_particle_count(), 1);
    assert!(!world.is_modified());
    assert!(world.modified_indices.is_empty());
}

#[test]
fn powder_slides_to_the_side_it_leans_to() {
    for (dir, lands) in [(-1, Some((0, 1))), (1, Some((2, 1))), (0, None)] {
        let mut world = World::new(3, 2);
        put(&mut world, 1, 0, grain(Variant::Sand, 100, 0));
        put(&mut world, 1, 1, grain(Variant::IRON, 100, 0));
        world.visit_with(1, 0, leaning(dir));
        match lands {
            Some((x, y)) => {
                assert_eq!(at(&world, x, y), Variant::Sand);
                assert_eq!(at(&world, 1, 0), Variant::Empty);
            }
            None => {
                assert_eq!(at(&world, 1, 0), Variant::Sand);
                assert_eq!(world.get_particle(1, 0).clock, 1);
                assert_eq!(world.get_particle(1, 0).temperature, 220);
            }
        }
        assert_eq!(at(&world, 1, 1), Variant::IRON);
        assert_eq!(world.get_particle_count(), 2);
    }
}

#[test]
fn powder_rests_on_the_border() {
    let mut world = World::new(1, 1);
    put(&mut world, 0, 0, grain(Variant::Salt, 100, 0));
    for dir in [-1, 0, 1] {
        world.visit_with(0, 0, leaning(dir));
        assert_eq!(at(&world, 0, 0), Variant::Salt);
        world.finish();
    }
}

#[test]
fn powder_sinks_into_liquid() {
    let mut world = World::new(1, 2);
    put(&mut world, 0, 0, grain(Variant::Sand, 100, 0));
    put(&mut world, 0, 1, grain(Variant::Water, 150, 2));
    world.modified_state = true;
    world.visit_with(0, 0, leaning(0));
    assert_eq!(
        world.get_particle(0, 1),
        Particle {
            clock: 1,
            temperature: 220,
            modified: true,
            ..grain(Variant::Sand, 100, 0)
        }
    );
    assert_eq!(
        world.get_particle(0, 0),
        Particle {
            modified: true,
            ..grain(Variant::Water, 150, 2)
        }
    );
    assert!(!world.is_modified());
}

#[test]
fn gas_rises_and_bubbles_through_liquid() {
    let mut world = World::new(3, 3);
    put(&mut world, 1, 2, grain(Variant::Smoke, 100, 0));
    world.visit_with(1, 2, leaning(-1));
    assert_eq!(at(&world, 1, 1), Variant::Smoke);
    assert_eq!(at(&world, 1, 2), Variant::Empty);
    world.finish();
    put(&mut world, 1, 0, grain(Variant::Wall, 0, 0));
    world.visit_with(1, 1, leaning(-1));
    assert_eq!(at(&world, 0, 0), Variant::Smoke);
    world.finish();
    world.visit_with(0, 0, leaning(1));
    assert_eq!(at(&world, 0, 0), Variant::Smoke);

    let mut pond = World::new(1, 2);
    put(&mut pond, 0, 0, grain(Variant::Water, 100, 0));
    put(&mut pond, 0, 1, grain(Variant::HELM, 100, 0));
    pond.visit_with(0, 1, leaning(0));
    assert_eq!(at(&pond, 0, 0), Variant::HELM);
    assert_eq!(at(&pond, 0, 1), Variant::Water);
}

#[test]
fn a_particle_written_in_this_sweep_is_passed_over() {
    let mut world = World::new(1, 3);
    put(&mut world, 0, 2, grain(Variant::Smoke, 100, 0));
    world.visit_with(0, 2, leaning(0));
    assert_eq!(at(&world, 0, 1), Variant::Smoke);
    world.visit_with(0, 1, leaning(0));
    assert_eq!(at(&world, 0, 1), Variant::Smoke);
    assert_eq!(at(&world, 0, 0), Variant::Empty);
    world.finish();
    world.visit_with(0, 1, leaning(0));
    assert_eq!(at(&world, 0, 0), Variant::Smoke);
}

#[test]
fn a_particle_that_has_acted_is_recorded_and_left() {
    let mut world = World::new(2, 2);
    let mut p = grain(Variant::Sand, 100, 0);
    p.modified = true;
    put(&mut world, 1, 0, p);
    world.visit_with(1, 0, leaning(0));
    assert_eq!(world.get_particle(1, 0), p);
    assert!(world.modified_indices.contains(&1));
    assert_eq!(world.modified_indices.len(), 1);
    assert!(world.needs_update());
    world.visit_with(2, 0, leaning(0));
    world.visit_with(0, -1, leaning(0));
    assert_eq!(world.modified_indices.len(), 1);
}

#[test]
fn walls_are_never_updated() {
    let mut world = World::new(1, 2);
    put(&mut world, 0, 0, grain(Variant::Wall, 3, 4));
    world.visit_with(0, 0, leaning(0));
    assert_eq!(world.get_particle(0, 0), grain(Variant::Wall, 3, 4));
    assert_eq!(world.get_particle(0, 1), Particle::empty());
}

#[test]
fn liquid_falls_and_may_take_a_new_bias() {
    let mut world = World::new(1, 2);
    put(&mut world, 0, 0, grain(Variant::Water, 100, 2));
    world.visit_with(
        0,
        0,
        Draws {
            reseed: true,
            bias: 133,
            dir: 1,
            ..Draws::still()
        },
    );
    assert_eq!(
        world.get_particle(0, 1),
        Particle {
            clock: 1,
            temperature: 220,
            ..grain(Variant::Water, 133, 2)
        }
    );
    let mut world = World::new(1, 2);
    put(&mut world, 0, 0, grain(Variant::Water, 100, 2));
    world.visit_with(
        0,
        0,
        Draws {
            bias: 133,
            ..Draws::still()
        },
    );
    assert_eq!(world.get_particle(0, 1).ra, 100);
}

#[test]
fn liquid_sinks_through_what_is_lighter_only() {
    let mut world = World::new(1, 2);
    put(&mut world, 0, 0, grain(Variant::SaltWater, 100, 0));
    put(&mut world, 0, 1, grain(Variant::Water, 100, 0));
    world.visit_with(0, 0, leaning(0));
    assert_eq!(at(&world, 0, 0), Variant::Water);
    assert_eq!(at(&world, 0, 1), Variant::SaltWater);
    world.finish();
    world.visit_with(0, 0, leaning(0));
    assert_eq!(at(&world, 0, 0), Variant::Water);
    assert_eq!(at(&world, 0, 1), Variant::SaltWater);
}

#[test]
fn liquid_falls_to_the_side_it_leans_to_or_else_the_other() {
    for dir in [-1, 1] {
        let mut world = World::new(3, 2);
        put(&mut world, 1, 0, grain(Variant::Water, 100, 0));
        put(&mut world, 1, 1, grain(Variant::Sand, 100, 0));
        put(&mut world, 1 - dir, 1, grain(Variant::Sand, 100, 0));
        world.visit_with(1, 0, leaning(dir));
        assert_eq!(at(&world, 1 + dir, 1), Variant::Water);
        assert_eq!(at(&world, 1, 0), Variant::Empty);

        let mut world = World::new(3, 2);
        put(&mut world, 1, 0, grain(Variant::Water, 100, 0));
        put(&mut world, 1, 1, grain(Variant::Sand, 100, 0));
        put(&mut world, 1 + dir, 1, grain(Variant::Wall, 100, 0));
        world.visit_with(1, 0, leaning(dir));
        assert_eq!(at(&world, 1 - dir, 1), Variant::Water);
        assert_eq!(at(&world, 1, 0), Variant::Empty);
    }
}

#[test]
fn liquid_sinks_through_a_solid_that_weighs_less() {
    let mut world = World::new(1, 2);
    put(&mut world, 0, 0, grain(Variant::Water, 100, 0));
    put(&mut world, 0, 1, grain(Variant::Glass, 100, 0));
    world.visit_with(0, 0, leaning(0));
    assert_eq!(at(&world, 0, 0), Variant::Glass);
    assert_eq!(at(&world, 0, 1), Variant::Water);
}

#[test]
fn liquid_flows_two_cells_to_its_side() {
    for (ra, lands) in [(100u8, 4), (101u8, 0)] {
        let mut world = World::new(5, 1);
        put(&mut world, 2, 0, grain(Variant::Water, ra, 0));
        world.visit_with(2, 0, leaning(0));
        assert_eq!(
            world.get_particle(lands, 0),
            Particle {
                clock: 1,
                temperature: 220,
                ..grain(Variant::Water, ra, 6)
            }
        );
        assert_eq!(world.get_particle_count(), 1);
    }
}

#[test]
fn liquid_flows_one_cell_where_the_second_is_taken() {
    let mut world = World::new(5, 1);
    put(&mut world, 3, 0, grain(Variant::Water, 100, 0));
    world.visit_with(3, 0, leaning(0));
    assert_eq!(world.get_particle(4, 0).get_variant(), Variant::Water);
    assert_eq!(world.get_particle(4, 0).rb, 3);
    assert_eq!(at(&world, 3, 0), Variant::Empty);
}

#[test]
fn blocked_liquid_grows_unsettled_and_then_turns() {
    let mut world = World::new(5, 1);
    put(&mut world, 4, 0, grain(Variant::Water, 100, 2));
    world.visit_with(4, 0, leaning(0));
    assert_eq!(world.get_particle(4, 0).rb, 1);
    assert_eq!(world.get_particle(4, 0).ra, 100);
    world.finish();
    world.visit_with(4, 0, leaning(0));
    assert_eq!(world.get_particle(4, 0).rb, 0);
    world.finish();
    world.visit_with(4, 0, leaning(0));
    assert_eq!(world.get_particle(4, 0).ra, 101);
    assert_eq!(at(&world, 4, 0), Variant::Water);
    world.finish();
    world.visit_with(4, 0, leaning(0));
    assert_eq!(at(&world, 2, 0), Variant::Water);
    assert_eq!(world.get_particle(2, 0).rb, 6);

    let mut left = World::new(2, 1);
    put(&mut left, 0, 0, grain(Variant::Water, 255, 0));
    left.visit_with(0, 0, leaning(0));
    assert_eq!(left.get_particle(0, 0).ra, 254);
    let mut wrap = World::new(2, 1);
    put(&mut wrap, 1, 0, grain(Variant::Water, 0, 0));
    put(&mut wrap, 0, 0, grain(Variant::Wall, 0, 0));
    wrap.visit_with(1, 0, leaning(0));
    assert_eq!(wrap.get_particle(1, 0).ra, 0);
    assert_eq!(wrap.get_particle(1, 0).clock, 1);
}

#[test]
fn the_scratch_byte_wraps_when_a_liquid_turns() {
    let mut world = World::new(2, 1);
    put(&mut world, 1, 0, grain(Variant::Water, 254, 0));
    world.visit_with(1, 0, leaning(0));
    assert_eq!(world.get_particle(1, 0).ra, 255);
    world.finish();
    world.visit_with(1, 0, leaning(0));
    assert_eq!(at(&world, 0, 0), Variant::Water);
    let mut world = World::new(2, 1);
    put(&mut world, 1, 0, grain(Variant::Water, 255, 0));
    put(&mut world, 0, 0, grain(Variant::Wall, 0, 0));
    world.visit_with(1, 0, leaning(0));
    assert_eq!(world.get_particle(1, 0).ra, 255);
}

#[test]
fn flowing_liquid_tells_a_neighbour_of_its_kind_its_side() {
    let mut world = World::new(5, 2);
    for x in 0..5 {
        put(&mut world, x, 1, grain(Variant::Wall, 0, 0));
    }
    put(&mut world, 2, 0, grain(Variant::Water, 100, 0));
    put(&mut world, 1, 0, grain(Variant::Water, 101, 5));
    world.visit_with(
        2,
        0,
        Draws {
            spread_x: -1,
            spread_y: 0,
            ..Draws::still()
        },
    );
    assert_eq!(at(&world, 4, 0), Variant::Water);
    assert_eq!(
        world.get_particle(1, 0),
        Particle {
            clock: 1,
            ..grain(Variant::Water, 100, 5)
        }
    );

    let mut world = World::new(5, 2);
    for x in 0..5 {
        put(&mut world, x, 1, grain(Variant::Wall, 0, 0));
    }
    put(&mut world, 2, 0, grain(Variant::Water, 100, 0));
    put(&mut world, 1, 0, grain(Variant::SaltWater, 101, 5));
    world.visit_with(
        2,
        0,
        Draws {
            spread_x: -1,
            spread_y: 0,
            ..Draws::still()
        },
    );
    assert_eq!(world.get_particle(1, 0), grain(Variant::SaltWater, 101, 5));
}

#[test]
fn the_moves_say_where_the_particle_went() {
    let mut world = World::new(5, 3);
    put(&mut world, 2, 0, grain(Variant::Sand, 100, 0));
    let p = world.get_particle(2, 0);
    let mut api = API {
        world: &mut world,
        x: 2,
        y: 0,
    };
    assert_eq!(move_powder(&mut api, p, 1), (0, 1));
    api.y = 1;
    assert_eq!(move_gas(&mut api, p, -1), (0, -1));
    api.y = 0;
    assert_eq!(flow(&mut api, p, Draws::still()), (2, 0));
    api.x = 4;
    assert_eq!(move_liquid(&mut api, p, Draws::still()), (0, 1));
    api.y = 1;
    assert_eq!(kernel(&mut api, p, leaning(-1)), (0, 1));
    assert_eq!(kernel(&mut api, p, leaning(-1)), (-1, 1));
    assert_eq!(api.get(-1, 1).get_variant(), Variant::Sand);
    assert_eq!(api.get(0, 1).get_variant(), Variant::Sand);
    api.x = 3;
    api.y = 2;
    assert_eq!(kernel(&mut api, p, leaning(0)), (0, 0));
}
