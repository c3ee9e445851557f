use silica_engine::rng::Draws;
use silica_engine::variant::Variant;
use silica_engine::world::World;

fn still(world: &World) -> Vec<Draws> {
    vec![Draws::still(); world.particles().len()]
}

/// A small generator of draws, so that a run can be repeated.
struct Dice(u64);

impl Dice {
    fn below(&mut self, n: u64) -> u64 {
        self.0 = self
            .0
            .wrapping_mul(6364136223846793005)
            .wrapping_add(1442695040888963407);
        (self.0 >> 33) % n
    }

    fn draws(&mut self, count: usize) -> Vec<Draws> {
        (0..count)
            .map(|_| Draws {
                dir: self.below(3) as i32 - 1,
                reseed: self.below(20) == 0,
                bias: 100 + self.below(50) as u8,
                spread_x: self.below(3) as i32 - 1,
                spread_y: self.below(3) as i32 - 1,
                react: self.below(10) == 0,
                grain: if self.below(2) == 0 { 100 } else { 150 },
            })
            .collect()
    }
}

fn count_row(world: &World, y: i32, v: Variant) -> usize {
    (0..world.width)
        .filter(|x| world.get_particle(*x, y).get_variant() == v)
        .count()
}

#[test]
fn sand_falls() {
    let mut world = World::new(10, 10);
    world.set_particle(5, 0, Variant::Sand);
    for _ in 0..9 {
        world.tick();
    }
    assert_eq!(world.get_particle(5, 9).get_variant(), Variant::Sand);
    for y in 0..9 {
        assert_eq!(world.get_particle(5, y).get_variant(), Variant::Empty);
    }
    assert_eq!(world.get_particle_count(), 1);
    assert_eq!(world.generation, 9);
}

#[test]
fn sand_falls_one_cell_per_tick() {
    let mut world = World::new(10, 10);
    world.place(5, 0, Variant::Sand, 100);
    for t in 1..=9 {
        let d = still(&world);
        world.tick_with(&d);
        assert_eq!(world.get_particle(5, t).get_variant(), Variant::Sand);
        assert_eq!(world.get_particle(5, t - 1).get_variant(), Variant::Empty);
    }
    let d = still(&world);
    world.tick_with(&d);
    assert_eq!(world.get_particle(5, 9).get_variant(), Variant::Sand);
}

#[test]
fn water_spreads() {
    let mut world = World::new(20, 5);
    for x in 0..20 {
        world.set_particle(x, 4, Variant::Wall);
    }
    let mut dice = Dice(7);
    for t in 0..100 {
        if t < 8 {
            world.place(10, 0, Variant::Water, 100 + (t % 2) as u8 * 50);
        }
        let d = dice.draws(100);
        world.tick_with(&d);
    }
    assert!(count_row(&world, 3, Variant::Water) >= 5);
    assert_eq!(count_row(&world, 3, Variant::Water), 8);
    assert_eq!(count_row(&world, 0, Variant::Water), 0);
    assert_eq!(count_row(&world, 1, Variant::Water), 0);
    assert_eq!(count_row(&world, 4, Variant::Wall), 20);
}

#[test]
fn sand_on_water_displaces() {
    let mut world = World::new(5, 10);
    for y in 5..10 {
        for x in 0..5 {
            world.set_particle(x, y, Variant::Water);
        }
    }
    world.set_particle(2, 0, Variant::Sand);
    for _ in 0..20 {
        world.tick();
    }
    let mut sand_at = None;
    let mut water_above = 0;
    let mut water = 0;
    for y in 0..10 {
        for x in 0..5 {
            match world.get_particle(x, y).get_variant() {
                Variant::Sand => sand_at = Some((x, y)),
                Variant::Water => {
                    water += 1;
                    if y < 5 {
                        water_above += 1;
                    }
                }
                _ => {}
            }
        }
    }
    assert_eq!(sand_at, Some((2, 9)));
    assert_eq!(water_above, 1);
    assert_eq!(water, 25);
}

#[test]
fn fire_turns_to_smoke_and_smoke_to_nothing() {
    let mut world = World::new(3, 3);
    for x in 0..3 {
        world.place(x, 0, Variant::Wall, 100);
    }
    world.place(0, 1, Variant::Wall, 100);
    world.place(2, 1, Variant::Wall, 100);
    world.place(1, 1, Variant::Fire, 100);
    let mut was_smoke = false;
    let mut gone_at = None;
    for t in 0..500 {
        let mut d = still(&world);
        for one in d.iter_mut() {
            one.react = true;
        }
        world.tick_with(&d);
        match world.get_particle(1, 1).get_variant() {
            Variant::Smoke => was_smoke = true,
            Variant::Empty => {
                if gone_at.is_none() {
                    gone_at = Some(t);
                }
            }
            Variant::Fire => {}
            other => panic!("unexpected {:?}", other),
        }
    }
    assert!(was_smoke);
    assert_eq!(gone_at, Some(65));
    assert_eq!(world.get_particle(1, 1).get_variant(), Variant::Empty);
    assert_eq!(world.get_particle_count(), 0);
}

#[test]
fn fire_rises_and_burns_out() {
    let mut world = World::new(3, 3);
    world.set_particle(1, 1, Variant::Fire);
    let mut dice = Dice(11);
    let mut was_smoke = false;
    for _ in 0..3000 {
        let d = dice.draws(9);
        world.tick_with(&d);
        for p in world.particles().iter() {
            if p.get_variant() == Variant::Smoke {
                was_smoke = true;
            }
        }
    }
    assert!(was_smoke);
    assert_eq!(world.get_particle(1, 1).get_variant(), Variant::Empty);
    assert_eq!(world.get_particle_count(), 0);
}

#[test]
fn fire_heats_its_cell() {
    let mut world = World::new(1, 1);
    world.place(0, 0, Variant::Fire, 100);
    assert_eq!(world.get_temperature(0, 0), 22_000);
    let d = still(&world);
    world.tick_with(&d);
    assert_eq!(world.get_temperature(0, 0), 800_000);
    assert_eq!(world.get_particle(0, 0).temperature, 4_220);
}

#[test]
fn salt_and_water_make_salt_water() {
    let mut world = World::new(3, 3);
    world.set_particle(1, 0, Variant::Water);
    world.set_particle(1, 1, Variant::Salt);
    for _ in 0..2 {
        world.tick();
    }
    assert_eq!(world.get_particle(1, 2).get_variant(), Variant::SaltWater);
    let mut water = 0;
    for p in world.particles().iter() {
        if p.get_variant() == Variant::Water {
            water += 1;
        }
    }
    assert_eq!(water, 1);
}

fn living(world: &World) -> Vec<(i32, i32)> {
    let mut cells = Vec::new();
    for y in 0..world.height {
        for x in 0..world.width {
            if world.get_particle(x, y).get_variant() == Variant::GOL {
                cells.push((x, y));
            }
        }
    }
    cells
}

#[test]
fn game_of_life_blinker() {
    let mut world = World::new(5, 5);
    world.set_particle(1, 2, Variant::GOL);
    world.set_particle(2, 2, Variant::GOL);
    world.set_particle(3, 2, Variant::GOL);
    world.tick();
    assert_eq!(living(&world), vec![(2, 1), (2, 2), (2, 3)]);
    world.tick();
    assert_eq!(living(&world), vec![(1, 2), (2, 2), (3, 2)]);
    for _ in 0..600 {
        world.tick();
    }
    assert_eq!(living(&world), vec![(1, 2), (2, 2), (3, 2)]);
}

#[test]
fn game_of_life_block_is_still() {
    let mut world = World::new(4, 4);
    for (x, y) in [(1, 1), (2, 1), (1, 2), (2, 2)] {
        world.set_particle(x, y, Variant::GOL);
    }
    for _ in 0..10 {
        world.tick();
        assert_eq!(living(&world), vec![(1, 1), (2, 1), (1, 2), (2, 2)]);
    }
}

#[test]
fn equal_draws_give_equal_grids() {
    let mut a = World::new(12, 12);
    let mut b = World::new(12, 12);
    for w in [&mut a, &mut b] {
        for x in 0..12 {
            w.place(x, 11, Variant::Wall, 100);
            w.place(x, 3, Variant::Water, 100);
            w.place(x, 1, Variant::Sand, 150);
        }
        w.place(5, 8, Variant::Fire, 100);
        w.place(6, 8, Variant::OXGN, 100);
        w.place(7, 8, Variant::HYGN, 100);
        w.place(3, 6, Variant::Salt, 100);
    }
    let mut dice_a = Dice(99);
    let mut dice_b = Dice(99);
    for _ in 0..60 {
        let da = dice_a.draws(144);
        let db = dice_b.draws(144);
        a.tick_with(&da);
        b.tick_with(&db);
        assert_eq!(a.particles(), b.particles());
        assert!(a.environment == b.environment);
    }
}
