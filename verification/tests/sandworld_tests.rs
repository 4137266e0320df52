use sandsim::gridmath::{GridVec, WORLD_HEIGHT, WORLD_WIDTH};
use sandsim::particle::{Particle, ParticleType};
use sandsim::sandworld::World;

// The effective interior: positions whose reads and writes reach the
// array. Everything else is the boundary margin.
fn interior(x: i32, y: i32) -> bool {
    x > 0 && x < WORLD_WIDTH - 2 && y > 0 && y < WORLD_HEIGHT - 2
}

fn count_type(w: &World, t: ParticleType) -> usize {
    let mut n = 0;
    for y in 0..WORLD_HEIGHT {
        for x in 0..WORLD_WIDTH {
            if interior(x, y) && w.get_particle(GridVec::new(x, y)).particle_type == t {
                n += 1;
            }
        }
    }
    n
}

fn find_positions(w: &World, t: ParticleType) -> Vec<(i32, i32)> {
    let mut v = Vec::new();
    for y in 0..WORLD_HEIGHT {
        for x in 0..WORLD_WIDTH {
            if interior(x, y) && w.get_particle(GridVec::new(x, y)).particle_type == t {
                v.push((x, y));
            }
        }
    }
    v
}

fn snapshot(w: &World) -> Vec<ParticleType> {
    let mut v = Vec::new();
    for y in 0..WORLD_HEIGHT {
        for x in 0..WORLD_WIDTH {
            v.push(w.get_particle(GridVec::new(x, y)).particle_type);
        }
    }
    v
}

#[test]
fn new_world_is_all_air() {
    let w = World::new();
    assert_eq!(count_type(&w, ParticleType::Air), 61 * 61);
    assert_eq!(count_type(&w, ParticleType::Sand), 0);
    assert_eq!(count_type(&w, ParticleType::Water), 0);
    assert_eq!(count_type(&w, ParticleType::Stone), 0);
}

#[test]
fn gridvec_new_and_add() {
    let a = GridVec::new(2, 3);
    let b = GridVec::new(-1, 4);
    let c = a.add(b);
    assert_eq!(c, GridVec { x: 1, y: 7 });
}

#[test]
fn particle_new_and_default() {
    assert_eq!(Particle::new(ParticleType::Sand).particle_type, ParticleType::Sand);
    assert_eq!(Particle::default().particle_type, ParticleType::Air);
}

#[test]
fn contains_edges() {
    let w = World::new();
    assert!(w.contains(GridVec::new(0, 0)));
    assert!(w.contains(GridVec::new(WORLD_WIDTH - 1, WORLD_HEIGHT - 1)));
    assert!(!w.contains(GridVec::new(WORLD_WIDTH, 0)));
    assert!(!w.contains(GridVec::new(0, WORLD_HEIGHT)));
    assert!(!w.contains(GridVec::new(-1, 5)));
    assert!(!w.contains(GridVec::new(5, -1)));
}

#[test]
fn clamp_exact_values() {
    let w = World::new();
    assert_eq!(w.clamp(GridVec::new(-3, 70)), GridVec { x: 0, y: WORLD_HEIGHT - 1 });
    assert_eq!(w.clamp(GridVec::new(70, -3)), GridVec { x: WORLD_WIDTH - 1, y: 0 });
    assert_eq!(w.clamp(GridVec::new(70, 5)), GridVec { x: WORLD_WIDTH - 1, y: 5 });
    assert_eq!(w.clamp(GridVec::new(5, 5)), GridVec { x: 5, y: 5 });
}

#[test]
fn clamp_is_idempotent() {
    let w = World::new();
    let samples = [
        GridVec::new(-100, -100),
        GridVec::new(-1, 30),
        GridVec::new(30, -1),
        GridVec::new(100, 100),
        GridVec::new(0, 0),
        GridVec::new(WORLD_WIDTH - 1, WORLD_HEIGHT - 1),
        GridVec::new(17, 42),
    ];
    for p in samples {
        let once = w.clamp(p);
        assert_eq!(w.clamp(once), once);
        if w.contains(p) {
            assert_eq!(once, p);
        }
    }
}

#[test]
fn read_after_write() {
    let mut w = World::new();
    let p = GridVec::new(5, 5);
    w.replace_particle(p, Particle::new(ParticleType::Sand));
    assert_eq!(w.get_particle(p).particle_type, ParticleType::Sand);
    w.replace_particle(p, Particle::new(ParticleType::Water));
    assert_eq!(w.get_particle(p).particle_type, ParticleType::Water);
}

#[test]
fn margin_reads_boundary() {
    let w = World::new();
    let margin_positions = [
        GridVec::new(0, 5),
        GridVec::new(WORLD_WIDTH - 2, 5),
        GridVec::new(WORLD_WIDTH - 1, 5),
        GridVec::new(5, 0),
        GridVec::new(5, WORLD_HEIGHT - 2),
        GridVec::new(5, WORLD_HEIGHT - 1),
    ];
    for p in margin_positions {
        assert_eq!(w.get_particle(p).particle_type, ParticleType::Boundary);
    }
    // The margin is asymmetric: 1 cell at the low edges, 2 at the high ones.
    assert_eq!(w.get_particle(GridVec::new(1, 1)).particle_type, ParticleType::Air);
    assert_eq!(
        w.get_particle(GridVec::new(WORLD_WIDTH - 3, WORLD_HEIGHT - 3)).particle_type,
        ParticleType::Air
    );
}

#[test]
fn margin_writes_are_noops() {
    let mut w = World::new();
    w.replace_particle(GridVec::new(7, 7), Particle::new(ParticleType::Stone));
    let before = snapshot(&w);
    let margin_positions = [
        GridVec::new(0, 5),
        GridVec::new(WORLD_WIDTH - 2, 5),
        GridVec::new(5, 0),
        GridVec::new(5, WORLD_HEIGHT - 2),
    ];
    for p in margin_positions {
        w.replace_particle(p, Particle::new(ParticleType::Sand));
        w.add_particle(p, Particle::new(ParticleType::Sand));
        // repeated calls stay no-ops
        w.replace_particle(p, Particle::new(ParticleType::Sand));
    }
    assert_eq!(snapshot(&w), before);
}

#[test]
fn add_particle_only_fills_air() {
    let mut w = World::new();
    let p = GridVec::new(9, 9);
    w.add_particle(p, Particle::new(ParticleType::Sand));
    assert_eq!(w.get_particle(p).particle_type, ParticleType::Sand);
    w.add_particle(p, Particle::new(ParticleType::Water));
    assert_eq!(w.get_particle(p).particle_type, ParticleType::Sand);
}

#[test]
fn place_circle_radius_zero_touches_nothing() {
    let mut w = World::new();
    w.replace_particle(GridVec::new(12, 12), Particle::new(ParticleType::Stone));
    let before = snapshot(&w);
    w.place_circle(GridVec::new(12, 12), 0, Particle::new(ParticleType::Sand), true);
    assert_eq!(snapshot(&w), before);
}

#[test]
fn place_circle_paints_half_open_rectangle() {
    let mut w = World::new();
    let pos = GridVec::new(10, 10);
    w.place_circle(pos, 2, Particle::new(ParticleType::Stone), true);
    for y in 0..WORLD_HEIGHT {
        for x in 0..WORLD_WIDTH {
            let expect = if x >= 8 && x < 12 && y >= 8 && y < 12 {
                ParticleType::Stone
            } else if interior(x, y) {
                ParticleType::Air
            } else {
                ParticleType::Boundary
            };
            assert_eq!(w.get_particle(GridVec::new(x, y)).particle_type, expect);
        }
    }
}

#[test]
fn place_circle_add_mode_keeps_material() {
    let mut w = World::new();
    w.replace_particle(GridVec::new(10, 10), Particle::new(ParticleType::Stone));
    w.place_circle(GridVec::new(10, 10), 2, Particle::new(ParticleType::Sand), false);
    assert_eq!(w.get_particle(GridVec::new(10, 10)).particle_type, ParticleType::Stone);
    assert_eq!(w.get_particle(GridVec::new(9, 9)).particle_type, ParticleType::Sand);
    assert_eq!(w.get_particle(GridVec::new(11, 11)).particle_type, ParticleType::Sand);
}

#[test]
fn place_then_clear_restores_air() {
    let mut w = World::new();
    let pos = GridVec::new(20, 20);
    let before = snapshot(&w);
    w.place_circle(pos, 3, Particle::new(ParticleType::Stone), true);
    w.clear_circle(pos, 3);
    assert_eq!(snapshot(&w), before);
    for y in 17..23 {
        for x in 17..23 {
            assert_eq!(w.get_particle(GridVec::new(x, y)).particle_type, ParticleType::Air);
        }
    }
}

#[test]
fn clear_circle_erases_painted_block() {
    let mut w = World::new();
    w.place_circle(GridVec::new(30, 30), 4, Particle::new(ParticleType::Water), true);
    assert!(count_type(&w, ParticleType::Water) > 0);
    w.clear_circle(GridVec::new(30, 30), 4);
    assert_eq!(count_type(&w, ParticleType::Water), 0);
}

#[test]
fn single_sand_falls_one_row() {
    let mut w = World::new();
    w.replace_particle(GridVec::new(5, 5), Particle::new(ParticleType::Sand));
    w.update();
    assert_eq!(w.get_particle(GridVec::new(5, 5)).particle_type, ParticleType::Air);
    let sand = find_positions(&w, ParticleType::Sand);
    assert_eq!(sand.len(), 1);
    let (x, y) = sand[0];
    assert_eq!(y, 4);
    assert!(x == 4 || x == 5 || x == 6);
}

#[test]
fn sand_sinks_and_water_survives() {
    let mut w = World::new();
    w.replace_particle(GridVec::new(5, 6), Particle::new(ParticleType::Sand));
    w.replace_particle(GridVec::new(5, 5), Particle::new(ParticleType::Water));
    w.update();
    assert_eq!(count_type(&w, ParticleType::Sand), 1);
    assert_eq!(count_type(&w, ParticleType::Water), 1);
    assert_eq!(w.get_particle(GridVec::new(5, 6)).particle_type, ParticleType::Air);
    let sand = find_positions(&w, ParticleType::Sand);
    let (sx, sy) = sand[0];
    assert_eq!(sy, 5);
    assert!(sx == 4 || sx == 5 || sx == 6);
    let water = find_positions(&w, ParticleType::Water);
    let (_, wy) = water[0];
    assert!(wy <= 4);
}

#[test]
fn stone_never_moves() {
    let mut w = World::new();
    for y in 1..WORLD_HEIGHT - 2 {
        for x in 1..WORLD_WIDTH - 2 {
            w.replace_particle(GridVec::new(x, y), Particle::new(ParticleType::Stone));
        }
    }
    w.replace_particle(GridVec::new(10, 10), Particle::new(ParticleType::Air));
    let before = snapshot(&w);
    w.update();
    assert_eq!(snapshot(&w), before);
}

#[test]
fn update_conserves_particle_counts() {
    let mut w = World::new();
    w.place_circle(GridVec::new(15, 40), 5, Particle::new(ParticleType::Sand), true);
    w.place_circle(GridVec::new(30, 35), 6, Particle::new(ParticleType::Water), true);
    w.place_circle(GridVec::new(22, 10), 4, Particle::new(ParticleType::Stone), true);
    let sand = count_type(&w, ParticleType::Sand);
    let water = count_type(&w, ParticleType::Water);
    let stone = count_type(&w, ParticleType::Stone);
    let air = count_type(&w, ParticleType::Air);
    assert!(sand > 0 && water > 0 && stone > 0);
    for _ in 0..5 {
        w.update();
        assert_eq!(count_type(&w, ParticleType::Sand), sand);
        assert_eq!(count_type(&w, ParticleType::Water), water);
        assert_eq!(count_type(&w, ParticleType::Stone), stone);
        assert_eq!(count_type(&w, ParticleType::Air), air);
    }
}

#[test]
fn water_spreads_when_stuck() {
    let mut w = World::new();
    // A sealed stone pocket around (20, 5). The movement offsets test only
    // their target cell, not the cells in between, so the floor is two
    // rows thick (against the two-cell drop) and the walls three cells
    // thick (against the two- and three-cell spreads).
    for x in 16..=24 {
        w.replace_particle(GridVec::new(x, 3), Particle::new(ParticleType::Stone));
        w.replace_particle(GridVec::new(x, 4), Particle::new(ParticleType::Stone));
    }
    for x in [16, 17, 18, 22, 23, 24] {
        w.replace_particle(GridVec::new(x, 5), Particle::new(ParticleType::Stone));
    }
    w.replace_particle(GridVec::new(20, 5), Particle::new(ParticleType::Water));
    w.update();
    assert_eq!(count_type(&w, ParticleType::Water), 1);
    let water = find_positions(&w, ParticleType::Water);
    let (wx, wy) = water[0];
    assert_eq!(wy, 5);
    assert!(wx == 19 || wx == 20 || wx == 21);
}
