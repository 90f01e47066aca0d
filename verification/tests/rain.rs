// Tests of the rain core: color ramp values, field creation and bounds,
// tick transitions, resize rebuilds, and frame layout.

use term_rain::color::{create_color_map, Rgb};
use term_rain::field::{ParticleField, RainParticle, ALIVE_DEN, SPAWN_ALIVE_NUM, TICK_ALIVE_NUM};
use term_rain::render::{render_frame, step, DrawCell};

fn ramp() -> Vec<char> {
    vec!['\'', '!', '|']
}

#[test]
fn color_map_three_glyphs_exact_values() {
    let colors = create_color_map(3);
    assert_eq!(colors.len(), 3);
    assert_eq!(colors[0], Rgb { r: 63, g: 63, b: 63 });
    assert_eq!(colors[1], Rgb { r: 127, g: 127, b: 127 });
    assert_eq!(colors[2], Rgb { r: 191, g: 191, b: 191 });
}

#[test]
fn color_map_single_glyph() {
    let colors = create_color_map(1);
    assert_eq!(colors.len(), 1);
    assert_eq!(colors[0], Rgb { r: 127, g: 127, b: 127 });
}

#[test]
fn color_map_brightness_strictly_increases() {
    for count in [1usize, 2, 3, 7, 60, 254, 255] {
        let colors = create_color_map(count);
        assert_eq!(colors.len(), count);
        for w in colors.windows(2) {
            assert!(w[0].r < w[1].r, "ramp of {count} glyphs not increasing");
        }
        for c in &colors {
            assert_eq!(c.r, c.g);
            assert_eq!(c.r, c.b);
        }
    }
}

#[test]
fn create_yields_exact_population_and_bounds() {
    let mut rng = rand::thread_rng();
    // 80 x 24 cells at density 5/96 is exactly 100 particles.
    let field = ParticleField::create(80, 24, 5, 96, ramp(), &mut rng);
    assert_eq!(field.particles.len(), 100);
    assert_eq!((field.width, field.height), (80, 24));
    for p in &field.particles {
        assert!(p.character_idx < 3);
        assert!(p.pos_x < 80 * 3);
        assert!(p.pos_y < 24 * 3);
        // in whole cells: 0 <= x < w and 0 <= y < h
        assert!(p.pos_x / 3 < 80);
        assert!(p.pos_y / 3 < 24);
    }
}

#[test]
fn create_one_cell_grid() {
    let mut rng = rand::thread_rng();
    let field = ParticleField::create(1, 1, 1, 1, ramp(), &mut rng);
    assert_eq!(field.particles.len(), 1);
    let p = &field.particles[0];
    assert!(p.pos_x / 3 < 1 && p.pos_y / 3 < 1);
}

#[test]
fn create_default_density_is_five_percent() {
    let mut rng = rand::thread_rng();
    // the default density of one particle per twenty cells
    let field = ParticleField::create(80, 24, 1, 20, ramp(), &mut rng);
    assert_eq!(field.particles.len(), 96);
}

#[test]
fn create_starts_mostly_dead() {
    let mut rng = rand::thread_rng();
    // 2000 particles at a 1/20 spawn chance: about 100 alive. A count
    // above 400 has vanishing probability.
    let field = ParticleField::create(200, 200, 1, 20, ramp(), &mut rng);
    assert_eq!(field.particles.len(), 2000);
    let alive = field.particles.iter().filter(|p| p.alive).count();
    assert!(alive < 400, "{alive} of 2000 alive at a 1/20 chance");
    assert_eq!(SPAWN_ALIVE_NUM, 1);
    assert_eq!(ALIVE_DEN, 20);
}

#[test]
fn tick_keeps_glyph_indices_and_population() {
    let mut rng = rand::thread_rng();
    let mut field = ParticleField::create(80, 24, 5, 96, ramp(), &mut rng);
    let before: Vec<usize> = field.particles.iter().map(|p| p.character_idx).collect();
    for _ in 0..25 {
        field.tick(&mut rng);
    }
    assert_eq!(field.particles.len(), 100);
    let after: Vec<usize> = field.particles.iter().map(|p| p.character_idx).collect();
    assert_eq!(before, after);
}

#[test]
fn tick_moves_each_particle_by_its_glyph_speed() {
    let mut rng = rand::thread_rng();
    let mut field = ParticleField::create(80, 24, 5, 96, ramp(), &mut rng);
    for _ in 0..20 {
        let before: Vec<RainParticle> = field.particles.clone();
        field.tick(&mut rng);
        for (old, new) in before.iter().zip(field.particles.iter()) {
            assert_eq!(new.character_idx, old.character_idx);
            if !old.alive && new.alive {
                // respawn: fresh position inside the grid
                assert!(new.pos_x < 80 * 3 && new.pos_y < 24 * 3);
            } else {
                // fall: column unchanged, row advanced by glyph speed, wrapping
                assert_eq!(new.pos_x, old.pos_x);
                assert_eq!(new.pos_y, (old.pos_y + old.character_idx as u64 + 1) % (24 * 3));
            }
        }
    }
}

#[test]
fn tick_alive_chance_is_high() {
    let mut rng = rand::thread_rng();
    let mut field = ParticleField::create(200, 200, 1, 20, ramp(), &mut rng);
    field.tick(&mut rng);
    // 2000 particles at a 19/20 alive chance: about 1900 alive. A count
    // below 1600 has vanishing probability.
    let alive = field.particles.iter().filter(|p| p.alive).count();
    assert!(alive > 1600, "{alive} of 2000 alive at a 19/20 chance");
    assert_eq!(TICK_ALIVE_NUM, 19);
}

#[test]
fn sync_size_same_grid_changes_nothing() {
    let mut rng = rand::thread_rng();
    let mut field = ParticleField::create(80, 24, 5, 96, ramp(), &mut rng);
    let before: Vec<RainParticle> = field.particles.clone();
    field.sync_size(80, 24, &mut rng);
    assert_eq!((field.width, field.height), (80, 24));
    assert_eq!(field.particles, before);
}

#[test]
fn sync_size_rebuilds_on_resize() {
    let mut rng = rand::thread_rng();
    let mut field = ParticleField::create(80, 24, 5, 96, ramp(), &mut rng);
    field.sync_size(40, 12, &mut rng);
    assert_eq!((field.width, field.height), (40, 12));
    // the population matches the new grid: 40 * 12 * 5 / 96 = 25
    assert_eq!(field.particles.len(), 25);
    for p in &field.particles {
        assert!(p.pos_x < 40 * 3 && p.pos_y < 12 * 3);
    }
}

#[test]
fn render_frame_draws_exactly_the_alive_particles() {
    // A hand-built field: grid 80 x 24 at density 1/960 holds 2 particles.
    let field = ParticleField {
        particles: vec![
            RainParticle { pos_x: 31, pos_y: 62, character_idx: 2, alive: true },
            RainParticle { pos_x: 5, pos_y: 5, character_idx: 0, alive: false },
        ],
        width: 80,
        height: 24,
        glyphs: ramp(),
        density_num: 1,
        density_den: 960,
    };
    let colors = create_color_map(3);
    let cells = render_frame(&field, &colors);
    assert_eq!(cells.len(), 1);
    assert_eq!(
        cells[0],
        DrawCell { col: 10, row: 20, glyph: '|', color: Rgb { r: 191, g: 191, b: 191 } }
    );
}

#[test]
fn step_ticks_and_lays_out_the_frame() {
    let mut rng = rand::thread_rng();
    let mut field = ParticleField::create(80, 24, 5, 96, ramp(), &mut rng);
    let colors = create_color_map(3);
    let cells = step(&mut field, 80, 24, &colors, &mut rng);
    let alive = field.particles.iter().filter(|p| p.alive).count();
    assert_eq!(cells.len(), alive);
    for cell in &cells {
        assert!(cell.col < 80 && cell.row < 24);
        assert!(cell.glyph == '\'' || cell.glyph == '!' || cell.glyph == '|');
    }
}

#[test]
fn step_adopts_the_observed_grid() {
    let mut rng = rand::thread_rng();
    let mut field = ParticleField::create(80, 24, 5, 96, ramp(), &mut rng);
    let colors = create_color_map(3);
    let cells = step(&mut field, 100, 30, &colors, &mut rng);
    assert_eq!((field.width, field.height), (100, 30));
    // 100 * 30 * 5 / 96 = 156
    assert_eq!(field.particles.len(), 156);
    for cell in &cells {
        assert!(cell.col < 100 && cell.row < 30);
    }
}
