//! Laying out one frame: the alive particles of the field, each truncated to
//! a whole grid cell and styled with its glyph's ramp color. Writing the
//! cells to the terminal is the caller's business; this module only decides
//! what is drawn where.

use vstd::prelude::*;
use crate::color::Rgb;
use crate::field::{ParticleField, RainParticle, particle_in_bounds, tick_rel};

verus! {

/// One terminal cell of the frame: where, which glyph, and in which color.
#[derive(Clone, Copy, PartialEq, Eq, Structural, Debug)]
pub struct DrawCell {
    pub col: u16,
    pub row: u16,
    pub glyph: char,
    pub color: Rgb,
}

/// The cell a particle is drawn at: its sub-cell position truncated to whole
/// grid cells, its own glyph, and the ramp color of that glyph.
pub open spec fn cell_of(p: RainParticle, glyphs: Seq<char>, colors: Seq<Rgb>) -> DrawCell {
    DrawCell {
        col: (p.pos_x as int / glyphs.len() as int) as u16,
        row: (p.pos_y as int / glyphs.len() as int) as u16,
        glyph: glyphs[p.character_idx as int],
        color: colors[p.character_idx as int],
    }
}

/// The frame for a list of particles: the alive ones, in their order, each
/// mapped to its cell; a particle whose `alive` flag is off is not drawn.
pub open spec fn frame_of(particles: Seq<RainParticle>, glyphs: Seq<char>, colors: Seq<Rgb>) -> Seq<DrawCell>
    decreases particles.len(),
{
    if particles.len() == 0 {
        Seq::empty()
    } else {
        let rest = frame_of(particles.drop_last(), glyphs, colors);
        if particles.last().alive {
            rest.push(cell_of(particles.last(), glyphs, colors))
        } else {
            rest
        }
    }
}

/// Law of the grid: a particle inside the grid in sub-cell units stands in a
/// cell inside the grid, so every drawn cell of a well-formed field has
/// `col < width` and `row < height`.
pub proof fn lemma_cell_in_grid(p: RainParticle, width: u16, height: u16, n_glyphs: int)
    requires
        1 <= n_glyphs,
        particle_in_bounds(p, width, height, n_glyphs),
    ensures
        0 <= p.pos_x as int / n_glyphs < width,
        0 <= p.pos_y as int / n_glyphs < height,
{
    assert(p.pos_x < n_glyphs * width && p.pos_y < n_glyphs * height) by (nonlinear_arith)
        requires
            p.pos_x < width * n_glyphs,
            p.pos_y < height * n_glyphs;
    vstd::arithmetic::div_mod::lemma_multiply_divide_lt(p.pos_x as int, n_glyphs, width as int);
    vstd::arithmetic::div_mod::lemma_multiply_divide_lt(p.pos_y as int, n_glyphs, height as int);
    assert(0 <= p.pos_x as int / n_glyphs) by (nonlinear_arith)
        requires 1 <= n_glyphs && 0 <= p.pos_x;
    assert(0 <= p.pos_y as int / n_glyphs) by (nonlinear_arith)
        requires 1 <= n_glyphs && 0 <= p.pos_y;
}

/// Lay out one frame of the field: exactly the alive particles, in order,
/// each at its truncated cell with its glyph and its glyph's color.
pub fn render_frame(field: &ParticleField, colors: &Vec<Rgb>) -> (cells: Vec<DrawCell>)
    requires
        field.wf(),
        colors@.len() == field.glyphs@.len(),
    ensures
        cells@ == frame_of(field.particles@, field.glyphs@, colors@),
{
    let n_glyphs: u64 = field.glyphs.len() as u64;
    let len = field.particles.len();
    let mut cells: Vec<DrawCell> = Vec::new();
    assert(field.particles@.take(0) =~= Seq::<RainParticle>::empty());
    let mut i: usize = 0;
    while i < len
        invariant
            i <= len,
            len == field.particles@.len(),
            field.wf(),
            colors@.len() == field.glyphs@.len(),
            n_glyphs == field.glyphs@.len(),
            cells@ == frame_of(field.particles@.take(i as int), field.glyphs@, colors@),
        decreases len - i,
    {
        let p = field.particles[i];
        proof {
            assert(particle_in_bounds(field.particles@[i as int], field.width, field.height, field.glyphs@.len() as int));
            if p.alive {
                lemma_cell_in_grid(p, field.width, field.height, field.glyphs@.len() as int);
            }
        }
        if p.alive {
            let col = (p.pos_x / n_glyphs) as u16;
            let row = (p.pos_y / n_glyphs) as u16;
            let glyph = field.glyphs[p.character_idx];
            let color = colors[p.character_idx];
            cells.push(DrawCell { col, row, glyph, color });
        }
        proof {
            let taken = field.particles@.take(i as int + 1);
            assert(taken.drop_last() =~= field.particles@.take(i as int));
            assert(taken.last() == field.particles@[i as int]);
        }
        i = i + 1;
    }
    proof {
        assert(field.particles@.take(len as int) =~= field.particles@);
    }
    cells
}

/// One frame of the render loop's work: adopt the observed grid size,
/// rebuilding the field if it changed, advance every particle by one tick,
/// and lay out the draw list of the frame that results.
pub fn step(field: &mut ParticleField, observed_width: u16, observed_height: u16, colors: &Vec<Rgb>, rng: &mut rand::rngs::ThreadRng) -> (cells: Vec<DrawCell>)
    requires
        old(field).wf(),
        colors@.len() == old(field).glyphs@.len(),
    ensures
        final(field).wf(),
        final(field).width == observed_width,
        final(field).height == observed_height,
        final(field).glyphs@ == old(field).glyphs@,
        final(field).density_num == old(field).density_num,
        final(field).density_den == old(field).density_den,
        cells@ == frame_of(final(field).particles@, final(field).glyphs@, colors@),
        (observed_width == old(field).width && observed_height == old(field).height)
            ==> tick_rel(*old(field), *final(field)),
{
    field.sync_size(observed_width, observed_height, rng);
    field.tick(rng);
    render_frame(field, colors)
}

} // verus!
