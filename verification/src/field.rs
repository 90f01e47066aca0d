//! The particle field: a fixed population of rain particles over a terminal
//! grid, rebuilt on a grid resize and advanced once per tick.
//!
//! Positions are kept in sub-cell units: a cell is split into one sub-cell
//! per glyph of the ramp, so a particle at `pos_y` stands in row
//! `pos_y / glyphs.len()`. A tick advances a live particle's row by
//! `character_idx + 1` sub-cells, which is `(character_idx + 1) / glyphs.len()`
//! rows: near/fast glyphs fall further per tick than far/slow ones, and the
//! advance wraps at the grid's bottom edge.

use vstd::prelude::*;
use crate::sampler::{sample_below, sample_ratio};

verus! {

/// Chance, as `SPAWN_ALIVE_NUM / ALIVE_DEN`, that a particle starts alive.
pub const SPAWN_ALIVE_NUM: u32 = 1;

/// Chance, as `TICK_ALIVE_NUM / ALIVE_DEN`, that a particle is alive after a
/// tick.
pub const TICK_ALIVE_NUM: u32 = 19;

/// Denominator of both alive chances.
pub const ALIVE_DEN: u32 = 20;

/// One falling rain glyph.
#[derive(Clone, Copy, PartialEq, Eq, Structural, Debug)]
pub struct RainParticle {
    /// Column in sub-cell units: the column cell is `pos_x / glyphs.len()`.
    pub pos_x: u64,
    /// Row in sub-cell units: the row cell is `pos_y / glyphs.len()`.
    pub pos_y: u64,
    /// Index into the glyph ramp; fixed for the particle's lifetime.
    pub character_idx: usize,
    /// Whether the particle is rendered this frame.
    pub alive: bool,
}

/// The particle population of a `width` by `height` grid at density
/// `num / den`: one particle per `den / num` cells, rounded down.
pub open spec fn particle_count(width: u16, height: u16, num: u32, den: u32) -> int {
    (width as int * height as int * num as int) / den as int
}

/// The particle's glyph index points into a ramp of `n_glyphs` glyphs and
/// its position lies inside the grid, in sub-cell units.
pub open spec fn particle_in_bounds(p: RainParticle, width: u16, height: u16, n_glyphs: int) -> bool {
    &&& p.character_idx < n_glyphs
    &&& p.pos_x < width * n_glyphs
    &&& p.pos_y < height * n_glyphs
}

/// What one tick does to one particle: the glyph index is untouched; a
/// particle that turns from dead to alive respawns somewhere inside the
/// grid; any other particle keeps its column and advances its row by
/// `character_idx + 1` sub-cells, wrapping at the grid height. The new
/// `alive` flag itself is a random draw and unconstrained.
pub open spec fn tick_step(pre: RainParticle, post: RainParticle, width: u16, height: u16, n_glyphs: int) -> bool {
    &&& post.character_idx == pre.character_idx
    &&& if !pre.alive && post.alive {
            post.pos_x < width * n_glyphs && post.pos_y < height * n_glyphs
        } else {
            post.pos_x == pre.pos_x
                && post.pos_y == (pre.pos_y + pre.character_idx + 1) % (height * n_glyphs)
        }
}

/// A field of rain particles over a terminal grid, together with the glyph
/// ramp and the density it was built from, so a resize can rebuild it.
pub struct ParticleField {
    pub particles: Vec<RainParticle>,
    pub width: u16,
    pub height: u16,
    /// The glyph ramp, ordered far/slow to near/fast.
    pub glyphs: Vec<char>,
    /// Numerator of the particle density.
    pub density_num: u32,
    /// Denominator of the particle density.
    pub density_den: u32,
}

/// What one tick does to the whole field: the grid, ramp and density are
/// untouched, the population is fixed, and every particle moves by
/// `tick_step`.
pub open spec fn tick_rel(pre: ParticleField, post: ParticleField) -> bool {
    &&& post.width == pre.width
    &&& post.height == pre.height
    &&& post.glyphs@ == pre.glyphs@
    &&& post.density_num == pre.density_num
    &&& post.density_den == pre.density_den
    &&& post.particles@.len() == pre.particles@.len()
    &&& forall|i: int|
        0 <= i < pre.particles@.len() ==> tick_step(
            pre.particles@[i],
            post.particles@[i],
            pre.width,
            pre.height,
            pre.glyphs@.len() as int,
        )
}

impl ParticleField {
    /// The field's invariant: a usable ramp and density, a population that
    /// matches the grid area and density, and every particle inside the
    /// grid.
    pub open spec fn wf(self) -> bool {
        &&& 1 <= self.glyphs@.len() <= 0xffff_ffff
        &&& 1 <= self.density_den
        &&& self.density_num <= self.density_den
        &&& self.particles@.len() == particle_count(self.width, self.height, self.density_num, self.density_den)
        &&& forall|i: int|
            0 <= i < self.particles@.len() ==> particle_in_bounds(
                #[trigger] self.particles@[i],
                self.width,
                self.height,
                self.glyphs@.len() as int,
            )
    }

    /// Build the field for a grid: `area * density` particles, each placed
    /// uniformly inside the grid with a uniformly drawn glyph, and alive
    /// with the low spawn chance so the field starts mostly empty.
    pub fn create(width: u16, height: u16, density_num: u32, density_den: u32, glyphs: Vec<char>, rng: &mut rand::rngs::ThreadRng) -> (field: ParticleField)
        requires
            1 <= glyphs@.len() <= 0xffff_ffff,
            1 <= density_den,
            density_num <= density_den,
        ensures
            field.wf(),
            field.width == width,
            field.height == height,
            field.glyphs@ == glyphs@,
            field.density_num == density_num,
            field.density_den == density_den,
    {
        let particles = sample_particles(width, height, density_num, density_den, glyphs.len(), rng);
        ParticleField { particles, width, height, glyphs, density_num, density_den }
    }

    /// Advance the whole field by one tick: every particle independently
    /// redraws its `alive` flag with the high persistence chance, respawns
    /// at a fresh spot on a dead-to-alive transition, and otherwise falls by
    /// its glyph's speed, wrapping vertically.
    pub fn tick(&mut self, rng: &mut rand::rngs::ThreadRng)
        requires
            old(self).wf(),
        ensures
            final(self).wf(),
            tick_rel(*old(self), *final(self)),
    {
        proof {
            if self.particles@.len() >= 1 {
                lemma_positive_count_dims(self.width, self.height, self.density_num, self.density_den);
            }
        }
        let advanced = advance_particles(&self.particles, self.width, self.height, self.glyphs.len(), rng);
        self.particles = advanced;
        proof {
            lemma_tick_preserves_bounds(*old(self), *self);
        }
    }

    /// Resize handling: when the observed grid differs from the field's
    /// current grid, the whole field is rebuilt for the observed grid with
    /// freshly sampled particles; otherwise nothing changes.
    pub fn sync_size(&mut self, observed_width: u16, observed_height: u16, rng: &mut rand::rngs::ThreadRng)
        requires
            old(self).wf(),
        ensures
            final(self).wf(),
            final(self).width == observed_width,
            final(self).height == observed_height,
            final(self).glyphs@ == old(self).glyphs@,
            final(self).density_num == old(self).density_num,
            final(self).density_den == old(self).density_den,
            final(self).particles@.len() == particle_count(observed_width, observed_height, old(self).density_num, old(self).density_den),
            (observed_width == old(self).width && observed_height == old(self).height) ==> *final(self) == *old(self),
    {
        if self.width != observed_width || self.height != observed_height {
            let fresh = sample_particles(observed_width, observed_height, self.density_num, self.density_den, self.glyphs.len(), rng);
            self.particles = fresh;
            self.width = observed_width;
            self.height = observed_height;
        }
    }
}

/// A population for a `width` by `height` grid: `area * density` particles,
/// each uniformly placed, with a uniform glyph index and a low-chance alive
/// flag.
fn sample_particles(width: u16, height: u16, density_num: u32, density_den: u32, glyph_count: usize, rng: &mut rand::rngs::ThreadRng) -> (particles: Vec<RainParticle>)
    requires
        1 <= glyph_count <= 0xffff_ffff,
        1 <= density_den,
        density_num <= density_den,
    ensures
        particles@.len() == particle_count(width, height, density_num, density_den),
        forall|i: int|
            0 <= i < particles@.len() ==> particle_in_bounds(
                #[trigger] particles@[i],
                width,
                height,
                glyph_count as int,
            ),
{
    proof {
        lemma_count_bounds(width, height, density_num, density_den);
    }
    let area: u64 = (width as u64) * (height as u64);
    let count: u64 = area * (density_num as u64) / (density_den as u64);
    let total: usize = count as usize;
    let mut particles: Vec<RainParticle> = Vec::new();
    if total == 0 {
        return particles;
    }
    proof {
        lemma_positive_count_dims(width, height, density_num, density_den);
        lemma_grid_bounds_fit(width, height, glyph_count as int);
    }
    let n_glyphs: u64 = glyph_count as u64;
    let x_bound: u64 = (width as u64) * n_glyphs;
    let y_bound: u64 = (height as u64) * n_glyphs;
    assert(1 <= x_bound && 1 <= y_bound) by (nonlinear_arith)
        requires
            x_bound == width * n_glyphs,
            y_bound == height * n_glyphs,
            1 <= width,
            1 <= height,
            1 <= n_glyphs;
    let mut i: usize = 0;
    while i < total
        invariant
            i <= total,
            1 <= glyph_count <= 0xffff_ffff,
            n_glyphs == glyph_count,
            x_bound == width * n_glyphs,
            y_bound == height * n_glyphs,
            1 <= x_bound,
            1 <= y_bound,
            particles@.len() == i,
            forall|j: int|
                0 <= j < i ==> particle_in_bounds(
                    #[trigger] particles@[j],
                    width,
                    height,
                    glyph_count as int,
                ),
        decreases total - i,
    {
        let pos_x = sample_below(rng, x_bound);
        let pos_y = sample_below(rng, y_bound);
        let idx = sample_below(rng, n_glyphs);
        let alive = sample_ratio(rng, SPAWN_ALIVE_NUM, ALIVE_DEN);
        particles.push(RainParticle { pos_x, pos_y, character_idx: idx as usize, alive });
        i = i + 1;
    }
    particles
}

/// One tick's pass over the particles, against a grid known to be non-empty
/// whenever there are particles at all.
fn advance_particles(particles: &Vec<RainParticle>, width: u16, height: u16, glyph_count: usize, rng: &mut rand::rngs::ThreadRng) -> (out: Vec<RainParticle>)
    requires
        1 <= glyph_count <= 0xffff_ffff,
        particles@.len() >= 1 ==> 1 <= width && 1 <= height,
        forall|i: int|
            0 <= i < particles@.len() ==> particle_in_bounds(
                #[trigger] particles@[i],
                width,
                height,
                glyph_count as int,
            ),
    ensures
        out@.len() == particles@.len(),
        forall|i: int|
            0 <= i < particles@.len() ==> tick_step(
                particles@[i],
                out@[i],
                width,
                height,
                glyph_count as int,
            ),
{
    let len = particles.len();
    let mut out: Vec<RainParticle> = Vec::new();
    if len == 0 {
        return out;
    }
    proof {
        lemma_grid_bounds_fit(width, height, glyph_count as int);
    }
    let n_glyphs: u64 = glyph_count as u64;
    let x_bound: u64 = (width as u64) * n_glyphs;
    let y_bound: u64 = (height as u64) * n_glyphs;
    assert(1 <= y_bound && 1 <= x_bound) by (nonlinear_arith)
        requires
            x_bound == width * n_glyphs,
            y_bound == height * n_glyphs,
            1 <= width,
            1 <= height,
            1 <= n_glyphs;
    let mut i: usize = 0;
    while i < len
        invariant
            i <= len,
            len == particles@.len(),
            1 <= glyph_count <= 0xffff_ffff,
            n_glyphs == glyph_count,
            x_bound == width * n_glyphs,
            y_bound == height * n_glyphs,
            1 <= x_bound,
            1 <= y_bound,
            width * n_glyphs <= 0xffff * 0xffff_ffff,
            height * n_glyphs <= 0xffff * 0xffff_ffff,
            forall|k: int|
                0 <= k < particles@.len() ==> particle_in_bounds(
                    #[trigger] particles@[k],
                    width,
                    height,
                    glyph_count as int,
                ),
            out@.len() == i,
            forall|k: int|
                0 <= k < i ==> tick_step(
                    particles@[k],
                    #[trigger] out@[k],
                    width,
                    height,
                    glyph_count as int,
                ),
        decreases len - i,
    {
        let p = particles[i];
        assert(particle_in_bounds(particles@[i as int], width, height, glyph_count as int));
        let alive = sample_ratio(rng, TICK_ALIVE_NUM, ALIVE_DEN);
        let next = if !p.alive && alive {
            RainParticle {
                pos_x: sample_below(rng, x_bound),
                pos_y: sample_below(rng, y_bound),
                character_idx: p.character_idx,
                alive,
            }
        } else {
            RainParticle {
                pos_x: p.pos_x,
                pos_y: (p.pos_y + (p.character_idx as u64) + 1) % y_bound,
                character_idx: p.character_idx,
                alive,
            }
        };
        out.push(next);
        i = i + 1;
    }
    out
}

/// Law of the tick: across any chain of fields in which each is one tick of
/// the one before it, every particle keeps its glyph index — the glyph
/// identity is fixed when the particle is made and no number of ticks
/// changes it.
pub proof fn lemma_glyph_index_invariant(chain: Seq<ParticleField>)
    requires
        1 <= chain.len(),
        forall|k: int| 0 <= k < chain.len() - 1 ==> #[trigger] tick_rel(chain[k], chain[k + 1]),
    ensures
        chain.last().particles@.len() == chain.first().particles@.len(),
        forall|i: int|
            0 <= i < chain.first().particles@.len()
                ==> chain.last().particles@[i].character_idx
                    == chain.first().particles@[i].character_idx,
    decreases chain.len(),
{
    if chain.len() == 1 {
        assert(chain.last() == chain.first());
    } else {
        let prefix = chain.drop_last();
        assert(prefix.first() == chain.first());
        assert forall|k: int| 0 <= k < prefix.len() - 1 implies #[trigger] tick_rel(prefix[k], prefix[k + 1]) by {
            assert(prefix[k] == chain[k]);
            assert(prefix[k + 1] == chain[k + 1]);
            assert(tick_rel(chain[k], chain[k + 1]));
        }
        lemma_glyph_index_invariant(prefix);
        let pre = chain[chain.len() - 2];
        let post = chain.last();
        assert(tick_rel(chain[chain.len() - 2], chain[chain.len() - 2 + 1]));
        assert(prefix.last() == pre);
        assert forall|i: int| 0 <= i < chain.first().particles@.len() implies post.particles@[i].character_idx == chain.first().particles@[i].character_idx by {
            assert(tick_step(
                pre.particles@[i],
                post.particles@[i],
                pre.width,
                pre.height,
                pre.glyphs@.len() as int,
            ));
        }
    }
}

/// The particle population never exceeds the grid area, which itself fits
/// comfortably in a machine word, and the area-times-density product the
/// population is computed from fits in 64 bits.
proof fn lemma_count_bounds(width: u16, height: u16, num: u32, den: u32)
    requires
        1 <= den,
        num <= den,
    ensures
        0 <= particle_count(width, height, num, den) <= width * height,
        width * height <= 0xfffe_0001,
        width * height * num <= 0xfffe_0001 * 0xffff_ffff,
{
    let area = width as int * height as int;
    assert(0 <= area <= 0xfffe_0001) by (nonlinear_arith)
        requires
            area == width as int * height as int,
            width <= 0xffff,
            height <= 0xffff,
            0 <= width,
            0 <= height;
    assert(0 <= area * num <= 0xfffe_0001 * 0xffff_ffff) by (nonlinear_arith)
        requires 0 <= area <= 0xfffe_0001 && 0 <= num <= 0xffff_ffff;
    assert(area * num <= area * den) by (nonlinear_arith)
        requires 0 <= area && num <= den;
    vstd::arithmetic::div_mod::lemma_div_is_ordered(area * num, area * den, den as int);
    vstd::arithmetic::div_mod::lemma_div_multiples_vanish(area, den as int);
    assert(area * den == den as int * area) by (nonlinear_arith);
    assert((area * den) / (den as int) == area);
    assert(0 <= (area * num) / (den as int)) by (nonlinear_arith)
        requires 0 <= area * num && 1 <= den;
}

/// A grid that holds at least one particle has at least one column and one
/// row.
proof fn lemma_positive_count_dims(width: u16, height: u16, num: u32, den: u32)
    requires
        1 <= den,
        1 <= particle_count(width, height, num, den),
    ensures
        1 <= width,
        1 <= height,
{
    if width == 0 || height == 0 {
        assert(width * height * num == 0) by (nonlinear_arith)
            requires width == 0 || height == 0;
        assert(particle_count(width, height, num, den) == 0);
    }
}

/// Grid bounds in sub-cell units fit in 64 bits.
proof fn lemma_grid_bounds_fit(width: u16, height: u16, n_glyphs: int)
    requires
        0 <= n_glyphs <= 0xffff_ffff,
    ensures
        0 <= width * n_glyphs <= 0xffff * 0xffff_ffff,
        0 <= height * n_glyphs <= 0xffff * 0xffff_ffff,
{
    assert(0 <= width * n_glyphs <= 0xffff * 0xffff_ffff) by (nonlinear_arith)
        requires 0 <= width <= 0xffff && 0 <= n_glyphs <= 0xffff_ffff;
    assert(0 <= height * n_glyphs <= 0xffff * 0xffff_ffff) by (nonlinear_arith)
        requires 0 <= height <= 0xffff && 0 <= n_glyphs <= 0xffff_ffff;
}

/// A tick keeps every particle inside the grid: a respawned particle is
/// sampled inside it, and an advanced particle wraps modulo the grid height.
proof fn lemma_tick_preserves_bounds(pre: ParticleField, post: ParticleField)
    requires
        pre.wf(),
        tick_rel(pre, post),
    ensures
        post.wf(),
{
    let n = pre.glyphs@.len() as int;
    assert forall|i: int| 0 <= i < post.particles@.len() implies particle_in_bounds(
        #[trigger] post.particles@[i],
        post.width,
        post.height,
        post.glyphs@.len() as int,
    ) by {
        let p = pre.particles@[i];
        let q = post.particles@[i];
        assert(particle_in_bounds(p, pre.width, pre.height, n));
        assert(tick_step(p, q, pre.width, pre.height, n));
        if !(!p.alive && q.alive) {
            lemma_positive_count_dims(pre.width, pre.height, pre.density_num, pre.density_den);
            assert(1 <= pre.height * n) by (nonlinear_arith)
                requires 1 <= pre.height && 1 <= n;
            vstd::arithmetic::div_mod::lemma_mod_bound(p.pos_y + p.character_idx + 1, pre.height * n);
        }
    }
}

} // verus!
