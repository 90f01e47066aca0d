//! The color ramp: one grayscale shade per glyph of the ramp, dim for the
//! far/slow glyphs and bright for the near/fast ones.

use vstd::prelude::*;

verus! {

/// A color with equal red, green and blue channels everywhere it is built
/// here; kept as three channels so a caller can hand it to any terminal
/// styling API.
#[derive(Clone, Copy, PartialEq, Eq, Structural, Debug)]
pub struct Rgb {
    pub r: u8,
    pub g: u8,
    pub b: u8,
}

/// The grayscale shade of glyph `n` out of `count`: the unit interval is cut
/// into `count + 1` equal parts and the point `(n + 1) / (count + 1)` is
/// scaled to the channel range, truncating. Always below 255 for
/// `0 <= n < count`.
pub open spec fn shade(n: int, count: int) -> int {
    (255 * (n + 1)) / (count + 1)
}

/// One grayscale color per glyph, brightness proportional to the glyph's
/// place in the far-to-near ordering.
pub fn create_color_map(glyph_count: usize) -> (colors: Vec<Rgb>)
    requires
        1 <= glyph_count <= 0xffff_ffff,
    ensures
        colors@.len() == glyph_count,
        forall|n: int|
            0 <= n < glyph_count ==> {
                &&& (#[trigger] colors@[n]).r == shade(n, glyph_count as int)
                &&& colors@[n].g == colors@[n].r
                &&& colors@[n].b == colors@[n].r
            },
{
    let mut colors: Vec<Rgb> = Vec::new();
    let den: u64 = glyph_count as u64 + 1;
    let mut n: usize = 0;
    while n < glyph_count
        invariant
            n <= glyph_count,
            glyph_count <= 0xffff_ffff,
            den == glyph_count as u64 + 1,
            colors@.len() == n,
            forall|j: int|
                0 <= j < n ==> {
                    &&& (#[trigger] colors@[j]).r == shade(j, glyph_count as int)
                    &&& colors@[j].g == colors@[j].r
                    &&& colors@[j].b == colors@[j].r
                },
        decreases glyph_count - n,
    {
        let num: u64 = 255 * (n as u64 + 1);
        let s: u64 = num / den;
        proof {
            lemma_shade_below_255(n as int, glyph_count as int);
        }
        let shade_byte: u8 = s as u8;
        colors.push(Rgb { r: shade_byte, g: shade_byte, b: shade_byte });
        n = n + 1;
    }
    colors
}

/// The shade of any glyph of the ramp fits in a byte: it stays strictly
/// below 255.
pub proof fn lemma_shade_below_255(n: int, count: int)
    requires
        0 <= n < count,
    ensures
        0 <= shade(n, count) < 255,
{
    assert(255 * (n + 1) <= 255 * count) by (nonlinear_arith)
        requires n + 1 <= count && 0 <= n;
    assert(255 * count < 255 * (count + 1)) by (nonlinear_arith)
        requires 0 < count;
    assert((255 * (n + 1)) / (count + 1) < 255) by (nonlinear_arith)
        requires
            0 < count + 1,
            0 <= 255 * (n + 1),
            255 * (n + 1) < 255 * (count + 1);
    assert(0 <= (255 * (n + 1)) / (count + 1)) by (nonlinear_arith)
        requires 0 <= 255 * (n + 1) && 0 < count + 1;
}

/// Law of the ramp: as long as the ramp has at most 255 glyphs, brightness
/// strictly increases with the glyph index, so the far-to-near ordering of
/// the glyphs maps to a dim-to-bright ordering of their colors.
pub proof fn lemma_shade_strictly_increasing(n: int, count: int)
    requires
        0 <= n,
        n + 1 < count,
        count <= 255,
    ensures
        shade(n, count) < shade(n + 1, count),
{
    let m = count + 1;
    let a = 255 * (n + 1);
    if count <= 254 {
        let q = a / m;
        let r = a % m;
        vstd::arithmetic::div_mod::lemma_fundamental_div_mod(a, m);
        assert(a == q * m + r);
        assert(0 <= r < m) by {
            vstd::arithmetic::div_mod::lemma_mod_bound(a, m);
        }
        assert(0 <= q) by (nonlinear_arith)
            requires a == q * m + r && 0 <= a && 0 <= r < m;
        // One ramp step raises the numerator by 255, at least the
        // denominator here, so the quotient must rise.
        assert(255 * (n + 2) == a + 255);
        assert((q + 1) * m + r == a + m) by (nonlinear_arith)
            requires a == q * m + r;
        vstd::arithmetic::div_mod::lemma_fundamental_div_mod_converse(
            (q + 1) * m + r, m, q + 1, r);
        assert((a + m) / m == q + 1);
        vstd::arithmetic::div_mod::lemma_div_is_ordered(a + m, a + 255, m);
        assert(shade(n + 1, count) >= q + 1);
    } else {
        // A ramp of exactly 255 glyphs: the shade of glyph `k` works out to
        // `k` itself, which is strictly increasing.
        assert(m == 256);
        lemma_shade_full_ramp(n);
        lemma_shade_full_ramp(n + 1);
    }
}

/// With a ramp of 255 glyphs the shade of glyph `k` is exactly `k`.
proof fn lemma_shade_full_ramp(k: int)
    requires
        0 <= k <= 254,
    ensures
        shade(k, 255) == k,
{
    assert(255 * (k + 1) == k * 256 + (255 - k)) by (nonlinear_arith);
    vstd::arithmetic::div_mod::lemma_fundamental_div_mod_converse(
        k * 256 + (255 - k), 256, k, 255 - k);
}

} // verus!
