use vstd::prelude::*;

use crate::Pixel;
use crate::gamma::gamma_expand_spec;
use crate::gamma::lemma_gamma_strictly_increasing;
use crate::palette::extract_spec;
use crate::palette::first_index_spec;
use crate::palette::lemma_first_index;
use crate::remap::blend_channel_spec;
use crate::remap::blend_num;
use crate::remap::blend_search;
use crate::remap::recolor;
use crate::remap::remap_denom;
use crate::remap::remap_grid_spec;
use crate::remap::remap_pixel_spec;
use crate::remap::target_num;

verus! {

/// Extraction is deterministic: equal pixel sequences yield the same
/// palette, entry for entry.
pub proof fn lemma_extract_deterministic(s1: Seq<Pixel>, s2: Seq<Pixel>)
    requires
        s1 == s2,
    ensures
        extract_spec(s1) == extract_spec(s2),
{
}

/// Remapping is deterministic: equal inputs yield the same output grid,
/// texel for texel.
pub proof fn lemma_remap_deterministic(
    px1: Seq<Pixel>,
    px2: Seq<Pixel>,
    tex: Seq<Pixel>,
    refp: Seq<Pixel>,
    interpolate: bool,
)
    requires
        px1 == px2,
    ensures
        remap_grid_spec(px1, tex, refp, interpolate) == remap_grid_spec(
            px2,
            tex,
            refp,
            interpolate,
        ),
{
}

/// Alpha preservation: a transparent texel maps to the zero pixel, and
/// every other texel keeps its own alpha exactly.
pub proof fn lemma_alpha_preserved(p: Pixel, tex: Seq<Pixel>, refp: Seq<Pixel>, interpolate: bool)
    ensures
        p.a == 0 ==> remap_pixel_spec(p, tex, refp, interpolate) == (Pixel {
            r: 0,
            g: 0,
            b: 0,
            a: 0,
        }),
        p.a != 0 ==> remap_pixel_spec(p, tex, refp, interpolate).a == p.a,
{
}

/// With a single-entry reference palette, every non-transparent texel
/// takes that entry, with its own alpha, in either mode.
pub proof fn lemma_single_reference(p: Pixel, tex: Seq<Pixel>, refp: Seq<Pixel>, interpolate: bool)
    requires
        p.a != 0,
        tex.len() >= 1,
        refp.len() == 1,
    ensures
        remap_pixel_spec(p, tex, refp, interpolate) == recolor(refp[0], p.a),
{
    let i = first_index_spec(tex, p);
    let n = tex.len() as int;
    let q = remap_denom(n);
    assert(target_num(i, n, 1) == 0);
    assert(q >= 1);
    vstd::arithmetic::div_mod::lemma_div_multiples_vanish(0, q);
    assert(q * 0 == 0);
    assert(0int / q == 0);
    vstd::arithmetic::div_mod::lemma_fundamental_div_mod(0, q);
    assert(0int % q == 0);
}

/// With identical texture and reference palettes, nearest mode reproduces
/// every non-transparent texel exactly.
pub proof fn lemma_identical_palettes(p: Pixel, pal: Seq<Pixel>)
    requires
        p.a != 0,
        pal.contains(p),
    ensures
        remap_pixel_spec(p, pal, pal, false) == p,
{
    let i = first_index_spec(pal, p);
    lemma_first_index(pal, p);
    let n = pal.len() as int;
    let q = remap_denom(n);
    if n == 1 {
        vstd::arithmetic::div_mod::lemma_fundamental_div_mod(0, 1);
        assert(recolor(pal[0], p.a) == p);
    } else {
        let t = target_num(i, n, n);
        assert(t == i * q);
        vstd::arithmetic::div_mod::lemma_div_multiples_vanish(i, q);
        assert(q * i == i * q);
        assert(t / q == i);
        vstd::arithmetic::div_mod::lemma_fundamental_div_mod(t, q);
        assert(t % q == 0);
        assert(recolor(pal[i], p.a) == p);
    }
}

/// The exact rational target index of adjacent texture-palette indices
/// differs by exactly the scale `(m - 1) / (n - 1)`: its numerator grows
/// by `m - 1` over the fixed denominator `n - 1`.
pub proof fn lemma_target_step(i: int, n: int, m: int)
    by (nonlinear_arith)
    requires
        n >= 2,
        0 <= i,
    ensures
        target_num(i + 1, n, m) - target_num(i, n, m) == m - 1,
{
}

/// A downward blend search below a known exact hit lands on it.
proof fn lemma_blend_search_exact(num: int, q: int, c: int, x: int)
    requires
        0 <= x <= c <= 255,
        q >= 1,
        gamma_expand_spec(x) * q <= num,
        forall|d: int| x < d <= c ==> gamma_expand_spec(d) * q > num,
    ensures
        blend_search(num, q, c) == x,
    decreases c,
{
    if c > x {
        lemma_blend_search_exact(num, q, c - 1, x);
    }
}

/// Strict order is kept under multiplication by a positive factor.
proof fn lemma_mul_lt(a: int, b: int, q: int)
    by (nonlinear_arith)
    requires
        a < b,
        q >= 1,
    ensures
        a * q < b * q,
{
}

/// Interpolation continuity at whole-number targets: a blend with factor
/// zero returns its first endpoint channel exactly, so the interpolated
/// color at an integral target is the reference entry itself.
pub proof fn lemma_blend_at_zero(x: u8, y: u8, q: int)
    requires
        q >= 1,
    ensures
        blend_channel_spec(x as int, y as int, 0, q) == x as int,
{
    let num = blend_num(x as int, y as int, 0, q);
    assert(gamma_expand_spec(y as int) * 0 == 0);
    assert(num == gamma_expand_spec(x as int) * q);
    assert forall|d: int| (x as int) < d <= 255 implies gamma_expand_spec(d) * q > num by {
        lemma_gamma_strictly_increasing(x as int, d);
        lemma_mul_lt(gamma_expand_spec(x as int), gamma_expand_spec(d), q);
    }
    lemma_blend_search_exact(num, q, 255, x as int);
}

} // verus!
