use vstd::prelude::*;

use crate::Pixel;
use crate::gamma::gamma_expand;
use crate::gamma::gamma_expand_spec;
use crate::gamma::gamma_max;
use crate::grid::Grid;
use crate::palette::find_index;
use crate::palette::first_index_spec;

verus! {

/// A reference-palette color with its alpha replaced by the source texel's.
pub open spec fn recolor(c: Pixel, alpha: u8) -> Pixel {
    Pixel { r: c.r, g: c.g, b: c.b, a: alpha }
}

/// Gamma-expanded value of the blend of channels `x1` and `x2` with factor
/// `rem / q`, scaled by `q`: `g(x1) * (q - rem) + g(x2) * rem`.
pub open spec fn blend_num(x1: int, x2: int, rem: int, q: int) -> int {
    gamma_expand_spec(x1) * (q - rem) + gamma_expand_spec(x2) * rem
}

/// Largest candidate in `0 ..= c` whose gamma expansion, scaled by `q`,
/// does not exceed `num`; `0` when none does.
pub open spec fn blend_search(num: int, q: int, c: int) -> int
    decreases c,
{
    if c <= 0 {
        0
    } else if gamma_expand_spec(c) * q <= num {
        c
    } else {
        blend_search(num, q, c - 1)
    }
}

/// The blended channel: the largest 8-bit value whose gamma expansion does
/// not exceed the interpolated gamma value — truncation toward zero in the
/// gamma domain.
pub open spec fn blend_channel_spec(x1: int, x2: int, rem: int, q: int) -> int {
    blend_search(blend_num(x1, x2, rem, q), q, 255)
}

/// The gamma-correct blend of two colors with factor `rem / q`. Its alpha
/// is a placeholder; the remapper always replaces it with the texel's.
pub open spec fn blend_spec(c1: Pixel, c2: Pixel, rem: int, q: int) -> Pixel {
    Pixel {
        r: blend_channel_spec(c1.r as int, c2.r as int, rem, q) as u8,
        g: blend_channel_spec(c1.g as int, c2.g as int, rem, q) as u8,
        b: blend_channel_spec(c1.b as int, c2.b as int, rem, q) as u8,
        a: 1,
    }
}

/// The result of a blend search stays within the candidate range.
pub proof fn lemma_blend_search_range(num: int, q: int, c: int)
    ensures
        0 <= blend_search(num, q, c),
        blend_search(num, q, c) <= c || blend_search(num, q, c) == 0,
    decreases c,
{
    if c > 0 && gamma_expand_spec(c) * q > num {
        lemma_blend_search_range(num, q, c - 1);
    }
}

/// Multiplication keeps order on non-negative values.
proof fn lemma_mul_le(a: int, b: int, aa: int, bb: int)
    by (nonlinear_arith)
    requires
        0 <= a <= aa,
        0 <= b <= bb,
    ensures
        a * b <= aa * bb,
{
}

/// Blends one channel pair with factor `rem / q`.
fn blend_channel(x1: u8, x2: u8, rem: u64, q: u64) -> (r: u8)
    requires
        0 < rem,
        rem < q,
    ensures
        r as int == blend_channel_spec(x1 as int, x2 as int, rem as int, q as int),
{
    let g1: u128 = gamma_expand(x1) as u128;
    let g2: u128 = gamma_expand(x2) as u128;
    let qq: u128 = q as u128;
    let rr: u128 = rem as u128;
    proof {
        lemma_mul_le(g1 as int, (qq - rr) as int, gamma_max(), u64::MAX as int);
        lemma_mul_le(g2 as int, rr as int, gamma_max(), u64::MAX as int);
    }
    let num: u128 = g1 * (qq - rr) + g2 * rr;
    let ghost num_i: int = blend_num(x1 as int, x2 as int, rem as int, q as int);
    let mut c: u8 = 255;
    while c > 0
        invariant
            num == num_i,
            num_i == blend_num(x1 as int, x2 as int, rem as int, q as int),
            qq == q,
            blend_search(num_i, q as int, 255) == blend_search(num_i, q as int, c as int),
        decreases c,
    {
        let gc: u128 = gamma_expand(c) as u128;
        proof {
            lemma_mul_le(gc as int, qq as int, gamma_max(), u64::MAX as int);
        }
        if gc * qq <= num {
            return c;
        }
        c = c - 1;
    }
    0
}

/// Linearly interpolates two colors in the gamma-expanded domain with
/// factor `rem / q`, truncating each result channel toward zero. The
/// returned alpha is the placeholder 1, as the remapper overwrites it.
pub fn color_interpolate(px1: &Pixel, px2: &Pixel, rem: u64, q: u64) -> (r: Pixel)
    requires
        0 < rem,
        rem < q,
    ensures
        r == blend_spec(*px1, *px2, rem as int, q as int),
{
    let rc = blend_channel(px1.r, px2.r, rem, q);
    let gc = blend_channel(px1.g, px2.g, rem, q);
    let bc = blend_channel(px1.b, px2.b, rem, q);
    proof {
        lemma_blend_search_range(
            blend_num(px1.r as int, px2.r as int, rem as int, q as int),
            q as int,
            255,
        );
        lemma_blend_search_range(
            blend_num(px1.g as int, px2.g as int, rem as int, q as int),
            q as int,
            255,
        );
        lemma_blend_search_range(
            blend_num(px1.b as int, px2.b as int, rem as int, q as int),
            q as int,
            255,
        );
    }
    Pixel { r: rc, g: gc, b: bc, a: 1 }
}

/// Numerator of the target reference-palette index of texture-palette
/// index `i`: the exact rational target is this over `remap_denom(n)`.
/// A single-entry texture palette routes every texel to reference index 0.
pub open spec fn target_num(i: int, n: int, m: int) -> int {
    if n == 1 {
        0
    } else {
        i * (m - 1)
    }
}

/// Denominator of the target reference-palette index.
pub open spec fn remap_denom(n: int) -> int {
    if n == 1 {
        1
    } else {
        n - 1
    }
}

/// The output texel for input texel `p`: transparent texels stay at the
/// grid's zero value; any other texel takes the reference color at its
/// rescaled palette position — rounded half away from zero in nearest
/// mode, blended between the two bracketing entries in interpolation
/// mode — and always keeps its own alpha.
pub open spec fn remap_pixel_spec(p: Pixel, tex: Seq<Pixel>, refp: Seq<Pixel>, interpolate: bool) -> Pixel {
    if p.a == 0 {
        Pixel { r: 0, g: 0, b: 0, a: 0 }
    } else {
        let i = first_index_spec(tex, p);
        let n = tex.len() as int;
        let m = refp.len() as int;
        let q = remap_denom(n);
        let t = target_num(i, n, m);
        let lo = t / q;
        let rem = t % q;
        if interpolate {
            if rem == 0 {
                recolor(refp[lo], p.a)
            } else {
                recolor(blend_spec(refp[lo], refp[lo + 1], rem, q), p.a)
            }
        } else {
            let idx = if 2 * rem >= q {
                lo + 1
            } else {
                lo
            };
            recolor(refp[idx], p.a)
        }
    }
}

/// The whole remapped grid, texel by texel.
pub open spec fn remap_grid_spec(pixels: Seq<Pixel>, tex: Seq<Pixel>, refp: Seq<Pixel>, interpolate: bool) -> Seq<Pixel> {
    Seq::new(pixels.len(), |k: int| remap_pixel_spec(pixels[k], tex, refp, interpolate))
}

/// The rational target index never overshoots the last reference entry,
/// and a strictly fractional target leaves room for the entry above it.
pub proof fn lemma_target_bounds(i: int, n: int, m: int)
    requires
        0 <= i < n,
        1 <= m,
    ensures
        0 <= target_num(i, n, m),
        target_num(i, n, m) <= remap_denom(n) * (m - 1),
        0 <= target_num(i, n, m) / remap_denom(n) <= m - 1,
        target_num(i, n, m) % remap_denom(n) != 0 ==> target_num(i, n, m) / remap_denom(n) < m - 1,
{
    let q = remap_denom(n);
    let t = target_num(i, n, m);
    if n == 1 {
    } else {
        assert(0 <= t) by (nonlinear_arith)
            requires
                0 <= i,
                1 <= m,
                t == i * (m - 1),
        ;
        lemma_mul_le(i, m - 1, q, m - 1);
        assert(t <= q * (m - 1)) by (nonlinear_arith)
            requires
                i * (m - 1) <= q * (m - 1),
                t == i * (m - 1),
        ;
    }
    vstd::arithmetic::div_mod::lemma_fundamental_div_mod(t, q);
    let lo = t / q;
    let rem = t % q;
    assert(0 <= rem < q) by {
        vstd::arithmetic::div_mod::lemma_mod_bound(t, q);
    }
    assert(0 <= lo && lo <= m - 1 && (rem != 0 ==> lo < m - 1)) by (nonlinear_arith)
        requires
            t == q * lo + rem,
            0 <= rem < q,
            0 <= t,
            t <= q * (m - 1),
            0 < q,
    ;
}

/// Recolors every texel of `img` by mapping its position in `texture` onto
/// the corresponding position in `palette`, keeping each texel's alpha and
/// leaving transparent texels at the zero pixel.
pub fn merge_palette(img: &Grid, texture: &Vec<Pixel>, palette: &Vec<Pixel>, interpolate: bool) -> (out: Grid)
    requires
        img.wf(),
        texture@.len() >= 1,
        palette@.len() >= 1,
        forall|k: int|
            0 <= k < img.pixels@.len() && img.pixels@[k].a != 0 ==> texture@.contains(
                img.pixels@[k],
            ),
    ensures
        out.wf(),
        out.width == img.width,
        out.height == img.height,
        out.pixels@ == remap_grid_spec(img.pixels@, texture@, palette@, interpolate),
{
    let n_px: usize = img.pixels.len();
    let mut out_px: Vec<Pixel> = Vec::new();
    let mut k: usize = 0;
    while k < n_px
        invariant
            k <= n_px,
            n_px == img.pixels@.len(),
            texture@.len() >= 1,
            palette@.len() >= 1,
            forall|j: int|
                0 <= j < img.pixels@.len() && img.pixels@[j].a != 0 ==> texture@.contains(
                    img.pixels@[j],
                ),
            out_px@.len() == k,
            forall|j: int|
                0 <= j < k ==> out_px@[j] == remap_pixel_spec(
                    img.pixels@[j],
                    texture@,
                    palette@,
                    interpolate,
                ),
        decreases n_px - k,
    {
        let p = img.pixels[k];
        let v: Pixel = if p.a == 0 {
            Pixel::transparent()
        } else {
            let i: usize = match find_index(texture, &p) {
                Some(i) => i,
                None => {
                    proof {
                        assert(texture@.contains(p));
                        assert(false);
                    }
                    0
                },
            };
            let n: usize = texture.len();
            let m: usize = palette.len();
            proof {
                lemma_target_bounds(i as int, n as int, m as int);
            }
            if n == 1 {
                let c = palette[0];
                Pixel { r: c.r, g: c.g, b: c.b, a: p.a }
            } else {
                let q: u128 = (n - 1) as u128;
                proof {
                    lemma_mul_le(i as int, (m - 1) as int, u64::MAX as int, u64::MAX as int);
                }
                let t: u128 = (i as u128) * ((m - 1) as u128);
                let lo128: u128 = t / q;
                let rem: u128 = t % q;
                proof {
                    assert(t == target_num(i as int, n as int, m as int));
                    assert(lo128 <= m - 1);
                    assert(rem < q);
                }
                let lo: usize = lo128 as usize;
                if interpolate {
                    if rem == 0 {
                        let c = palette[lo];
                        Pixel { r: c.r, g: c.g, b: c.b, a: p.a }
                    } else {
                        let c = color_interpolate(
                            &palette[lo],
                            &palette[lo + 1],
                            rem as u64,
                            q as u64,
                        );
                        Pixel { r: c.r, g: c.g, b: c.b, a: p.a }
                    }
                } else {
                    let bump: usize = if 2 * rem >= q {
                        1
                    } else {
                        0
                    };
                    let c = palette[lo + bump];
                    Pixel { r: c.r, g: c.g, b: c.b, a: p.a }
                }
            }
        };
        proof {
            assert(v == remap_pixel_spec(img.pixels@[k as int], texture@, palette@, interpolate));
        }
        out_px.push(v);
        k = k + 1;
    }
    let out = Grid { width: img.width, height: img.height, pixels: out_px };
    proof {
        assert(out.pixels@ =~= remap_grid_spec(img.pixels@, texture@, palette@, interpolate));
    }
    out
}

} // verus!
