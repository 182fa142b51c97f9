use vstd::prelude::*;

use crate::Pixel;
use crate::gamma::gamma_expand;
use crate::gamma::gamma_expand_spec;
use crate::gamma::gamma_max;
use crate::grid::Grid;

verus! {

/// Perceptual luminance of a pixel over the fixed-point gamma table:
/// `2126 * r^2.2 + 7152 * g^2.2 + 722 * b^2.2`, each power scaled by 128
/// and truncated, the weights scaled by 10000.
pub open spec fn lum_spec(p: Pixel) -> int {
    2126 * gamma_expand_spec(p.r as int) + 7152 * gamma_expand_spec(p.g as int) + 722
        * gamma_expand_spec(p.b as int)
}

/// Computes the luminance key of a pixel.
pub fn get_lum(p: &Pixel) -> (r: u64)
    ensures
        r == lum_spec(*p),
{
    2126 * gamma_expand(p.r) + 7152 * gamma_expand(p.g) + 722 * gamma_expand(p.b)
}

/// Position of the first entry equal to `p`; `s.len()` when `p` is absent.
pub open spec fn first_index_spec(s: Seq<Pixel>, p: Pixel) -> int
    decreases s.len(),
{
    if s.len() == 0 {
        0
    } else if s[0] == p {
        0
    } else {
        1 + first_index_spec(s.drop_first(), p)
    }
}

/// `first_index_spec` is the first matching position, and runs off the end
/// exactly when the needle is absent.
pub proof fn lemma_first_index(s: Seq<Pixel>, p: Pixel)
    ensures
        0 <= first_index_spec(s, p) <= s.len(),
        first_index_spec(s, p) < s.len() <==> s.contains(p),
        first_index_spec(s, p) < s.len() ==> s[first_index_spec(s, p)] == p,
        forall|j: int| 0 <= j < first_index_spec(s, p) ==> s[j] != p,
    decreases s.len(),
{
    if s.len() > 0 && s[0] != p {
        lemma_first_index(s.drop_first(), p);
        assert forall|j: int| 0 <= j < first_index_spec(s, p) implies s[j] != p by {
            if j > 0 {
                assert(s.drop_first()[j - 1] == s[j]);
            }
        }
        if s.contains(p) {
            let w = choose|w: int| 0 <= w < s.len() && s[w] == p;
            assert(s.drop_first()[w - 1] == p);
            assert(s.drop_first().contains(p));
        }
        if s.drop_first().contains(p) {
            let w = choose|w: int| 0 <= w < s.drop_first().len() && s.drop_first()[w] == p;
            assert(s[w + 1] == p);
        }
    }
}

/// Any position holding `p` with no earlier match is `first_index_spec`.
pub proof fn lemma_first_index_unique(s: Seq<Pixel>, p: Pixel, i: int)
    requires
        0 <= i < s.len(),
        s[i] == p,
        forall|j: int| 0 <= j < i ==> s[j] != p,
    ensures
        first_index_spec(s, p) == i,
    decreases s.len(),
{
    if s[0] == p {
        assert(i == 0);
    } else {
        assert(s[i] == p);
        assert(i >= 1);
        assert(s.drop_first()[i - 1] == p);
        assert forall|j: int| 0 <= j < i - 1 implies s.drop_first()[j] != p by {
            assert(s.drop_first()[j] == s[j + 1]);
        }
        lemma_first_index_unique(s.drop_first(), p, i - 1);
    }
}

/// Finds the position of the first entry of `vector` that is
/// componentwise-equal to `value`.
pub fn find_index(vector: &Vec<Pixel>, value: &Pixel) -> (r: Option<usize>)
    ensures
        match r {
            Some(i) => {
                &&& i < vector@.len()
                &&& vector@[i as int] == *value
                &&& i == first_index_spec(vector@, *value)
            },
            None => !vector@.contains(*value),
        },
{
    let n: usize = vector.len();
    let mut i: usize = 0;
    while i < n
        invariant
            i <= n,
            n == vector@.len(),
            forall|j: int| 0 <= j < i ==> vector@[j] != *value,
        decreases n - i,
    {
        if vector[i] == *value {
            proof {
                lemma_first_index_unique(vector@, *value, i as int);
            }
            return Some(i);
        }
        i = i + 1;
    }
    proof {
        if vector@.contains(*value) {
            let w = choose|w: int| 0 <= w < vector@.len() && vector@[w] == *value;
            assert(vector@[w] != *value);
        }
    }
    None
}

/// Position where a pixel of luminance `l` is inserted: just after every
/// entry whose luminance is `<= l`, so that a later arrival with a tied
/// luminance stands after the earlier one.
pub open spec fn insert_pos_spec(s: Seq<Pixel>, l: int) -> int
    decreases s.len(),
{
    if s.len() == 0 {
        0
    } else if lum_spec(s[0]) > l {
        0
    } else {
        1 + insert_pos_spec(s.drop_first(), l)
    }
}

/// `insert_pos_spec` is the first position whose luminance exceeds `l`.
pub proof fn lemma_insert_pos(s: Seq<Pixel>, l: int)
    ensures
        0 <= insert_pos_spec(s, l) <= s.len(),
        forall|j: int| 0 <= j < insert_pos_spec(s, l) ==> lum_spec(s[j]) <= l,
        insert_pos_spec(s, l) < s.len() ==> lum_spec(s[insert_pos_spec(s, l)]) > l,
    decreases s.len(),
{
    if s.len() > 0 && lum_spec(s[0]) <= l {
        lemma_insert_pos(s.drop_first(), l);
        assert forall|j: int| 0 <= j < insert_pos_spec(s, l) implies lum_spec(s[j]) <= l by {
            if j > 0 {
                assert(s.drop_first()[j - 1] == s[j]);
            }
        }
        if insert_pos_spec(s, l) < s.len() {
            assert(s.drop_first()[insert_pos_spec(s.drop_first(), l)] == s[insert_pos_spec(s, l)]);
        }
    }
}

/// Any position with the first-exceeding property is `insert_pos_spec`.
pub proof fn lemma_insert_pos_unique(s: Seq<Pixel>, l: int, pos: int)
    requires
        0 <= pos <= s.len(),
        forall|j: int| 0 <= j < pos ==> lum_spec(s[j]) <= l,
        pos < s.len() ==> lum_spec(s[pos]) > l,
    ensures
        insert_pos_spec(s, l) == pos,
    decreases s.len(),
{
    if s.len() == 0 {
    } else if lum_spec(s[0]) > l {
        assert(pos == 0);
    } else {
        assert(lum_spec(s[0]) <= l);
        assert(pos >= 1);
        assert forall|j: int| 0 <= j < pos - 1 implies lum_spec(s.drop_first()[j]) <= l by {
            assert(s.drop_first()[j] == s[j + 1]);
        }
        if pos - 1 < s.drop_first().len() {
            assert(s.drop_first()[pos - 1] == s[pos]);
        }
        lemma_insert_pos_unique(s.drop_first(), l, pos - 1);
    }
}

/// One step of palette extraction: a transparent or already-present pixel
/// leaves the palette unchanged; any other pixel is inserted at its
/// luminance position.
pub open spec fn palette_step(pal: Seq<Pixel>, p: Pixel) -> Seq<Pixel> {
    if p.a == 0 || pal.contains(p) {
        pal
    } else {
        pal.insert(insert_pos_spec(pal, lum_spec(p)), p)
    }
}

/// The palette extracted from a pixel sequence scanned left to right.
pub open spec fn extract_spec(s: Seq<Pixel>) -> Seq<Pixel>
    decreases s.len(),
{
    if s.len() == 0 {
        Seq::empty()
    } else {
        palette_step(extract_spec(s.drop_last()), s.last())
    }
}

/// Entries stand in non-decreasing luminance order.
pub open spec fn sorted_by_lum(s: Seq<Pixel>) -> bool {
    forall|i: int, j: int| 0 <= i <= j < s.len() ==> lum_spec(s[i]) <= lum_spec(s[j])
}

/// No two entries are componentwise-equal.
pub open spec fn distinct_entries(s: Seq<Pixel>) -> bool {
    forall|i: int, j: int| 0 <= i < j < s.len() ==> s[i] != s[j]
}

/// No entry is fully transparent.
pub open spec fn no_transparent(s: Seq<Pixel>) -> bool {
    forall|i: int| 0 <= i < s.len() ==> s[i].a != 0
}

/// One extraction step keeps the palette invariants, keeps every earlier
/// entry, and adds the new pixel when it qualifies.
pub proof fn lemma_palette_step(pal: Seq<Pixel>, p: Pixel)
    requires
        sorted_by_lum(pal),
        distinct_entries(pal),
        no_transparent(pal),
    ensures
        sorted_by_lum(palette_step(pal, p)),
        distinct_entries(palette_step(pal, p)),
        no_transparent(palette_step(pal, p)),
        forall|x: Pixel| pal.contains(x) ==> palette_step(pal, p).contains(x),
        p.a != 0 ==> palette_step(pal, p).contains(p),
        forall|x: Pixel| palette_step(pal, p).contains(x) ==> pal.contains(x) || x == p,
{
    let l = lum_spec(p);
    let pos = insert_pos_spec(pal, l);
    lemma_insert_pos(pal, l);
    if p.a == 0 || pal.contains(p) {
    } else {
        let out = pal.insert(pos, p);
        assert forall|i: int, j: int| 0 <= i <= j < out.len() implies lum_spec(out[i]) <= lum_spec(
            out[j],
        ) by {
            if i < pos && j >= pos && j > i {
                if j == pos {
                    assert(out[j] == p);
                    assert(lum_spec(out[i]) <= l);
                } else {
                    assert(out[j] == pal[j - 1]);
                    if j - 1 >= pos {
                        assert(lum_spec(pal[pos]) <= lum_spec(pal[j - 1]));
                    }
                }
            } else if i == pos && i < j {
                assert(out[i] == p);
                assert(out[j] == pal[j - 1]);
                assert(lum_spec(pal[pos]) <= lum_spec(pal[j - 1]));
            }
        }
        assert forall|i: int, j: int| 0 <= i < j < out.len() implies out[i] != out[j] by {
            if i == pos {
                assert(out[j] == pal[j - 1]);
                assert(!pal.contains(p));
                assert(pal[j - 1] != p) by {
                    if pal[j - 1] == p {
                        assert(pal.contains(p));
                    }
                }
            } else if j == pos {
                assert(out[i] == pal[i]);
                if pal[i] == p {
                    assert(pal.contains(p));
                }
            }
        }
        assert forall|x: Pixel| pal.contains(x) implies out.contains(x) by {
            let w = choose|w: int| 0 <= w < pal.len() && pal[w] == x;
            if w < pos {
                assert(out[w] == x);
            } else {
                assert(out[w + 1] == x);
            }
        }
        assert(out[pos] == p);
        assert forall|x: Pixel| out.contains(x) implies pal.contains(x) || x == p by {
            let w = choose|w: int| 0 <= w < out.len() && out[w] == x;
            if w < pos {
                assert(pal[w] == x);
            } else if w > pos {
                assert(pal[w - 1] == x);
            }
        }
    }
}

/// The extracted palette satisfies the palette invariants: sorted by
/// non-decreasing luminance, free of duplicates, free of transparent
/// entries; it holds every non-transparent scanned pixel and nothing else.
pub proof fn lemma_extract_invariants(s: Seq<Pixel>)
    ensures
        sorted_by_lum(extract_spec(s)),
        distinct_entries(extract_spec(s)),
        no_transparent(extract_spec(s)),
        forall|k: int| 0 <= k < s.len() && s[k].a != 0 ==> extract_spec(s).contains(s[k]),
        forall|x: Pixel| extract_spec(s).contains(x) ==> s.contains(x) && x.a != 0,
    decreases s.len(),
{
    if s.len() == 0 {
    } else {
        let prev = extract_spec(s.drop_last());
        lemma_extract_invariants(s.drop_last());
        lemma_palette_step(prev, s.last());
        assert forall|k: int| 0 <= k < s.len() && s[k].a != 0 implies extract_spec(s).contains(
            s[k],
        ) by {
            if k < s.len() - 1 {
                assert(s.drop_last()[k] == s[k]);
                assert(prev.contains(s[k]));
            }
        }
        assert forall|x: Pixel| extract_spec(s).contains(x) implies s.contains(x) && x.a != 0 by {
            if prev.contains(x) {
                assert(s.drop_last().contains(x));
                let w = choose|w: int| 0 <= w < s.drop_last().len() && s.drop_last()[w] == x;
                assert(s[w] == x);
            } else {
                assert(x == s.last());
                assert(s[s.len() - 1] == x);
            }
        }
    }
}

/// Extracts the palette of a grid: scans the pixels in row-major order,
/// skips transparent ones, and keeps the first occurrence of every color,
/// sorted by non-decreasing luminance. A later color with a tied luminance
/// stands after the earlier one.
pub fn get_palette(img: &Grid) -> (pal: Vec<Pixel>)
    ensures
        pal@ == extract_spec(img.pixels@),
        sorted_by_lum(pal@),
        distinct_entries(pal@),
        no_transparent(pal@),
        forall|k: int| 0 <= k < img.pixels@.len() && img.pixels@[k].a != 0 ==> pal@.contains(
            img.pixels@[k],
        ),
{
    proof {
        lemma_extract_invariants(img.pixels@);
    }
    let mut pal: Vec<Pixel> = Vec::new();
    let n: usize = img.pixels.len();
    let mut k: usize = 0;
    while k < n
        invariant
            k <= n,
            n == img.pixels@.len(),
            pal@ == extract_spec(img.pixels@.subrange(0, k as int)),
        decreases n - k,
    {
        let ghost pre = img.pixels@.subrange(0, k as int);
        let ghost post = img.pixels@.subrange(0, k as int + 1);
        proof {
            assert(post.drop_last() =~= pre);
            assert(post.last() == img.pixels@[k as int]);
            lemma_extract_invariants(pre);
        }
        let p = img.pixels[k];
        if p.a != 0 {
            match find_index(&pal, &p) {
                Some(_) => {},
                None => {
                    let l = get_lum(&p);
                    let plen: usize = pal.len();
                    // Binary search for the first entry whose luminance
                    // exceeds the new pixel's.
                    let mut lo: usize = 0;
                    let mut hi: usize = plen;
                    while lo < hi
                        invariant
                            lo <= hi <= plen,
                            plen == pal@.len(),
                            l == lum_spec(p),
                            sorted_by_lum(pal@),
                            forall|j: int| 0 <= j < lo ==> lum_spec(pal@[j]) <= l,
                            forall|j: int| hi <= j < plen ==> lum_spec(pal@[j]) > l,
                        decreases hi - lo,
                    {
                        let mid: usize = lo + (hi - lo) / 2;
                        if get_lum(&pal[mid]) <= l {
                            lo = mid + 1;
                        } else {
                            hi = mid;
                        }
                    }
                    proof {
                        lemma_insert_pos_unique(pal@, l as int, lo as int);
                    }
                    pal.insert(lo, p);
                },
            }
        }
        k = k + 1;
    }
    proof {
        assert(img.pixels@.subrange(0, n as int) =~= img.pixels@);
    }
    pal
}

} // verus!
