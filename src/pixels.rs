//! Conversions between packed pixel layouts.
use vstd::prelude::*;

verus! {

/// Opaque RGBA from packed RGB: one pixel per whole triple, a trailing partial
/// triple dropped.
pub open spec fn rgba_from_rgb(s: Seq<u8>) -> Seq<u8> {
    Seq::new(
        4 * (s.len() / 3),
        |i: int|
            if i % 4 == 3 {
                255u8
            } else {
                s[(i / 4) * 3 + i % 4]
            },
    )
}

/// Opaque RGBA from gray: the sample copied to red, green and blue.
pub open spec fn rgba_from_gray(s: Seq<u8>) -> Seq<u8> {
    Seq::new(
        4 * s.len(),
        |i: int|
            if i % 4 == 3 {
                255u8
            } else {
                s[i / 4]
            },
    )
}

/// Every index picks a whole RGBA entry of the packed palette.
pub open spec fn indices_in_palette(palette: Seq<u8>, indices: Seq<u8>) -> bool {
    forall|j: int| 0 <= j < indices.len() ==> 4 * (#[trigger] indices[j]) + 4 <= palette.len()
}

/// The RGBA raster that palette indices stand for.
pub open spec fn rgba_from_palette(palette: Seq<u8>, indices: Seq<u8>) -> Seq<u8> {
    Seq::new(4 * indices.len(), |i: int| palette[4 * indices[i / 4] + i % 4])
}

proof fn lemma_quad(k: int, c: int)
    requires
        0 <= c < 4,
    ensures
        (4 * k + c) / 4 == k,
        (4 * k + c) % 4 == c,
{
}

/// Expands packed RGB samples to opaque RGBA.
pub fn rgb_to_rgba(samples: &Vec<u8>) -> (r: Vec<u8>)
    requires
        samples@.len() <= usize::MAX / 2,
    ensures
        r@ == rgba_from_rgb(samples@),
{
    let n = samples.len() / 3;
    let mut out: Vec<u8> = Vec::new();
    let mut k: usize = 0;
    while k < n
        invariant
            n == samples@.len() / 3,
            samples@.len() <= usize::MAX / 2,
            k <= n,
            out@.len() == 4 * k,
            forall|i: int| 0 <= i < 4 * k ==> out@[i] == #[trigger] rgba_from_rgb(samples@)[i],
        decreases n - k,
    {
        let ghost target = rgba_from_rgb(samples@);
        out.push(samples[3 * k]);
        out.push(samples[3 * k + 1]);
        out.push(samples[3 * k + 2]);
        out.push(255u8);
        proof {
            assert forall|i: int| 0 <= i < 4 * (k + 1) implies out@[i] == #[trigger] target[i] by {
                if i >= 4 * k {
                    lemma_quad(k as int, i - 4 * k);
                }
            }
        }
        k = k + 1;
    }
    assert(out@ =~= rgba_from_rgb(samples@));
    out
}

/// Expands gray samples to opaque RGBA.
pub fn gray_to_rgba(samples: &Vec<u8>) -> (r: Vec<u8>)
    requires
        samples@.len() <= usize::MAX / 8,
    ensures
        r@ == rgba_from_gray(samples@),
{
    let n = samples.len();
    let mut out: Vec<u8> = Vec::new();
    let mut k: usize = 0;
    while k < n
        invariant
            n == samples@.len(),
            n <= usize::MAX / 8,
            k <= n,
            out@.len() == 4 * k,
            forall|i: int| 0 <= i < 4 * k ==> out@[i] == #[trigger] rgba_from_gray(samples@)[i],
        decreases n - k,
    {
        let ghost target = rgba_from_gray(samples@);
        let g = samples[k];
        out.push(g);
        out.push(g);
        out.push(g);
        out.push(255u8);
        proof {
            assert forall|i: int| 0 <= i < 4 * (k + 1) implies out@[i] == #[trigger] target[i] by {
                if i >= 4 * k {
                    lemma_quad(k as int, i - 4 * k);
                }
            }
        }
        k = k + 1;
    }
    assert(out@ =~= rgba_from_gray(samples@));
    out
}

/// The RGBA raster for palette indices; `None` where an index lies outside the
/// palette.
pub fn render_palette(palette: &Vec<u8>, indices: &Vec<u8>) -> (r: Option<Vec<u8>>)
    requires
        indices@.len() <= usize::MAX / 8,
    ensures
        match r {
            Some(v) => indices_in_palette(palette@, indices@) && v@ == rgba_from_palette(palette@, indices@),
            None => !indices_in_palette(palette@, indices@),
        },
{
    let n = indices.len();
    let mut out: Vec<u8> = Vec::new();
    let mut k: usize = 0;
    while k < n
        invariant
            n == indices@.len(),
            n <= usize::MAX / 8,
            k <= n,
            out@.len() == 4 * k,
            forall|j: int| 0 <= j < k ==> 4 * (#[trigger] indices@[j]) + 4 <= palette@.len(),
            forall|i: int| 0 <= i < 4 * k ==> out@[i] == #[trigger] rgba_from_palette(palette@, indices@)[i],
        decreases n - k,
    {
        let ghost target = rgba_from_palette(palette@, indices@);
        let p = indices[k] as usize;
        if palette.len() < 4 || p > (palette.len() - 4) / 4 {
            assert(4 * indices@[k as int] + 4 > palette@.len());
            return None;
        }
        out.push(palette[4 * p]);
        out.push(palette[4 * p + 1]);
        out.push(palette[4 * p + 2]);
        out.push(palette[4 * p + 3]);
        proof {
            assert forall|i: int| 0 <= i < 4 * (k + 1) implies out@[i] == #[trigger] target[i] by {
                if i >= 4 * k {
                    lemma_quad(k as int, i - 4 * k);
                }
            }
        }
        k = k + 1;
    }
    assert(out@ =~= rgba_from_palette(palette@, indices@));
    Some(out)
}

/// Packed RGB from RGBA: the alpha sample of each whole quadruple dropped.
pub open spec fn rgb_from_rgba(s: Seq<u8>) -> Seq<u8> {
    Seq::new(3 * (s.len() / 4), |i: int| s[(i / 3) * 4 + i % 3])
}

proof fn lemma_triple(k: int, c: int)
    requires
        0 <= c < 3,
    ensures
        (3 * k + c) / 3 == k,
        (3 * k + c) % 3 == c,
{
}

/// Drops the alpha samples of packed RGBA.
pub fn rgba_to_rgb(samples: &Vec<u8>) -> (r: Vec<u8>)
    requires
        samples@.len() <= usize::MAX / 2,
    ensures
        r@ == rgb_from_rgba(samples@),
{
    let n = samples.len() / 4;
    let mut out: Vec<u8> = Vec::new();
    let mut k: usize = 0;
    while k < n
        invariant
            n == samples@.len() / 4,
            samples@.len() <= usize::MAX / 2,
            k <= n,
            out@.len() == 3 * k,
            forall|i: int| 0 <= i < 3 * k ==> out@[i] == #[trigger] rgb_from_rgba(samples@)[i],
        decreases n - k,
    {
        let ghost target = rgb_from_rgba(samples@);
        out.push(samples[4 * k]);
        out.push(samples[4 * k + 1]);
        out.push(samples[4 * k + 2]);
        proof {
            assert forall|i: int| 0 <= i < 3 * (k + 1) implies out@[i] == #[trigger] target[i] by {
                if i >= 3 * k {
                    lemma_triple(k as int, i - 3 * k);
                }
            }
        }
        k = k + 1;
    }
    assert(out@ =~= rgb_from_rgba(samples@));
    out
}

} // verus!
