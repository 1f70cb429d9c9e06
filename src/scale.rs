use vstd::prelude::*;

verus! {

/// `n * max / m` rounded to the nearest integer, halves upward.
pub open spec fn scaled(n: int, max: int, m: int) -> int {
    (2 * n * max + m) / (2 * m)
}

/// The size an image of `w` by `h` is brought to when neither side may exceed
/// `max`: unchanged if it fits, else scaled so that its longer side is `max`.
pub open spec fn target_size(w: int, h: int, max: int) -> (int, int) {
    if w > max || h > max {
        let m = if w >= h {
            w
        } else {
            h
        };
        (scaled(w, max, m), scaled(h, max, m))
    } else {
        (w, h)
    }
}

/// The dimensions an image is downscaled to, so that neither side exceeds
/// `max_length`, the aspect ratio kept up to rounding.
pub fn downscale_dimensions(width: u32, height: u32, max_length: i64) -> (r: (u32, u32))
    requires
        max_length >= 1,
    ensures
        (r.0 as int, r.1 as int) == target_size(width as int, height as int, max_length as int),
{
    if (width as i64) > max_length || (height as i64) > max_length {
        let m: u32 = if width >= height {
            width
        } else {
            height
        };
        let max = max_length as u128;
        proof {
            lemma_scaled_fits(width as int, max as int, m as int);
            lemma_scaled_fits(height as int, max as int, m as int);
        }
        assert(2 * (width as u128) * max + (m as u128) < 0x1_0000_0000_0000_0000_0000_0000 as int) by (nonlinear_arith)
            requires
                width <= m,
                max < m,
                m <= 0xffff_ffff,
        ;
        assert(2 * (height as u128) * max + (m as u128) < 0x1_0000_0000_0000_0000_0000_0000 as int) by (nonlinear_arith)
            requires
                height <= m,
                max < m,
                m <= 0xffff_ffff,
        ;
        let w = (2 * (width as u128) * max + (m as u128)) / (2 * (m as u128));
        let h = (2 * (height as u128) * max + (m as u128)) / (2 * (m as u128));
        (w as u32, h as u32)
    } else {
        (width, height)
    }
}

proof fn lemma_scaled_fits(n: int, max: int, m: int)
    requires
        0 <= n <= m,
        0 <= max < m,
    ensures
        0 <= scaled(n, max, m) <= n,
        scaled(n, max, m) <= max,
{
    assert(2 * n * max + m < 2 * m * (n + 1)) by (nonlinear_arith)
        requires
            0 <= n <= m,
            0 <= max < m,
    ;
    assert(2 * n * max + m < 2 * m * (max + 1)) by (nonlinear_arith)
        requires
            0 <= n <= m,
            0 <= max < m,
    ;
    assert(0 <= 2 * n * max + m) by (nonlinear_arith)
        requires
            0 <= n,
            0 <= max,
            0 < m,
    ;
    lemma_div_below(2 * n * max + m, 2 * m, n + 1);
    lemma_div_below(2 * n * max + m, 2 * m, max + 1);
}

proof fn lemma_div_below(a: int, d: int, q: int)
    requires
        0 <= a,
        0 < d,
        a < d * q,
    ensures
        0 <= a / d < q,
{
    assert(0 <= a / d < q) by (nonlinear_arith)
        requires
            0 <= a,
            0 < d,
            a < d * q,
    ;
}

/// Rounding error of `scaled`: `2m * scaled(n) - 2 n max` lies in `(-m, m]`.
proof fn lemma_scaled_error(n: int, max: int, m: int)
    requires
        0 <= n,
        0 <= max,
        0 < m,
    ensures
        -m < 2 * m * scaled(n, max, m) - 2 * n * max <= m,
{
    let a = 2 * n * max + m;
    let q = a / (2 * m);
    assert(0 <= a - 2 * m * q < 2 * m) by (nonlinear_arith)
        requires
            a >= 0,
            m > 0,
            q == a / (2 * m),
    ;
}

/// Downscaling never makes a side longer, leaves no side above the limit, and
/// keeps the aspect ratio up to rounding: `2 |w' h - h' w| <= w + h`, so the
/// height that `w'` implies differs from `h'` by at most one pixel.
pub proof fn lemma_downscale_bounds(w: int, h: int, max: int)
    requires
        0 <= w,
        0 <= h,
        1 <= max,
    ensures
        target_size(w, h, max).0 <= w,
        target_size(w, h, max).1 <= h,
        w <= max && h <= max ==> target_size(w, h, max) == (w, h),
        target_size(w, h, max).0 <= max && target_size(w, h, max).1 <= max,
        0 <= target_size(w, h, max).0 && 0 <= target_size(w, h, max).1,
        -(w + h) <= 2 * (target_size(w, h, max).0 * h - target_size(w, h, max).1 * w) <= w + h,
{
    if w > max || h > max {
        let m = if w >= h {
            w
        } else {
            h
        };
        lemma_scaled_fits(w, max, m);
        lemma_scaled_fits(h, max, m);
        lemma_scaled_error(w, max, m);
        lemma_scaled_error(h, max, m);
        let a = scaled(w, max, m);
        let b = scaled(h, max, m);
        let e1 = 2 * m * a - 2 * w * max;
        let e2 = 2 * m * b - 2 * h * max;
        assert(2 * m * (a * h - b * w) == h * e1 - w * e2) by (nonlinear_arith)
            requires
                e1 == 2 * m * a - 2 * w * max,
                e2 == 2 * m * b - 2 * h * max,
        ;
        assert(-(m * (w + h)) <= h * e1 - w * e2 <= m * (w + h)) by (nonlinear_arith)
            requires
                -m < e1 <= m,
                -m < e2 <= m,
                0 <= w,
                0 <= h,
        ;
        assert(-(w + h) <= 2 * (a * h - b * w) <= w + h) by (nonlinear_arith)
            requires
                2 * m * (a * h - b * w) == h * e1 - w * e2,
                -(m * (w + h)) <= h * e1 - w * e2 <= m * (w + h),
                m > 0,
        ;
    } else {
        assert(w * h - h * w == 0) by (nonlinear_arith);
    }
}

/// Downscaling its own result changes nothing: an image that was brought within
/// the limit keeps its size when processed again with the same limit.
pub proof fn lemma_downscale_idempotent(w: int, h: int, max: int)
    requires
        0 <= w,
        0 <= h,
        1 <= max,
    ensures
        target_size(target_size(w, h, max).0, target_size(w, h, max).1, max) == target_size(w, h, max),
{
    lemma_downscale_bounds(w, h, max);
}

} // verus!
