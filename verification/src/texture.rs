use vstd::prelude::*;

verus! {

/// Channel `c` of the pixel at column `sx`, row `sy` of an RGBA image `w`
/// pixels wide.
pub open spec fn px(src: Seq<u8>, w: int, sx: int, sy: int, c: int) -> int {
    src[(sy * w + sx) * 4 + c] as int
}

/// Sum of channel `c` over the `k` pixels of row `sy` from column `x0` on.
pub open spec fn row_sum(src: Seq<u8>, w: int, sy: int, x0: int, k: int, c: int) -> int
    decreases k,
{
    if k <= 0 {
        0
    } else {
        row_sum(src, w, sy, x0, k - 1, c) + px(src, w, x0 + k - 1, sy, c)
    }
}

/// Sum of channel `c` over the `k` rows from `y0` on of the `f`-pixel-wide
/// strip that starts at column `x0`.
pub open spec fn rect_sum(src: Seq<u8>, w: int, y0: int, x0: int, f: int, k: int, c: int) -> int
    decreases k,
{
    if k <= 0 {
        0
    } else {
        rect_sum(src, w, y0, x0, f, k - 1, c) + row_sum(src, w, y0 + k - 1, x0, f, c)
    }
}

/// Channel `c` of output pixel (`x`, `y`) of the box-filtered image: the
/// rounded-down mean of the `f` x `f` block it covers.
pub open spec fn box_mean(src: Seq<u8>, w: int, f: int, x: int, y: int, c: int) -> int {
    rect_sum(src, w, y * f, x * f, f, f, c) / (f * f)
}

/// The downscaling factor actually used: at least one.
pub open spec fn eff_factor(factor: u32) -> int {
    if factor < 1 {
        1
    } else {
        factor as int
    }
}

proof fn lemma_row_sum_bound(src: Seq<u8>, w: int, sy: int, x0: int, k: int, c: int)
    ensures
        0 <= row_sum(src, w, sy, x0, k, c) <= 255 * (if k < 0 { 0 } else { k }),
    decreases k,
{
    if k > 0 {
        lemma_row_sum_bound(src, w, sy, x0, k - 1, c);
    }
}

proof fn lemma_rect_sum_bound(src: Seq<u8>, w: int, y0: int, x0: int, f: int, k: int, c: int)
    requires
        f >= 0,
    ensures
        0 <= rect_sum(src, w, y0, x0, f, k, c) <= 255 * f * (if k < 0 { 0 } else { k }),
    decreases k,
{
    if k > 0 {
        lemma_rect_sum_bound(src, w, y0, x0, f, k - 1, c);
        lemma_row_sum_bound(src, w, y0 + k - 1, x0, f, c);
        assert(255 * f * (k - 1) + 255 * f == 255 * f * k) by (nonlinear_arith);
    }
}

proof fn lemma_pixel_index(sx: int, sy: int, w: int, h: int)
    requires
        0 <= sx < w,
        0 <= sy < h,
    ensures
        0 <= sy * w + sx < h * w,
        (sy * w + sx) * 4 + 3 < h * w * 4,
        (sy * w + sx) * 4 + 3 < w * h * 4,
        sy * w <= w * h,
{
    assert(h * w == w * h) by (nonlinear_arith);
    assert(sy * w + sx < (sy + 1) * w) by (nonlinear_arith)
        requires
            sx < w,
    ;
    assert((sy + 1) * w <= h * w) by (nonlinear_arith)
        requires
            sy + 1 <= h,
            0 <= w,
    ;
    assert(0 <= sy * w) by (nonlinear_arith)
        requires
            0 <= sy,
            0 <= w,
    ;
}

proof fn lemma_block_fits(i: int, f: int, n: int, total: int)
    requires
        f >= 1,
        0 <= i < n,
        n == total / f,
        total >= 0,
    ensures
        i * f + f <= total,
        0 <= i * f,
{
    assert(i * f + f == (i + 1) * f) by (nonlinear_arith);
    assert((i + 1) * f <= n * f) by (nonlinear_arith)
        requires
            i + 1 <= n,
            f >= 1,
    ;
    assert(n * f <= total) by (nonlinear_arith)
        requires
            n == total / f,
            f >= 1,
            total >= 0,
    ;
    assert(0 <= i * f) by (nonlinear_arith)
        requires
            0 <= i,
            f >= 1,
    ;
}

/// Sums of the four channels over one `f` x `f` block.
fn block_sums(src: &Vec<u8>, w: usize, h: usize, f: usize, x0: usize, y0: usize) -> (res: (u32, u32, u32, u32))
    requires
        src@.len() == w * h * 4,
        f >= 1,
        x0 + f <= w,
        y0 + f <= h,
        255 * f * f <= u32::MAX,
    ensures
        res.0 == rect_sum(src@, w as int, y0 as int, x0 as int, f as int, f as int, 0),
        res.1 == rect_sum(src@, w as int, y0 as int, x0 as int, f as int, f as int, 1),
        res.2 == rect_sum(src@, w as int, y0 as int, x0 as int, f as int, f as int, 2),
        res.3 == rect_sum(src@, w as int, y0 as int, x0 as int, f as int, f as int, 3),
{
    let ghost s = src@;
    let ghost wi = w as int;
    let _len = src.len();
    let (mut r, mut g, mut b, mut a): (u32, u32, u32, u32) = (0, 0, 0, 0);
    let mut sy: usize = y0;
    while sy < y0 + f
        invariant
            src@ == s,
            wi == w as int,
            src@.len() == w * h * 4,
            w * h * 4 <= usize::MAX,
            f >= 1,
            x0 + f <= w,
            y0 + f <= h,
            255 * f * f <= u32::MAX,
            y0 <= sy <= y0 + f,
            r == rect_sum(s, wi, y0 as int, x0 as int, f as int, sy - y0, 0),
            g == rect_sum(s, wi, y0 as int, x0 as int, f as int, sy - y0, 1),
            b == rect_sum(s, wi, y0 as int, x0 as int, f as int, sy - y0, 2),
            a == rect_sum(s, wi, y0 as int, x0 as int, f as int, sy - y0, 3),
        decreases y0 + f - sy,
    {
        proof {
            lemma_rect_sum_bound(s, wi, y0 as int, x0 as int, f as int, sy - y0, 0);
            lemma_rect_sum_bound(s, wi, y0 as int, x0 as int, f as int, sy - y0, 1);
            lemma_rect_sum_bound(s, wi, y0 as int, x0 as int, f as int, sy - y0, 2);
            lemma_rect_sum_bound(s, wi, y0 as int, x0 as int, f as int, sy - y0, 3);
            assert(255 * f * (sy - y0) <= 255 * f * (f - 1)) by (nonlinear_arith)
                requires
                    sy - y0 <= f - 1,
                    f >= 1,
            ;
            assert(255 * f * (f - 1) + 255 * f == 255 * f * f) by (nonlinear_arith);
        }
        let ghost r0 = r as int;
        let ghost g0 = g as int;
        let ghost b0 = b as int;
        let ghost a0 = a as int;
        proof {
            lemma_pixel_index(x0 as int, sy as int, w as int, h as int);
        }
        let row = sy * w;
        let mut sx: usize = x0;
        while sx < x0 + f
            invariant
                src@ == s,
                wi == w as int,
                src@.len() == w * h * 4,
                w * h * 4 <= usize::MAX,
                f >= 1,
                x0 + f <= w,
                y0 <= sy < y0 + f,
                y0 + f <= h,
                row == sy * w,
                255 * f * f <= u32::MAX,
                r0 + 255 * f <= u32::MAX,
                g0 + 255 * f <= u32::MAX,
                b0 + 255 * f <= u32::MAX,
                a0 + 255 * f <= u32::MAX,
                x0 <= sx <= x0 + f,
                r == r0 + row_sum(s, wi, sy as int, x0 as int, sx - x0, 0),
                g == g0 + row_sum(s, wi, sy as int, x0 as int, sx - x0, 1),
                b == b0 + row_sum(s, wi, sy as int, x0 as int, sx - x0, 2),
                a == a0 + row_sum(s, wi, sy as int, x0 as int, sx - x0, 3),
            decreases x0 + f - sx,
        {
            proof {
                lemma_pixel_index(sx as int, sy as int, w as int, h as int);
                lemma_row_sum_bound(s, wi, sy as int, x0 as int, sx - x0, 0);
                lemma_row_sum_bound(s, wi, sy as int, x0 as int, sx - x0, 1);
                lemma_row_sum_bound(s, wi, sy as int, x0 as int, sx - x0, 2);
                lemma_row_sum_bound(s, wi, sy as int, x0 as int, sx - x0, 3);
            }
            let i = (row + sx) * 4;
            r = r + src[i] as u32;
            g = g + src[i + 1] as u32;
            b = b + src[i + 2] as u32;
            a = a + src[i + 3] as u32;
            sx = sx + 1;
        }
        sy = sy + 1;
    }
    (r, g, b, a)
}

/// Downscales an RGBA image `w` x `h` by `factor` (at least one) with a box
/// filter: each output pixel is the rounded-down mean of the block it covers.
/// `None` when the image is not larger than the factor in both directions
/// (the image is then used as it is).
pub fn downscale_rgba(src: &Vec<u8>, w: usize, h: usize, factor: u32) -> (res: Option<(usize, usize, Vec<u8>)>)
    requires
        src@.len() == w * h * 4,
        255 * eff_factor(factor) * eff_factor(factor) <= u32::MAX,
    ensures
        ({
            let f = eff_factor(factor);
            match res {
                None => w <= f || h <= f,
                Some((nw, nh, dst)) => {
                    &&& w > f && h > f
                    &&& nw == (w as int) / f
                    &&& nh == (h as int) / f
                    &&& dst@.len() == nw * nh * 4
                    &&& forall|y: int, x: int, c: int|
                        0 <= y < nh && 0 <= x < nw && 0 <= c < 4 ==> #[trigger] dst@[(y * nw + x) * 4 + c]
                            == box_mean(src@, w as int, f, x, y, c)
                },
            }
        }),
{
    let f: usize = if factor < 1 { 1 } else { factor as usize };
    if w <= f || h <= f {
        return None;
    }
    let nw = w / f;
    let nh = h / f;
    proof {
        assert(nw * nh * 4 <= w * h * 4) by (nonlinear_arith)
            requires
                nw == w / f,
                nh == h / f,
                f >= 1,
        ;
    }
    let mut dst: Vec<u8> = Vec::new();
    let mut y: usize = 0;
    while y < nh
        invariant
            f == eff_factor(factor),
            f >= 1,
            w > f,
            h > f,
            nw == w / f,
            nh == h / f,
            nw * nh * 4 <= w * h * 4,
            src@.len() == w * h * 4,
            255 * f * f <= u32::MAX,
            y <= nh,
            dst@.len() == y * nw * 4,
            forall|yy: int, x: int, c: int|
                0 <= yy < y && 0 <= x < nw && 0 <= c < 4 ==> #[trigger] dst@[(yy * nw + x) * 4 + c]
                    == box_mean(src@, w as int, f as int, x, yy, c),
        decreases nh - y,
    {
        proof {
            lemma_block_fits(y as int, f as int, nh as int, h as int);
        }
        let y0 = y * f;
        let y1 = if y0 + f < h { y0 + f } else { h };
        let mut x: usize = 0;
        while x < nw
            invariant
                f == eff_factor(factor),
                f >= 1,
                nw == w / f,
                nh == h / f,
                y < nh,
                y0 == y * f,
                y1 == y0 + f,
                y1 <= h,
                src@.len() == w * h * 4,
                255 * f * f <= u32::MAX,
                x <= nw,
                dst@.len() == (y * nw + x) * 4,
                forall|yy: int, xx: int, c: int|
                    0 <= yy < y && 0 <= xx < nw && 0 <= c < 4 ==> #[trigger] dst@[(yy * nw + xx) * 4 + c]
                        == box_mean(src@, w as int, f as int, xx, yy, c),
                forall|xx: int, c: int|
                    0 <= xx < x && 0 <= c < 4 ==> #[trigger] dst@[(y * nw + xx) * 4 + c]
                        == box_mean(src@, w as int, f as int, xx, y as int, c),
            decreases nw - x,
        {
            proof {
                lemma_block_fits(x as int, f as int, nw as int, w as int);
            }
            let x0 = x * f;
            let x1 = if x0 + f < w { x0 + f } else { w };
            proof {
                assert(f * f <= 255 * f * f) by (nonlinear_arith)
                    requires
                        f >= 1,
                ;
                assert(f * f >= 1) by (nonlinear_arith)
                    requires
                        f >= 1,
                ;
            }
            let n: u32 = ((y1 - y0) * (x1 - x0)) as u32;
            let (r, g, b, a) = block_sums(src, w, h, f, x0, y0);
            proof {
                assert(n == f * f);
                lemma_rect_sum_bound(src@, w as int, y0 as int, x0 as int, f as int, f as int, 0);
                lemma_rect_sum_bound(src@, w as int, y0 as int, x0 as int, f as int, f as int, 1);
                lemma_rect_sum_bound(src@, w as int, y0 as int, x0 as int, f as int, f as int, 2);
                lemma_rect_sum_bound(src@, w as int, y0 as int, x0 as int, f as int, f as int, 3);
                lemma_div_bound(r as int, f as int);
                lemma_div_bound(g as int, f as int);
                lemma_div_bound(b as int, f as int);
                lemma_div_bound(a as int, f as int);
            }
            let ghost before = dst@;
            dst.push((r / n) as u8);
            dst.push((g / n) as u8);
            dst.push((b / n) as u8);
            dst.push((a / n) as u8);
            proof {
                let base = (y * nw + x) * 4;
                assert(dst@.len() == (y * nw + x + 1) * 4);
                assert forall|yy: int, xx: int, c: int|
                    0 <= yy < y && 0 <= xx < nw && 0 <= c < 4 implies #[trigger] dst@[(yy * nw + xx) * 4 + c]
                        == box_mean(src@, w as int, f as int, xx, yy, c) by {
                    lemma_index_before(yy, xx, c, y as int, x as int, nw as int);
                    assert(dst@[(yy * nw + xx) * 4 + c] == before[(yy * nw + xx) * 4 + c]);
                }
                assert forall|xx: int, c: int|
                    0 <= xx < x + 1 && 0 <= c < 4 implies #[trigger] dst@[(y * nw + xx) * 4 + c]
                        == box_mean(src@, w as int, f as int, xx, y as int, c) by {
                    if xx < x {
                        lemma_index_before(y as int, xx, c, y as int, x as int, nw as int);
                        assert(dst@[(y * nw + xx) * 4 + c] == before[(y * nw + xx) * 4 + c]);
                    } else {
                        assert((y * nw + xx) * 4 + c == base + c);
                        assert(x0 * 1 == xx * f) by (nonlinear_arith)
                            requires
                                x0 == x * f,
                                xx == x,
                        ;
                        assert(y0 * 1 == y * f) by (nonlinear_arith)
                            requires
                                y0 == y * f,
                        ;
                    }
                }
            }
            x = x + 1;
        }
        proof {
            assert((y * nw + nw) * 4 == (y + 1) * nw * 4) by (nonlinear_arith);
        }
        y = y + 1;
    }
    proof {
        assert(dst@.len() == nw * nh * 4) by (nonlinear_arith)
            requires
                dst@.len() == nh * nw * 4,
        ;
    }
    Some((nw, nh, dst))
}

proof fn lemma_div_bound(s: int, f: int)
    requires
        f >= 1,
        0 <= s <= 255 * f * f,
    ensures
        0 <= s / (f * f) <= 255,
{
    assert(f * f >= 1) by (nonlinear_arith)
        requires
            f >= 1,
    ;
    assert(s / (f * f) <= 255) by (nonlinear_arith)
        requires
            f * f >= 1,
            0 <= s <= 255 * f * f,
    ;
    assert(0 <= s / (f * f)) by (nonlinear_arith)
        requires
            f * f >= 1,
            0 <= s,
    ;
}

proof fn lemma_index_before(yy: int, xx: int, c: int, y: int, x: int, nw: int)
    requires
        0 <= xx < nw,
        0 <= c < 4,
        0 <= yy,
        yy < y || (yy == y && xx < x),
        0 <= x,
    ensures
        (yy * nw + xx) * 4 + c < (y * nw + x) * 4,
        0 <= (yy * nw + xx) * 4 + c,
{
    if yy < y {
        assert(yy * nw + xx < y * nw) by (nonlinear_arith)
            requires
                yy < y,
                xx < nw,
                0 <= xx,
        ;
        assert(y * nw <= y * nw + x);
    }
    assert(0 <= yy * nw) by (nonlinear_arith)
        requires
            0 <= yy,
            0 <= nw,
    ;
}

} // verus!
