//! Where the internal render target is drawn in the window: centred, with its aspect
//! ratio kept, either stretched to fit (letterbox / pillarbox) or enlarged by the
//! largest whole-number factor.

use vstd::prelude::*;

verus! {

/// Width in pixels of the internal render target.
pub const INTERNAL_W: u32 = 640;

/// Height in pixels of the internal render target.
pub const INTERNAL_H: u32 = 480;

/// Number of sub-pixel units per pixel in a [`DestRect`]: every rectangle that
/// [`compute_dest`] produces has coordinates that are whole multiples of this unit.
pub const SUBPIXELS: i64 = 24;

/// A destination rectangle in the window, measured in units of `1 / SUBPIXELS` pixel.
#[derive(Clone, Copy, PartialEq, Eq, Debug, Structural)]
pub struct DestRect {
    pub x: i64,
    pub y: i64,
    pub width: i64,
    pub height: i64,
}

/// The value of a window size read as an unsigned 32-bit number (as the integer
/// scaling reads it): negative sizes wrap around.
pub open spec fn as_unsigned(v: i32) -> int {
    if v >= 0 {
        v as int
    } else {
        v + 0x1_0000_0000
    }
}

/// The integer scaling factor: the largest whole multiple of the internal size that
/// fits both window dimensions, and never less than one.
pub open spec fn integer_factor(win_w: i32, win_h: i32) -> int {
    let fw = as_unsigned(win_w) / (INTERNAL_W as int);
    let fh = as_unsigned(win_h) / (INTERNAL_H as int);
    let m = if fw <= fh {
        fw
    } else {
        fh
    };
    if m < 1 {
        1
    } else {
        m
    }
}

/// Whether the width limits the stretch-to-fit scale, that is
/// `win_w / INTERNAL_W <= win_h / INTERNAL_H`.
pub open spec fn width_limited(win_w: i32, win_h: i32) -> bool {
    win_w * (INTERNAL_H as int) <= win_h * (INTERNAL_W as int)
}

/// Width of the destination in sub-pixel units: `INTERNAL_W` times the scale.
pub open spec fn dest_width(win_w: i32, win_h: i32, integer_scale: bool) -> int {
    if integer_scale {
        SUBPIXELS * INTERNAL_W * integer_factor(win_w, win_h)
    } else if width_limited(win_w, win_h) {
        SUBPIXELS * win_w
    } else {
        SUBPIXELS * INTERNAL_W * win_h / (INTERNAL_H as int)
    }
}

/// Height of the destination in sub-pixel units: `INTERNAL_H` times the scale.
pub open spec fn dest_height(win_w: i32, win_h: i32, integer_scale: bool) -> int {
    if integer_scale {
        SUBPIXELS * INTERNAL_H * integer_factor(win_w, win_h)
    } else if width_limited(win_w, win_h) {
        SUBPIXELS * INTERNAL_H * win_w / (INTERNAL_W as int)
    } else {
        SUBPIXELS * win_h
    }
}

proof fn lemma_as_unsigned(v: i32)
    ensures
        (v as u32) as int == as_unsigned(v),
{
    assert(v < 0 ==> (v as u32) as int == v + 0x1_0000_0000) by (bit_vector);
    assert(v >= 0 ==> (v as u32) as int == v) by (bit_vector);
}

/// The scaling factor used when the render target is enlarged by whole numbers only.
pub fn integer_scale_factor(win_w: i32, win_h: i32) -> (n: u32)
    ensures
        n == integer_factor(win_w, win_h),
        n >= 1,
        n == 1 || (n * INTERNAL_W <= as_unsigned(win_w) && n * INTERNAL_H <= as_unsigned(win_h)),
        (n + 1) * INTERNAL_W > as_unsigned(win_w) || (n + 1) * INTERNAL_H > as_unsigned(win_h),
{
    proof {
        lemma_as_unsigned(win_w);
        lemma_as_unsigned(win_h);
    }
    let fw = (win_w as u32) / INTERNAL_W;
    let fh = (win_h as u32) / INTERNAL_H;
    let m = if fw <= fh {
        fw
    } else {
        fh
    };
    if m < 1 {
        1
    } else {
        m
    }
}

/// Destination rectangle for drawing the render target onto a `win_w` by `win_h`
/// window: the internal aspect ratio is kept and the image is centred. With
/// `integer_scale` the largest whole-number multiple is used, otherwise the image is
/// stretched to touch the window on one axis.
pub fn compute_dest(win_w: i32, win_h: i32, integer_scale: bool) -> (r: DestRect)
    ensures
        r.width == dest_width(win_w, win_h, integer_scale),
        r.height == dest_height(win_w, win_h, integer_scale),
        2 * r.x + r.width == SUBPIXELS * win_w,
        2 * r.y + r.height == SUBPIXELS * win_h,
        r.width * (INTERNAL_H as int) == r.height * (INTERNAL_W as int),
{
    let w = win_w as i64;
    let h = win_h as i64;
    let iw = INTERNAL_W as i64;
    let ih = INTERNAL_H as i64;
    let half = SUBPIXELS / 2;
    assert(iw == 640 && ih == 480 && half == 12);
    // Half the destination's width and height: whole numbers of sub-pixel units.
    let (hw, hh): (i64, i64) = if integer_scale {
        let n = integer_scale_factor(win_w, win_h) as i64;
        assert(0 <= half * iw * n <= 0x100_0000_0000 && 0 <= half * ih * n <= 0x100_0000_0000)
            by (nonlinear_arith)
            requires
                iw == 640,
                ih == 480,
                half == 12,
                1 <= n,
                n == 1 || n * 480 <= 0x1_0000_0000,
        ;
        assert(2 * (half * iw * n) == SUBPIXELS * INTERNAL_W * n && 2 * (half * ih * n)
            == SUBPIXELS * INTERNAL_H * n) by (nonlinear_arith)
            requires
                iw == 640,
                ih == 480,
                half == 12,
        ;
        (half * iw * n, half * ih * n)
    } else if w * ih <= h * iw {
        let k = half * ih / iw;
        assert(k == 9);
        assert(k * w == 9 * w) by (nonlinear_arith)
            requires
                k == 9,
        ;
        proof {
            vstd::arithmetic::div_mod::lemma_div_multiples_vanish(18 * w, 640);
            assert(SUBPIXELS * INTERNAL_H * w == 640 * (18 * w));
        }
        (half * w, k * w)
    } else {
        let k = half * iw / ih;
        assert(k == 16);
        assert(k * h == 16 * h) by (nonlinear_arith)
            requires
                k == 16,
        ;
        proof {
            vstd::arithmetic::div_mod::lemma_div_multiples_vanish(32 * h, 480);
            assert(SUBPIXELS * INTERNAL_W * h == 480 * (32 * h));
        }
        (k * h, half * h)
    };
    DestRect { x: half * w - hw, y: half * h - hh, width: 2 * hw, height: 2 * hh }
}

/// Stretch-to-fit keeps the image inside a window of non-negative size, makes it touch
/// the window on one axis, and is the largest rectangle of the internal aspect ratio
/// that fits.
pub proof fn lemma_fit_is_largest_inside(win_w: i32, win_h: i32, width: int, height: int)
    requires
        0 <= win_w,
        0 <= win_h,
    ensures
        0 <= dest_width(win_w, win_h, false) <= SUBPIXELS * win_w,
        0 <= dest_height(win_w, win_h, false) <= SUBPIXELS * win_h,
        dest_width(win_w, win_h, false) == SUBPIXELS * win_w || dest_height(win_w, win_h, false)
            == SUBPIXELS * win_h,
        0 <= width <= SUBPIXELS * win_w && 0 <= height <= SUBPIXELS * win_h && width * (
        INTERNAL_H as int) == height * (INTERNAL_W as int) ==> width <= dest_width(
            win_w,
            win_h,
            false,
        ) && height <= dest_height(win_w, win_h, false),
{
    let w = win_w as int;
    let h = win_h as int;
    assert(SUBPIXELS == 24 && INTERNAL_H == 480 && INTERNAL_W == 640);
    if width_limited(win_w, win_h) {
        vstd::arithmetic::div_mod::lemma_div_multiples_vanish(18 * w, 640);
        assert(SUBPIXELS * INTERNAL_H * w == 640 * (18 * w)) by (nonlinear_arith)
            requires
                SUBPIXELS == 24 && INTERNAL_H == 480,
        ;
        assert(dest_height(win_w, win_h, false) == 18 * w);
    } else {
        vstd::arithmetic::div_mod::lemma_div_multiples_vanish(32 * h, 480);
        assert(SUBPIXELS * INTERNAL_W * h == 480 * (32 * h)) by (nonlinear_arith)
            requires
                SUBPIXELS == 24 && INTERNAL_W == 640,
        ;
        assert(dest_width(win_w, win_h, false) == 32 * h);
    }
}

/// With a window at least as large as the render target, integer scaling keeps the
/// image inside the window and never makes it larger than stretch-to-fit would.
pub proof fn lemma_integer_scale_inside(win_w: i32, win_h: i32)
    requires
        INTERNAL_W <= win_w,
        INTERNAL_H <= win_h,
    ensures
        dest_width(win_w, win_h, true) <= dest_width(win_w, win_h, false) <= SUBPIXELS * win_w,
        dest_height(win_w, win_h, true) <= dest_height(win_w, win_h, false) <= SUBPIXELS
            * win_h,
{
    let w = win_w as int;
    let h = win_h as int;
    let n = integer_factor(win_w, win_h);
    assert(SUBPIXELS == 24 && INTERNAL_H == 480 && INTERNAL_W == 640);
    assert(1 <= n && n * 640 <= w && n * 480 <= h) by {
        let fw = w / 640;
        let fh = h / 480;
        assert(fw >= 1 && fh >= 1);
        assert(fw * 640 <= w && fh * 480 <= h) by (nonlinear_arith)
            requires
                fw == w / 640,
                fh == h / 480,
                w >= 0,
                h >= 0,
        ;
        assert(n == fw || n == fh);
        assert(n <= fw && n <= fh);
        assert(n * 640 <= fw * 640 && n * 480 <= fh * 480) by (nonlinear_arith)
            requires
                n <= fw,
                n <= fh,
        ;
    }
    assert(dest_width(win_w, win_h, true) == 15360 * n && dest_height(win_w, win_h, true) == 11520
        * n) by (nonlinear_arith)
        requires
            SUBPIXELS == 24 && INTERNAL_H == 480 && INTERNAL_W == 640,
            n == integer_factor(win_w, win_h),
    ;
    lemma_fit_is_largest_inside(win_w, win_h, 15360 * n, 11520 * n);
}

/// A window size read as unsigned is the value modulo 2^32 in `[0, 2^32)`.
pub proof fn lemma_as_unsigned_wraps(v: i32)
    ensures
        0 <= as_unsigned(v) < 0x1_0000_0000,
        as_unsigned(v) == v || as_unsigned(v) == v + 0x1_0000_0000,
{
}

/// Integer scaling draws the render target enlarged by a whole factor `n >= 1`: the
/// largest factor whose enlargement fits the window (read as unsigned), or one when none
/// does.
pub proof fn lemma_integer_dest_largest_multiple(win_w: i32, win_h: i32)
    ensures
        ({
            let n = dest_width(win_w, win_h, true) / (SUBPIXELS * INTERNAL_W);
            &&& dest_width(win_w, win_h, true) == SUBPIXELS * INTERNAL_W * n
            &&& dest_height(win_w, win_h, true) == SUBPIXELS * INTERNAL_H * n
            &&& n >= 1
            &&& n == 1 || (n * INTERNAL_W <= as_unsigned(win_w) && n * INTERNAL_H <= as_unsigned(
                win_h,
            ))
            &&& (n + 1) * INTERNAL_W > as_unsigned(win_w) || (n + 1) * INTERNAL_H > as_unsigned(
                win_h,
            )
        }),
{
    let k = integer_factor(win_w, win_h);
    let fw = as_unsigned(win_w) / 640;
    let fh = as_unsigned(win_h) / 480;
    assert(SUBPIXELS == 24 && INTERNAL_H == 480 && INTERNAL_W == 640);
    assert(dest_width(win_w, win_h, true) == 15360 * k && dest_height(win_w, win_h, true) == 11520
        * k) by (nonlinear_arith)
        requires
            SUBPIXELS == 24 && INTERNAL_H == 480 && INTERNAL_W == 640,
            k == integer_factor(win_w, win_h),
    ;
    vstd::arithmetic::div_mod::lemma_div_multiples_vanish(k, 15360);
    assert(fw * 640 <= as_unsigned(win_w) < (fw + 1) * 640 && fh * 480 <= as_unsigned(win_h) < (
    fh + 1) * 480) by (nonlinear_arith)
        requires
            fw == as_unsigned(win_w) / 640,
            fh == as_unsigned(win_h) / 480,
            as_unsigned(win_w) >= 0,
            as_unsigned(win_h) >= 0,
    ;
    assert(k == 1 || (k * 640 <= fw * 640 && k * 480 <= fh * 480)) by (nonlinear_arith)
        requires
            k == 1 || (k <= fw && k <= fh),
    ;
    assert((k + 1) * 640 >= (fw + 1) * 640 || (k + 1) * 480 >= (fh + 1) * 480) by (nonlinear_arith)
        requires
            k >= fw || k >= fh,
    ;
}

} // verus!
