//! The screen-space post-process stage.
//!
//! A compositing pass consumes the frame the renderer produced and computes
//! a new frame of the same dimensions; nothing is carried across frames.
//! Colors are RGBA texels with fixed-point channels; coordinates into a
//! frame are fixed-point UV values with `(0, 0)` one corner and
//! `(FX_ONE, FX_ONE)` the other, sampled nearest with clamping at the
//! edges, as the render layer binds the frame.
//!
//! Two effects are described: a pass-through scaled by a per-frame intensity
//! knob, and a CRT curve (barrel distortion plus vignette) followed by a
//! box blur whose radius grows toward the top of the frame.

use vstd::prelude::*;
use crate::fx::FX_ONE;
use crate::fx::fx_mul;
use crate::fx::fx_mul_spec;
use crate::fx::div_trunc;
use crate::fx::tdiv;
use crate::fx::clamp;
use crate::fx::clamp_spec;
use crate::fx::lemma_tdiv_ratio;
use crate::fx::lemma_tdiv_monotone;
use crate::fx::lemma_fx_scale_bounds;
use vstd::arithmetic::mul::lemma_mul_inequality;
use vstd::arithmetic::mul::lemma_mul_is_distributive_add_other_way;

verus! {

/// Largest channel value a frame may hold. Channels are high-dynamic-range:
/// they may far exceed `FX_ONE`, but stay small enough that 81 of them sum
/// inside an `i64`.
pub const CHANNEL_LIMIT: i64 = 1_000_000_000;

/// One texel: RGBA channels as nonnegative fixed-point values.
#[derive(Clone, Copy, Debug, PartialEq, Eq, Structural)]
pub struct Rgba {
    pub r: i64,
    pub g: i64,
    pub b: i64,
    pub a: i64,
}

/// Channels within the representable color range.
pub open spec fn rgba_wf(c: Rgba) -> bool {
    &&& 0 <= c.r <= CHANNEL_LIMIT
    &&& 0 <= c.g <= CHANNEL_LIMIT
    &&& 0 <= c.b <= CHANNEL_LIMIT
    &&& 0 <= c.a <= CHANNEL_LIMIT
}

/// A color frame: texels in row-major order, one per pixel.
pub struct FrameBuffer {
    pub width: usize,
    pub height: usize,
    pub pixels: Vec<Rgba>,
}

/// A genuine frame: positive, bounded dimensions, exactly one texel per
/// pixel, every texel a genuine color.
pub open spec fn buffer_wf(b: FrameBuffer) -> bool {
    &&& 1 <= b.width <= 16384
    &&& 1 <= b.height <= 16384
    &&& b.pixels@.len() == b.width * b.height
    &&& forall|k: int| 0 <= k < b.pixels@.len() ==> rgba_wf(#[trigger] b.pixels@[k])
}

/// A row-major index from coordinates inside the frame is inside the frame.
pub proof fn lemma_row_major_index(x: int, y: int, w: int, h: int)
    requires
        0 <= x < w,
        0 <= y < h,
    ensures
        0 <= y * w + x < h * w,
{
    lemma_mul_inequality(y + 1, h, w);
    lemma_mul_is_distributive_add_other_way(w, y, 1);
    assert(y * w >= 0) by (nonlinear_arith)
        requires
            y >= 0,
            w > 0,
    ;
}

/// The texel column (or row) hit by sampling coordinate `u` across `w`
/// texels: nearest with clamping at the edges.
pub open spec fn sample_ix_spec(w: int, u: int) -> int {
    clamp_spec(tdiv(u * w, FX_ONE as int), 0, w - 1)
}

/// The texel read when sampling a `w` by `h` frame with texels `p` at
/// `(u, v)`.
pub open spec fn sample_spec(p: Seq<Rgba>, w: int, h: int, u: int, v: int) -> Rgba {
    p[sample_ix_spec(h, v) * w + sample_ix_spec(w, u)]
}

/// Sample the frame at `(u, v)`, nearest, clamped to the edges.
pub fn sample(buf: &FrameBuffer, u: i64, v: i64) -> (c: Rgba)
    requires
        buffer_wf(*buf),
        -1_000_000_000 <= u <= 1_000_000_000,
        -1_000_000_000 <= v <= 1_000_000_000,
    ensures
        c == sample_spec(buf.pixels@, buf.width as int, buf.height as int, u as int, v as int),
        rgba_wf(c),
{
    let w = buf.width as i64;
    let h = buf.height as i64;
    proof {
        assert(-16_384_000_000_000 <= u * w <= 16_384_000_000_000 && -16_384_000_000_000 <= v * h
            <= 16_384_000_000_000) by (nonlinear_arith)
            requires
                -1_000_000_000 <= u <= 1_000_000_000,
                -1_000_000_000 <= v <= 1_000_000_000,
                0 < w <= 16384,
                0 < h <= 16384,
        ;
    }
    let ix = clamp(div_trunc(u * w, FX_ONE), 0, w - 1);
    let iy = clamp(div_trunc(v * h, FX_ONE), 0, h - 1);
    proof {
        lemma_row_major_index(ix as int, iy as int, w as int, h as int);
        assert((h as int) * (w as int) <= 268_435_456) by (nonlinear_arith)
            requires
                0 < w <= 16384,
                0 < h <= 16384,
        ;
    }
    let index = (iy as usize) * buf.width + (ix as usize);
    buf.pixels[index]
}

/// Per-frame parameters of the post-process stage: a single intensity knob
/// in `[0, FX_ONE]`, replaced whole every frame, never accumulated.
#[derive(Clone, Copy, Debug, PartialEq, Eq, Structural)]
pub struct PostProcessParams {
    pub intensity: i64,
}

/// A genuine parameter value: intensity within the range the effects expect.
pub open spec fn params_wf(p: PostProcessParams) -> bool {
    0 <= p.intensity <= FX_ONE
}

impl PostProcessParams {
    /// The per-frame parameter update: take whatever the host animated and
    /// force it into the valid range, so one frame's value can never leak
    /// out of range into the effect.
    pub fn clamped(intensity: i64) -> (r: PostProcessParams)
        ensures
            r.intensity == clamp_spec(intensity as int, 0, FX_ONE as int),
            params_wf(r),
    {
        PostProcessParams { intensity: clamp(intensity, 0, FX_ONE) }
    }
}

/// The intensity effect on one texel: each color channel grows by its own
/// value scaled by the intensity, a continuous, monotone function of the
/// intensity that leaves the texel untouched at intensity zero. Alpha is
/// kept.
pub open spec fn intensity_texel_spec(c: Rgba, intensity: int) -> Rgba {
    Rgba {
        r: (c.r + fx_mul_spec(c.r as int, intensity)) as i64,
        g: (c.g + fx_mul_spec(c.g as int, intensity)) as i64,
        b: (c.b + fx_mul_spec(c.b as int, intensity)) as i64,
        a: c.a,
    }
}

/// Apply the intensity effect to one texel.
pub fn intensity_texel(c: &Rgba, intensity: i64) -> (r: Rgba)
    requires
        rgba_wf(*c),
        0 <= intensity <= FX_ONE,
    ensures
        r == intensity_texel_spec(*c, intensity as int),
        intensity == 0 ==> r == *c,
        0 <= r.r <= 2 * CHANNEL_LIMIT,
        0 <= r.g <= 2 * CHANNEL_LIMIT,
        0 <= r.b <= 2 * CHANNEL_LIMIT,
        0 <= r.a <= CHANNEL_LIMIT,
{
    proof {
        lemma_fx_scale_bounds(c.r as int, intensity as int);
        lemma_fx_scale_bounds(c.g as int, intensity as int);
        lemma_fx_scale_bounds(c.b as int, intensity as int);
        if intensity == 0 {
            vstd::arithmetic::div_mod::lemma_div_of0(FX_ONE as int);
            assert(c.r * (intensity as int) == 0 && c.g * (intensity as int) == 0 && c.b * (
            intensity as int) == 0) by (nonlinear_arith)
                requires
                    intensity == 0,
            ;
            assert(fx_mul_spec(c.r as int, 0) == 0);
            assert(fx_mul_spec(c.g as int, 0) == 0);
            assert(fx_mul_spec(c.b as int, 0) == 0);
        }
    }
    Rgba {
        r: c.r + fx_mul(c.r, intensity),
        g: c.g + fx_mul(c.g, intensity),
        b: c.b + fx_mul(c.b, intensity),
        a: c.a,
    }
}

/// More intensity never darkens a channel: the intensity effect is monotone
/// in its knob.
pub proof fn lemma_intensity_monotone(c: Rgba, i1: int, i2: int)
    requires
        rgba_wf(c),
        0 <= i1 <= i2 <= FX_ONE as int,
    ensures
        intensity_texel_spec(c, i1).r <= intensity_texel_spec(c, i2).r,
        intensity_texel_spec(c, i1).g <= intensity_texel_spec(c, i2).g,
        intensity_texel_spec(c, i1).b <= intensity_texel_spec(c, i2).b,
{
    assert(c.r * i1 <= c.r * i2 && c.g * i1 <= c.g * i2 && c.b * i1 <= c.b * i2)
        by (nonlinear_arith)
        requires
            0 <= c.r,
            0 <= c.g,
            0 <= c.b,
            i1 <= i2,
    ;
    lemma_tdiv_monotone(c.r * i1, c.r * i2, FX_ONE as int);
    lemma_tdiv_monotone(c.g * i1, c.g * i2, FX_ONE as int);
    lemma_tdiv_monotone(c.b * i1, c.b * i2, FX_ONE as int);
    lemma_fx_scale_bounds(c.r as int, i1);
    lemma_fx_scale_bounds(c.r as int, i2);
    lemma_fx_scale_bounds(c.g as int, i1);
    lemma_fx_scale_bounds(c.g as int, i2);
    lemma_fx_scale_bounds(c.b as int, i1);
    lemma_fx_scale_bounds(c.b as int, i2);
}

/// The whole-frame intensity pass: every texel transformed independently,
/// dimensions kept.
pub fn intensity_pass(buf: &FrameBuffer, params: &PostProcessParams) -> (out: FrameBuffer)
    requires
        buffer_wf(*buf),
        params_wf(*params),
    ensures
        out.width == buf.width,
        out.height == buf.height,
        out.pixels@.len() == buf.pixels@.len(),
        forall|k: int|
            0 <= k < buf.pixels@.len() ==> out.pixels@[k] == intensity_texel_spec(
                buf.pixels@[k],
                params.intensity as int,
            ),
{
    let mut pixels: Vec<Rgba> = Vec::new();
    let mut k: usize = 0;
    let n = buf.pixels.len();
    while k < n
        invariant
            buffer_wf(*buf),
            params_wf(*params),
            n == buf.pixels@.len(),
            k <= n,
            pixels@.len() == k,
            forall|j: int|
                0 <= j < k ==> pixels@[j] == intensity_texel_spec(
                    buf.pixels@[j],
                    params.intensity as int,
                ),
        decreases n - k,
    {
        let c = intensity_texel(&buf.pixels[k], params.intensity);
        pixels.push(c);
        k = k + 1;
    }
    FrameBuffer { width: buf.width, height: buf.height, pixels }
}

/// The magnitude of `x`.
pub open spec fn abs_spec(x: int) -> int {
    if x >= 0 {
        x
    } else {
        -x
    }
}

/// The u coordinate after the CRT barrel distortion: center the
/// coordinates, push each point outward by its own offset scaled by the
/// squared (and damped) magnitude of the *other* axis, and map back.
pub open spec fn crt_remap_u_spec(u: int, v: int) -> int {
    let a = 2 * u - FX_ONE as int;
    let b = 2 * v - FX_ONE as int;
    let q = tdiv(abs_spec(b), 6);
    let a1 = a + fx_mul_spec(a, fx_mul_spec(q, q));
    tdiv(a1 + FX_ONE as int, 2)
}

/// The v coordinate after the CRT barrel distortion; here the other axis is
/// damped less (divisor 4 instead of 6), so the curve is more pronounced
/// vertically than horizontally.
pub open spec fn crt_remap_v_spec(u: int, v: int) -> int {
    let a = 2 * u - FX_ONE as int;
    let b = 2 * v - FX_ONE as int;
    let q = tdiv(abs_spec(a), 4);
    let b1 = b + fx_mul_spec(b, fx_mul_spec(q, q));
    tdiv(b1 + FX_ONE as int, 2)
}

/// Apply the CRT barrel distortion to a coordinate pair in the unit square.
pub fn crt_remap(u: i64, v: i64) -> (r: (i64, i64))
    requires
        0 <= u <= FX_ONE,
        0 <= v <= FX_ONE,
    ensures
        r.0 == crt_remap_u_spec(u as int, v as int),
        r.1 == crt_remap_v_spec(u as int, v as int),
        -FX_ONE <= r.0 <= 2 * FX_ONE,
        -FX_ONE <= r.1 <= 2 * FX_ONE,
{
    let a = 2 * u - FX_ONE;
    let b = 2 * v - FX_ONE;
    let aa = if a >= 0 {
        a
    } else {
        -a
    };
    let ab = if b >= 0 {
        b
    } else {
        -b
    };
    let qb = div_trunc(ab, 6);
    let qa = div_trunc(aa, 4);
    proof {
        lemma_tdiv_ratio(ab as int, 6, 1000);
        lemma_tdiv_ratio(aa as int, 4, 1500);
        assert(0 <= qb * qb <= 1_000_000 && 0 <= qa * qa <= 2_250_000) by (nonlinear_arith)
            requires
                0 <= qb <= 1000,
                0 <= qa <= 1500,
        ;
        lemma_tdiv_ratio(qb * qb, FX_ONE as int, 6000);
        lemma_tdiv_ratio(qa * qa, FX_ONE as int, 6000);
    }
    let sb = fx_mul(qb, qb);
    let sa = fx_mul(qa, qa);
    proof {
        lemma_fx_scale_bounds(a as int, sb as int);
        lemma_fx_scale_bounds(b as int, sa as int);
    }
    let a1 = a + fx_mul(a, sb);
    let b1 = b + fx_mul(b, sa);
    let ru = div_trunc(a1 + FX_ONE, 2);
    let rv = div_trunc(b1 + FX_ONE, 2);
    proof {
        lemma_tdiv_ratio(a1 + FX_ONE as int, 2, 9000);
        lemma_tdiv_ratio(b1 + FX_ONE as int, 2, 9000);
    }
    (ru, rv)
}

/// Tenth power of `FX_ONE`: the largest argument the vignette hands to the
/// tenth root.
pub const POW10_FX_ONE: u128 = 60466176000000000000000000000000000000;

/// Seventh power of `FX_ONE`: the scale factor that turns a cubed
/// fixed-point value into a tenth-root argument.
pub const POW7_FX_ONE: u128 = 279936000000000000000000000;

/// The vignette factor at `(u, v)`: the fixed-point value of
/// `clamp((16 u v (1-u) (1-v)) ^ 0.3, 0, 1)`, darker toward the edges and
/// exactly zero on the border of the unit square. The 0.3 power is the
/// floor of the tenth root of the cube.
pub open spec fn vignette_spec(u: int, v: int) -> int {
    let bu = fx_mul_spec(u, FX_ONE as int - u);
    let bv = fx_mul_spec(v, FX_ONE as int - v);
    let base = 16 * fx_mul_spec(bu, bv);
    clamp_spec(
        crate::fx::root10_floor((base * base * base * POW7_FX_ONE as int) as nat) as int,
        0,
        FX_ONE as int,
    )
}

/// The vignette factor at `(u, v)`.
pub fn vignette(u: i64, v: i64) -> (r: i64)
    requires
        0 <= u <= FX_ONE,
        0 <= v <= FX_ONE,
    ensures
        r == vignette_spec(u as int, v as int),
        0 <= r <= FX_ONE,
{
    proof {
        assert(0 <= u * (6000 - u) <= 9_000_000 && 0 <= v * (6000 - v) <= 9_000_000)
            by (nonlinear_arith)
            requires
                0 <= u <= 6000,
                0 <= v <= 6000,
        ;
        lemma_tdiv_ratio(u * (FX_ONE as int - u), FX_ONE as int, 1500);
        lemma_tdiv_ratio(v * (FX_ONE as int - v), FX_ONE as int, 1500);
    }
    let bu = fx_mul(u, FX_ONE - u);
    let bv = fx_mul(v, FX_ONE - v);
    proof {
        assert(0 <= bu * bv <= 2_250_000) by (nonlinear_arith)
            requires
                0 <= bu <= 1500,
                0 <= bv <= 1500,
        ;
        lemma_tdiv_ratio(bu * bv, FX_ONE as int, 375);
    }
    let base = 16 * fx_mul(bu, bv);
    let n: u128 = base as u128;
    proof {
        assert(0 <= (n as int) * (n as int) <= 36_000_000) by (nonlinear_arith)
            requires
                0 <= (n as int) <= 6000,
        ;
    }
    let n2 = n * n;
    proof {
        assert(0 <= (n2 as int) * (n as int) <= 216_000_000_000) by (nonlinear_arith)
            requires
                0 <= (n2 as int) <= 36_000_000,
                0 <= (n as int) <= 6000,
        ;
    }
    let n3 = n2 * n;
    proof {
        lemma_mul_inequality(n3 as int, 216_000_000_000, POW7_FX_ONE as int);
        vstd::arithmetic::mul::lemma_mul_nonnegative(n3 as int, POW7_FX_ONE as int);
        assert(216_000_000_000 * 279936000000000000000000000int
            == 60466176000000000000000000000000000000int) by (nonlinear_arith);
    }
    let m = n3 * POW7_FX_ONE;
    proof {
        assert(crate::fx::pow10(FX_ONE as int) == POW10_FX_ONE as int) by (nonlinear_arith)
            requires
                FX_ONE == 6000,
                POW10_FX_ONE == 60466176000000000000000000000000000000u128,
        ;
        assert(m as int == (base as int) * (base as int) * (base as int) * (POW7_FX_ONE as int))
            by (nonlinear_arith)
            requires
                m as int == (n3 as int) * (POW7_FX_ONE as int),
                n3 as int == (n2 as int) * (n as int),
                n2 as int == (n as int) * (n as int),
                n as int == base as int,
        ;
    }
    let rt = crate::fx::root10(m);
    clamp(rt, 0, FX_ONE)
}

/// On the border of the unit square the vignette is exactly zero: any of
/// `u = 0`, `u = 1`, `v = 0`, `v = 1` forces the whole product under the
/// root to vanish.
pub proof fn lemma_vignette_boundary(u: int, v: int)
    requires
        0 <= u <= FX_ONE as int,
        0 <= v <= FX_ONE as int,
        u == 0 || u == FX_ONE as int || v == 0 || v == FX_ONE as int,
    ensures
        vignette_spec(u, v) == 0,
{
    vstd::arithmetic::div_mod::lemma_div_of0(FX_ONE as int);
    let bu = fx_mul_spec(u, FX_ONE as int - u);
    let bv = fx_mul_spec(v, FX_ONE as int - v);
    if u == 0 || u == FX_ONE as int {
        assert(u * (FX_ONE as int - u) == 0) by (nonlinear_arith)
            requires
                u == 0 || u == FX_ONE as int,
        ;
        assert(bu == 0);
        assert(bu * bv == 0) by (nonlinear_arith)
            requires
                bu == 0,
        ;
    } else {
        assert(v * (FX_ONE as int - v) == 0) by (nonlinear_arith)
            requires
                v == 0 || v == FX_ONE as int,
        ;
        assert(bv == 0);
        assert(bu * bv == 0) by (nonlinear_arith)
            requires
                bv == 0,
        ;
    }
    assert(fx_mul_spec(bu, bv) == 0);
    let base = 16 * fx_mul_spec(bu, bv);
    assert(base == 0);
    assert(base * base * base * (POW7_FX_ONE as int) == 0) by (nonlinear_arith)
        requires
            base == 0,
    ;
    assert(crate::fx::root10_floor(0) == 0);
    assert(clamp_spec(0, 0, FX_ONE as int) == 0);
}

/// The CRT pass on one texel, at sampling coordinates `(u, v)`: remap the
/// coordinates through the barrel distortion; texels whose remapped
/// coordinates fall outside the unit square are discarded (opaque black);
/// the rest sample the input there and are darkened by the vignette. Alpha
/// is kept.
pub open spec fn crt_texel_spec(p: Seq<Rgba>, w: int, h: int, u: int, v: int) -> Rgba {
    let ru = crt_remap_u_spec(u, v);
    let rv = crt_remap_v_spec(u, v);
    if ru < 0 || ru > FX_ONE as int || rv < 0 || rv > FX_ONE as int {
        Rgba { r: 0, g: 0, b: 0, a: FX_ONE }
    } else {
        let c = sample_spec(p, w, h, ru, rv);
        let vig = vignette_spec(ru, rv);
        Rgba {
            r: fx_mul_spec(c.r as int, vig) as i64,
            g: fx_mul_spec(c.g as int, vig) as i64,
            b: fx_mul_spec(c.b as int, vig) as i64,
            a: c.a,
        }
    }
}

/// The CRT pass on one texel; see `crt_texel_spec`.
pub fn crt_texel(buf: &FrameBuffer, u: i64, v: i64) -> (r: Rgba)
    requires
        buffer_wf(*buf),
        0 <= u <= FX_ONE,
        0 <= v <= FX_ONE,
    ensures
        r == crt_texel_spec(buf.pixels@, buf.width as int, buf.height as int, u as int, v as int),
        rgba_wf(r),
{
    let (ru, rv) = crt_remap(u, v);
    if ru < 0 || ru > FX_ONE || rv < 0 || rv > FX_ONE {
        Rgba { r: 0, g: 0, b: 0, a: FX_ONE }
    } else {
        let c = sample(buf, ru, rv);
        let vig = vignette(ru, rv);
        proof {
            lemma_fx_scale_bounds(c.r as int, vig as int);
            lemma_fx_scale_bounds(c.g as int, vig as int);
            lemma_fx_scale_bounds(c.b as int, vig as int);
        }
        Rgba { r: fx_mul(c.r, vig), g: fx_mul(c.g, vig), b: fx_mul(c.b, vig), a: c.a }
    }
}

/// The blur tap spacing at height `v`: `(0.5 - v) / 300`, wider near the
/// top of the frame (`v = 0`) and vanishing toward the middle.
pub open spec fn blur_size_spec(v: int) -> int {
    tdiv(3000 - v, 300)
}

/// Running channel sums over blur taps, wide enough that 81 channels can
/// never wrap.
pub struct ColorSum {
    pub r: int,
    pub g: int,
    pub b: int,
    pub a: int,
}

/// The `k`-th of the 81 blur taps at `(u, v)`: the sample offset by
/// `(k / 9 - 4, k % 9 - 4)` tap spacings, covering a 9 by 9 grid centered
/// on `(u, v)`.
pub open spec fn blur_tap_spec(p: Seq<Rgba>, w: int, h: int, u: int, v: int, k: int) -> Rgba {
    let bs = blur_size_spec(v);
    sample_spec(p, w, h, u + (k / 9 - 4) * bs, v + (k % 9 - 4) * bs)
}

/// The channel sums of the first `k` blur taps at `(u, v)`.
pub open spec fn blur_sum_spec(p: Seq<Rgba>, w: int, h: int, u: int, v: int, k: nat) -> ColorSum
    decreases k,
{
    if k == 0 {
        ColorSum { r: 0, g: 0, b: 0, a: 0 }
    } else {
        let s = blur_sum_spec(p, w, h, u, v, (k - 1) as nat);
        let t = blur_tap_spec(p, w, h, u, v, k - 1);
        ColorSum { r: s.r + t.r, g: s.g + t.g, b: s.b + t.b, a: s.a + t.a }
    }
}

/// The blurred texel at `(u, v)`: the 81 taps averaged with uniform weight
/// `1/81`.
pub open spec fn blur_texel_spec(p: Seq<Rgba>, w: int, h: int, u: int, v: int) -> Rgba {
    let s = blur_sum_spec(p, w, h, u, v, 81);
    Rgba {
        r: tdiv(s.r, 81) as i64,
        g: tdiv(s.g, 81) as i64,
        b: tdiv(s.b, 81) as i64,
        a: tdiv(s.a, 81) as i64,
    }
}

/// The blurred texel at `(u, v)`; see `blur_texel_spec`.
pub fn blur_texel(buf: &FrameBuffer, u: i64, v: i64) -> (r: Rgba)
    requires
        buffer_wf(*buf),
        0 <= u <= FX_ONE,
        0 <= v <= FX_ONE,
    ensures
        r == blur_texel_spec(buf.pixels@, buf.width as int, buf.height as int, u as int, v as int),
        rgba_wf(r),
{
    proof {
        lemma_tdiv_ratio(3000 - v as int, 300, 10);
    }
    let bs = div_trunc(3000 - v, 300);
    let ghost p = buf.pixels@;
    let ghost wi = buf.width as int;
    let ghost hi = buf.height as int;
    let mut sr: i64 = 0;
    let mut sg: i64 = 0;
    let mut sb: i64 = 0;
    let mut sa: i64 = 0;
    let mut k: usize = 0;
    while k < 81
        invariant
            buffer_wf(*buf),
            0 <= u <= FX_ONE,
            0 <= v <= FX_ONE,
            p == buf.pixels@,
            wi == buf.width as int,
            hi == buf.height as int,
            bs == blur_size_spec(v as int),
            -10 <= bs <= 10,
            k <= 81,
            sr == blur_sum_spec(p, wi, hi, u as int, v as int, k as nat).r,
            sg == blur_sum_spec(p, wi, hi, u as int, v as int, k as nat).g,
            sb == blur_sum_spec(p, wi, hi, u as int, v as int, k as nat).b,
            sa == blur_sum_spec(p, wi, hi, u as int, v as int, k as nat).a,
            0 <= sr <= k * CHANNEL_LIMIT,
            0 <= sg <= k * CHANNEL_LIMIT,
            0 <= sb <= k * CHANNEL_LIMIT,
            0 <= sa <= k * CHANNEL_LIMIT,
        decreases 81 - k,
    {
        let i = (k / 9) as i64 - 4;
        let j = (k % 9) as i64 - 4;
        proof {
            assert(-40 <= i * bs <= 40 && -40 <= j * bs <= 40) by (nonlinear_arith)
                requires
                    -4 <= i <= 4,
                    -4 <= j <= 4,
                    -10 <= bs <= 10,
            ;
        }
        let tu = u + i * bs;
        let tv = v + j * bs;
        let t = sample(buf, tu, tv);
        proof {
            assert(t == blur_tap_spec(p, wi, hi, u as int, v as int, k as int));
            assert(blur_sum_spec(p, wi, hi, u as int, v as int, (k + 1) as nat) == (ColorSum {
                r: blur_sum_spec(p, wi, hi, u as int, v as int, k as nat).r + t.r,
                g: blur_sum_spec(p, wi, hi, u as int, v as int, k as nat).g + t.g,
                b: blur_sum_spec(p, wi, hi, u as int, v as int, k as nat).b + t.b,
                a: blur_sum_spec(p, wi, hi, u as int, v as int, k as nat).a + t.a,
            }));
        }
        sr = sr + t.r;
        sg = sg + t.g;
        sb = sb + t.b;
        sa = sa + t.a;
        k = k + 1;
    }
    proof {
        lemma_tdiv_ratio(sr as int, 81, CHANNEL_LIMIT as int);
        lemma_tdiv_ratio(sg as int, 81, CHANNEL_LIMIT as int);
        lemma_tdiv_ratio(sb as int, 81, CHANNEL_LIMIT as int);
        lemma_tdiv_ratio(sa as int, 81, CHANNEL_LIMIT as int);
    }
    Rgba {
        r: div_trunc(sr, 81),
        g: div_trunc(sg, 81),
        b: div_trunc(sb, 81),
        a: div_trunc(sa, 81),
    }
}

/// Every texel of the frame is the same color `c`.
pub open spec fn uniform_pixels(p: Seq<Rgba>, c: Rgba) -> bool {
    forall|k: int| 0 <= k < p.len() ==> p[k] == c
}

/// On a uniform frame every blur tap reads the same color, so the sums grow
/// linearly.
proof fn lemma_blur_sum_uniform(
    p: Seq<Rgba>,
    w: int,
    h: int,
    c: Rgba,
    u: int,
    v: int,
    k: nat,
)
    requires
        1 <= w,
        1 <= h,
        p.len() == w * h,
        uniform_pixels(p, c),
    ensures
        blur_sum_spec(p, w, h, u, v, k).r == k * c.r,
        blur_sum_spec(p, w, h, u, v, k).g == k * c.g,
        blur_sum_spec(p, w, h, u, v, k).b == k * c.b,
        blur_sum_spec(p, w, h, u, v, k).a == k * c.a,
    decreases k,
{
    if k == 0 {
        assert(blur_sum_spec(p, w, h, u, v, 0) == (ColorSum { r: 0, g: 0, b: 0, a: 0 }));
        assert(0 * c.r == 0 && 0 * c.g == 0 && 0 * c.b == 0 && 0 * c.a == 0) by (nonlinear_arith);
    } else {
        lemma_blur_sum_uniform(p, w, h, c, u, v, (k - 1) as nat);
        let t = blur_tap_spec(p, w, h, u, v, k - 1);
        let bs = blur_size_spec(v);
        let ix = sample_ix_spec(w, u + ((k - 1) as int / 9 - 4) * bs);
        let iy = sample_ix_spec(h, v + ((k - 1) as int % 9 - 4) * bs);
        lemma_row_major_index(ix, iy, w, h);
        assert(h * w == w * h) by (nonlinear_arith);
        assert(t == c);
        assert(blur_sum_spec(p, w, h, u, v, k) == (ColorSum {
            r: blur_sum_spec(p, w, h, u, v, (k - 1) as nat).r + t.r,
            g: blur_sum_spec(p, w, h, u, v, (k - 1) as nat).g + t.g,
            b: blur_sum_spec(p, w, h, u, v, (k - 1) as nat).b + t.b,
            a: blur_sum_spec(p, w, h, u, v, (k - 1) as nat).a + t.a,
        }));
        assert(k * c.r == (k - 1) * c.r + c.r && k * c.g == (k - 1) * c.g + c.g && k * c.b == (k
            - 1) * c.b + c.b && k * c.a == (k - 1) * c.a + c.a) by (nonlinear_arith);
    }
}

/// Energy conservation of the box blur: on a uniform color field the 81
/// uniform weights sum to one, so the blur returns the field unchanged,
/// whatever the tap spacing at that height.
pub proof fn lemma_blur_uniform(p: Seq<Rgba>, w: int, h: int, c: Rgba, u: int, v: int)
    requires
        1 <= w,
        1 <= h,
        p.len() == w * h,
        uniform_pixels(p, c),
        rgba_wf(c),
    ensures
        blur_texel_spec(p, w, h, u, v) == c,
{
    lemma_blur_sum_uniform(p, w, h, c, u, v, 81);
    vstd::arithmetic::div_mod::lemma_div_multiples_vanish(c.r as int, 81);
    vstd::arithmetic::div_mod::lemma_div_multiples_vanish(c.g as int, 81);
    vstd::arithmetic::div_mod::lemma_div_multiples_vanish(c.b as int, 81);
    vstd::arithmetic::div_mod::lemma_div_multiples_vanish(c.a as int, 81);
    assert(81 * c.r >= 0 && 81 * c.g >= 0 && 81 * c.b >= 0 && 81 * c.a >= 0);
    assert(tdiv(81 * c.r, 81) == c.r);
    assert(tdiv(81 * c.g, 81) == c.g);
    assert(tdiv(81 * c.b, 81) == c.b);
    assert(tdiv(81 * c.a, 81) == c.a);
}

/// The sampling coordinate of the center of texel `x` out of `w`.
pub open spec fn texel_center_spec(w: int, x: int) -> int {
    tdiv((2 * x + 1) * (FX_ONE as int), 2 * w)
}

/// The sampling coordinate of the center of texel `x` out of `w`.
pub fn texel_center(w: usize, x: usize) -> (r: i64)
    requires
        1 <= w <= 16384,
        x < w,
    ensures
        r == texel_center_spec(w as int, x as int),
        0 <= r <= FX_ONE,
{
    proof {
        lemma_tdiv_ratio((2 * (x as int) + 1) * (FX_ONE as int), 2 * (w as int), FX_ONE as int);
    }
    let num = (2 * x + 1) as i64 * FX_ONE;
    div_trunc(num, (2 * w) as i64)
}

/// The texels the CRT pass produces over a `w` by `h` frame: each output
/// texel is the CRT pass evaluated at its own texel center.
pub open spec fn crt_pixels_spec(p: Seq<Rgba>, w: int, h: int) -> Seq<Rgba> {
    Seq::new(
        (w * h) as nat,
        |k: int|
            crt_texel_spec(p, w, h, texel_center_spec(w, k % w), texel_center_spec(h, k / w)),
    )
}

/// The full-frame CRT pass: barrel distortion, discard outside the unit
/// square, vignette; dimensions kept.
pub fn crt_pass(buf: &FrameBuffer) -> (out: FrameBuffer)
    requires
        buffer_wf(*buf),
    ensures
        out.width == buf.width,
        out.height == buf.height,
        out.pixels@ == crt_pixels_spec(buf.pixels@, buf.width as int, buf.height as int),
        buffer_wf(out),
{
    let w = buf.width;
    let h = buf.height;
    proof {
        assert(0 < (w as int) * (h as int) <= 268_435_456) by (nonlinear_arith)
            requires
                1 <= w <= 16384,
                1 <= h <= 16384,
        ;
    }
    let n = w * h;
    let mut pixels: Vec<Rgba> = Vec::new();
    let mut k: usize = 0;
    while k < n
        invariant
            buffer_wf(*buf),
            w == buf.width,
            h == buf.height,
            n == w * h,
            k <= n,
            pixels@.len() == k,
            forall|j: int|
                0 <= j < k ==> pixels@[j] == crt_pixels_spec(
                    buf.pixels@,
                    w as int,
                    h as int,
                )[j],
            forall|j: int| 0 <= j < k ==> rgba_wf(#[trigger] pixels@[j]),
        decreases n - k,
    {
        let x = k % w;
        let y = k / w;
        proof {
            vstd::arithmetic::div_mod::lemma_mod_division_less_than_divisor(k as int, w as int);
            vstd::arithmetic::div_mod::lemma_multiply_divide_lt(k as int, w as int, h as int);
        }
        let u = texel_center(w, x);
        let v = texel_center(h, y);
        let c = crt_texel(buf, u, v);
        pixels.push(c);
        k = k + 1;
    }
    proof {
        assert(pixels@ =~= crt_pixels_spec(buf.pixels@, w as int, h as int));
        assert((w as int) * (h as int) == (h as int) * (w as int)) by (nonlinear_arith);
    }
    FrameBuffer { width: w, height: h, pixels }
}

/// The texels the blur pass produces over a `w` by `h` frame.
pub open spec fn blur_pixels_spec(p: Seq<Rgba>, w: int, h: int) -> Seq<Rgba> {
    Seq::new(
        (w * h) as nat,
        |k: int|
            blur_texel_spec(p, w, h, texel_center_spec(w, k % w), texel_center_spec(h, k / w)),
    )
}

/// The full-frame box-blur pass; dimensions kept.
pub fn blur_pass(buf: &FrameBuffer) -> (out: FrameBuffer)
    requires
        buffer_wf(*buf),
    ensures
        out.width == buf.width,
        out.height == buf.height,
        out.pixels@ == blur_pixels_spec(buf.pixels@, buf.width as int, buf.height as int),
        buffer_wf(out),
{
    let w = buf.width;
    let h = buf.height;
    proof {
        assert(0 < (w as int) * (h as int) <= 268_435_456) by (nonlinear_arith)
            requires
                1 <= w <= 16384,
                1 <= h <= 16384,
        ;
    }
    let n = w * h;
    let mut pixels: Vec<Rgba> = Vec::new();
    let mut k: usize = 0;
    while k < n
        invariant
            buffer_wf(*buf),
            w == buf.width,
            h == buf.height,
            n == w * h,
            k <= n,
            pixels@.len() == k,
            forall|j: int|
                0 <= j < k ==> pixels@[j] == blur_pixels_spec(
                    buf.pixels@,
                    w as int,
                    h as int,
                )[j],
            forall|j: int| 0 <= j < k ==> rgba_wf(#[trigger] pixels@[j]),
        decreases n - k,
    {
        let x = k % w;
        let y = k / w;
        proof {
            vstd::arithmetic::div_mod::lemma_mod_division_less_than_divisor(k as int, w as int);
            vstd::arithmetic::div_mod::lemma_multiply_divide_lt(k as int, w as int, h as int);
        }
        let u = texel_center(w, x);
        let v = texel_center(h, y);
        let c = blur_texel(buf, u, v);
        pixels.push(c);
        k = k + 1;
    }
    proof {
        assert(pixels@ =~= blur_pixels_spec(buf.pixels@, w as int, h as int));
        assert((w as int) * (h as int) == (h as int) * (w as int)) by (nonlinear_arith);
    }
    FrameBuffer { width: w, height: h, pixels }
}

/// The two-pass CRT effect: the CRT curve first, then the box blur over its
/// output, exactly in that order.
pub fn crt_blur_composite(buf: &FrameBuffer) -> (out: FrameBuffer)
    requires
        buffer_wf(*buf),
    ensures
        out.width == buf.width,
        out.height == buf.height,
        out.pixels@ == blur_pixels_spec(
            crt_pixels_spec(buf.pixels@, buf.width as int, buf.height as int),
            buf.width as int,
            buf.height as int,
        ),
        buffer_wf(out),
{
    let mid = crt_pass(buf);
    blur_pass(&mid)
}

/// The CRT-plus-blur stage as the host runs it: while the GPU pipeline for
/// the effect is still being compiled (a cold start, not a fault) the stage
/// skips compositing and passes the frame through unchanged; once ready it
/// composites every frame.
pub fn crt_blur_when_ready(pipeline_ready: bool, buf: FrameBuffer) -> (out: FrameBuffer)
    requires
        buffer_wf(buf),
    ensures
        !pipeline_ready ==> out == buf,
        pipeline_ready ==> out.width == buf.width && out.height == buf.height && out.pixels@
            == blur_pixels_spec(
            crt_pixels_spec(buf.pixels@, buf.width as int, buf.height as int),
            buf.width as int,
            buf.height as int,
        ),
        buffer_wf(out),
{
    if pipeline_ready {
        crt_blur_composite(&buf)
    } else {
        buf
    }
}

/// A frame filled with one color; the starting point of a render, and of
/// every test that feeds the passes.
pub fn filled_frame(width: usize, height: usize, color: Rgba) -> (r: FrameBuffer)
    requires
        1 <= width <= 16384,
        1 <= height <= 16384,
        rgba_wf(color),
    ensures
        r.width == width,
        r.height == height,
        buffer_wf(r),
        uniform_pixels(r.pixels@, color),
{
    proof {
        assert(0 < (width as int) * (height as int) <= 268_435_456) by (nonlinear_arith)
            requires
                1 <= width <= 16384,
                1 <= height <= 16384,
        ;
    }
    let n = width * height;
    let mut pixels: Vec<Rgba> = Vec::new();
    let mut k: usize = 0;
    while k < n
        invariant
            k <= n,
            pixels@.len() == k,
            rgba_wf(color),
            forall|j: int| 0 <= j < k ==> pixels@[j] == color,
        decreases n - k,
    {
        pixels.push(color);
        k = k + 1;
    }
    FrameBuffer { width, height, pixels }
}

/// The host-facing shape of a compositing stage: one entry point, run once
/// per frame after the scene pass, consuming the rendered frame and the
/// per-frame parameters and producing the frame to present, always of the
/// same dimensions.
pub trait CompositingStage {
    /// Apply the effect to one frame.
    fn apply(&self, input: &FrameBuffer, params: &PostProcessParams) -> (out: FrameBuffer)
        requires
            buffer_wf(*input),
            params_wf(*params),
        ensures
            out.width == input.width,
            out.height == input.height,
    ;
}

/// The intensity pass-through effect as a compositing stage.
pub struct IntensityStage;

impl CompositingStage for IntensityStage {
    fn apply(&self, input: &FrameBuffer, params: &PostProcessParams) -> (out: FrameBuffer)
        ensures
            out.pixels@.len() == input.pixels@.len(),
            forall|k: int|
                0 <= k < input.pixels@.len() ==> out.pixels@[k] == intensity_texel_spec(
                    input.pixels@[k],
                    params.intensity as int,
                ),
    {
        intensity_pass(input, params)
    }
}

/// The CRT-plus-blur effect as a compositing stage; it takes no parameters
/// beyond the frame.
pub struct CrtBlurStage;

impl CompositingStage for CrtBlurStage {
    fn apply(&self, input: &FrameBuffer, params: &PostProcessParams) -> (out: FrameBuffer)
        ensures
            out.pixels@ == blur_pixels_spec(
                crt_pixels_spec(input.pixels@, input.width as int, input.height as int),
                input.width as int,
                input.height as int,
            ),
            buffer_wf(out),
    {
        crt_blur_composite(input)
    }
}

} // verus!
