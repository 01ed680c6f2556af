use scenekit::fx::FX_ONE;
use scenekit::post::CompositingStage;
use scenekit::post::CrtBlurStage;
use scenekit::post::FrameBuffer;
use scenekit::post::IntensityStage;
use scenekit::post::PostProcessParams;
use scenekit::post::Rgba;
use scenekit::post::blur_pass;
use scenekit::post::blur_texel;
use scenekit::post::crt_blur_when_ready;
use scenekit::post::crt_pass;
use scenekit::post::crt_remap;
use scenekit::post::crt_texel;
use scenekit::post::filled_frame;
use scenekit::post::intensity_pass;
use scenekit::post::intensity_texel;
use scenekit::post::sample;
use scenekit::post::texel_center;
use scenekit::post::vignette;

fn gray(v: i64) -> Rgba {
    Rgba { r: v, g: v, b: v, a: FX_ONE }
}

#[test]
fn intensity_zero_is_the_identity() {
    let c = Rgba { r: 1234, g: 0, b: 987_654, a: 4321 };
    assert_eq!(intensity_texel(&c, 0), c);
}

#[test]
fn intensity_scales_each_channel_exactly() {
    let c = Rgba { r: 6000, g: 3000, b: 100, a: 777 };
    let out = intensity_texel(&c, 3000);
    // Each channel grows by half of itself, rounded toward zero.
    assert_eq!(out.r, 9000);
    assert_eq!(out.g, 4500);
    assert_eq!(out.b, 150);
    assert_eq!(out.a, 777);
}

#[test]
fn intensity_is_monotone_in_the_knob() {
    let c = gray(5000);
    let lo = intensity_texel(&c, 1000);
    let mid = intensity_texel(&c, 3000);
    let hi = intensity_texel(&c, 6000);
    assert!(lo.r <= mid.r && mid.r <= hi.r);
    assert_eq!(hi.r, 10_000);
}

#[test]
fn intensity_pass_transforms_every_texel() {
    let frame = filled_frame(4, 3, gray(6000));
    let params = PostProcessParams::clamped(3000);
    let out = intensity_pass(&frame, &params);
    assert_eq!(out.width, 4);
    assert_eq!(out.height, 3);
    assert_eq!(out.pixels.len(), 12);
    for p in &out.pixels {
        assert_eq!(p.r, 9000);
        assert_eq!(p.a, FX_ONE);
    }
}

#[test]
fn params_are_clamped_into_range() {
    assert_eq!(PostProcessParams::clamped(9000).intensity, FX_ONE);
    assert_eq!(PostProcessParams::clamped(-5).intensity, 0);
    assert_eq!(PostProcessParams::clamped(2500).intensity, 2500);
}

#[test]
fn sampling_is_nearest_with_clamping() {
    let pixels = vec![gray(10), gray(20), gray(30), gray(40)];
    let frame = FrameBuffer { width: 2, height: 2, pixels };
    // Texel centers of a 2x2 frame are at 1500 and 4500.
    assert_eq!(sample(&frame, 1500, 1500).r, 10);
    assert_eq!(sample(&frame, 4500, 1500).r, 20);
    assert_eq!(sample(&frame, 1500, 4500).r, 30);
    assert_eq!(sample(&frame, 4500, 4500).r, 40);
    // Out-of-range coordinates clamp to the border.
    assert_eq!(sample(&frame, -500, -500).r, 10);
    assert_eq!(sample(&frame, 9000, 9000).r, 40);
}

#[test]
fn texel_centers_sit_inside_the_unit_square() {
    assert_eq!(texel_center(2, 0), 1500);
    assert_eq!(texel_center(2, 1), 4500);
    assert_eq!(texel_center(3, 1), 3000);
    let first = texel_center(16384, 0);
    let last = texel_center(16384, 16383);
    assert!(0 <= first && last <= FX_ONE);
}

#[test]
fn vignette_vanishes_on_the_border() {
    for t in [0, 1500, 3000, 4500, 6000] {
        assert_eq!(vignette(0, t), 0);
        assert_eq!(vignette(FX_ONE, t), 0);
        assert_eq!(vignette(t, 0), 0);
        assert_eq!(vignette(t, FX_ONE), 0);
    }
}

#[test]
fn vignette_is_full_at_the_center_and_fades_outward() {
    assert_eq!(vignette(3000, 3000), FX_ONE);
    let off_center = vignette(1500, 3000);
    assert!(0 < off_center && off_center < FX_ONE);
    let farther = vignette(600, 3000);
    assert!(farther < off_center);
}

#[test]
fn crt_keeps_the_center_and_discards_the_corner() {
    let frame = filled_frame(8, 8, gray(4000));
    // The exact center is a fixed point of the distortion with vignette one.
    assert_eq!(crt_remap(3000, 3000), (3000, 3000));
    let center = crt_texel(&frame, 3000, 3000);
    assert_eq!(center, gray(4000));
    // The very corner remaps outside the unit square: opaque black.
    let corner = crt_texel(&frame, 0, 0);
    assert_eq!(corner, Rgba { r: 0, g: 0, b: 0, a: FX_ONE });
}

#[test]
fn crt_pass_keeps_dimensions() {
    let frame = filled_frame(6, 4, gray(2500));
    let out = crt_pass(&frame);
    assert_eq!(out.width, 6);
    assert_eq!(out.height, 4);
    assert_eq!(out.pixels.len(), 24);
    // Every surviving texel is darkened or discarded, never brightened.
    for p in &out.pixels {
        assert!(p.r <= 2500);
    }
}

#[test]
fn blur_conserves_a_uniform_field() {
    let frame = filled_frame(8, 6, gray(123_456));
    // Wherever it is evaluated, and whatever the tap spacing there, the 81
    // uniform weights sum to one.
    for (u, v) in [(0, 0), (3000, 3000), (6000, 0), (1500, 4500)] {
        assert_eq!(blur_texel(&frame, u, v), gray(123_456));
    }
    let out = blur_pass(&frame);
    assert_eq!(out.width, 8);
    assert_eq!(out.height, 6);
    for p in &out.pixels {
        assert_eq!(*p, gray(123_456));
    }
}

#[test]
fn cold_start_passes_the_frame_through() {
    let frame = crt_blur_when_ready(false, filled_frame(4, 4, gray(2000)));
    for p in &frame.pixels {
        assert_eq!(*p, gray(2000));
    }
    let composited = crt_blur_when_ready(true, frame);
    assert_eq!((composited.width, composited.height), (4, 4));
    // The CRT pass blacks out the frame's rim, so compositing changed it.
    assert_ne!(composited.pixels[0], gray(2000));
}

#[test]
fn stages_keep_frame_dimensions_and_apply_their_effect() {
    let frame = filled_frame(5, 7, gray(3000));
    let params = PostProcessParams::clamped(4000);
    let a = IntensityStage.apply(&frame, &params);
    assert_eq!((a.width, a.height), (5, 7));
    // The intensity stage really ran: every channel grew by two thirds.
    for p in &a.pixels {
        assert_eq!(p.r, 5000);
        assert_eq!(p.a, FX_ONE);
    }
    let b = CrtBlurStage.apply(&frame, &params);
    assert_eq!((b.width, b.height), (5, 7));
    assert_eq!(b.pixels.len(), 35);
    // The CRT stage really ran: its output matches the two passes run by
    // hand, and the rim of the frame was blacked out and blurred down.
    let by_hand = blur_pass(&crt_pass(&frame));
    assert_eq!(b.pixels, by_hand.pixels);
    assert!(b.pixels[0].r < 3000);
}
