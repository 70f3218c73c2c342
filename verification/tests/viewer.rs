use rs_3d_viewer::filter::{post_shader_filter, rt_texture_filter, TextureSampling, UpscaleFilter};
use rs_3d_viewer::hud::{hud_layout, HudLabel, TextPos};
use rs_3d_viewer::layout::{compute_dest, integer_scale_factor, DestRect, SUBPIXELS};

const ALL_FILTERS: [UpscaleFilter; 4] =
    [UpscaleFilter::Point, UpscaleFilter::Linear, UpscaleFilter::Bilinear, UpscaleFilter::Cubic];

#[test]
fn shader_mode_numbers() {
    assert_eq!(UpscaleFilter::Point.shader_mode(), 0);
    assert_eq!(UpscaleFilter::Linear.shader_mode(), 1);
    assert_eq!(UpscaleFilter::Bilinear.shader_mode(), 2);
    assert_eq!(UpscaleFilter::Cubic.shader_mode(), 3);
}

#[test]
fn post_shader_filter_follows_upscale_without_integer_scale() {
    for f in ALL_FILTERS {
        assert_eq!(post_shader_filter(f, false), f);
    }
}

#[test]
fn integer_scale_forces_point_everywhere() {
    for f in ALL_FILTERS {
        assert_eq!(post_shader_filter(f, true), UpscaleFilter::Point);
        assert_eq!(post_shader_filter(f, true).shader_mode(), 0);
        assert_eq!(rt_texture_filter(f, true), TextureSampling::Point);
    }
}

#[test]
fn gpu_bilinear_only_for_linear() {
    assert_eq!(rt_texture_filter(UpscaleFilter::Linear, false), TextureSampling::Bilinear);
    assert_eq!(rt_texture_filter(UpscaleFilter::Point, false), TextureSampling::Point);
    assert_eq!(rt_texture_filter(UpscaleFilter::Bilinear, false), TextureSampling::Point);
    assert_eq!(rt_texture_filter(UpscaleFilter::Cubic, false), TextureSampling::Point);
}

#[test]
fn no_double_filtering() {
    for f in ALL_FILTERS {
        for integer_scale in [false, true] {
            let gpu = rt_texture_filter(f, integer_scale);
            let mode = post_shader_filter(f, integer_scale).shader_mode();
            assert_eq!(gpu == TextureSampling::Bilinear, mode == 1);
            if mode >= 2 {
                assert_eq!(gpu, TextureSampling::Point);
            }
        }
    }
}

#[test]
fn integer_factor_largest_multiple() {
    assert_eq!(integer_scale_factor(1280, 960), 2);
    assert_eq!(integer_scale_factor(1919, 1080), 2);
    assert_eq!(integer_scale_factor(1920, 1440), 3);
    assert_eq!(integer_scale_factor(3000, 1000), 2);
}

#[test]
fn integer_factor_at_least_one() {
    assert_eq!(integer_scale_factor(100, 100), 1);
    assert_eq!(integer_scale_factor(0, 0), 1);
    assert_eq!(integer_scale_factor(639, 2000), 1);
}

#[test]
fn integer_factor_reads_negative_sizes_unsigned() {
    // -1 read as u32 is 4294967295; 4294967295 / 640 = 6710886, 4294967295 / 480 = 8947848.
    assert_eq!(integer_scale_factor(-1, -1), 6710886);
    assert_eq!(integer_scale_factor(-1, 960), 2);
}

fn px(v: i64) -> f64 {
    v as f64 / SUBPIXELS as f64
}

#[test]
fn fit_exact_aspect_window() {
    let r = compute_dest(1280, 960, false);
    assert_eq!((px(r.x), px(r.y), px(r.width), px(r.height)), (0.0, 0.0, 1280.0, 960.0));
}

#[test]
fn fit_letterbox_wide_window() {
    // 1920x1080: height limits, scale 2.25, image 1440x1080 centred horizontally.
    let r = compute_dest(1920, 1080, false);
    assert_eq!((px(r.x), px(r.y), px(r.width), px(r.height)), (240.0, 0.0, 1440.0, 1080.0));
}

#[test]
fn fit_pillarbox_tall_window() {
    // 800x1000: width limits, scale 1.25, image 800x600 centred vertically.
    let r = compute_dest(800, 1000, false);
    assert_eq!((px(r.x), px(r.y), px(r.width), px(r.height)), (0.0, 200.0, 800.0, 600.0));
}

#[test]
fn fit_fractional_sizes_exact() {
    // 1001x1000: width limits, height 1001 * 3 / 4 = 750.75, y = (1000 - 750.75) / 2.
    let r = compute_dest(1001, 1000, false);
    assert_eq!(r, DestRect { x: 0, y: 12 * 1000 - 9 * 1001, width: 24 * 1001, height: 18 * 1001 });
    assert_eq!(px(r.height), 750.75);
    assert_eq!(px(r.y), 124.625);
    // 1000x700: height limits, width 700 * 4 / 3.
    let r = compute_dest(1000, 700, false);
    assert_eq!(r, DestRect { x: 12 * 1000 - 16 * 700, y: 0, width: 32 * 700, height: 24 * 700 });
}

#[test]
fn fit_zero_window() {
    let r = compute_dest(0, 500, false);
    assert_eq!(r, DestRect { x: 0, y: 12 * 500, width: 0, height: 0 });
}

#[test]
fn integer_scale_dest() {
    // 1920x1080: factor 2, image 1280x960 centred.
    let r = compute_dest(1920, 1080, true);
    assert_eq!((px(r.x), px(r.y), px(r.width), px(r.height)), (320.0, 60.0, 1280.0, 960.0));
}

#[test]
fn integer_scale_small_window_overflows_centred() {
    // Below the internal size the factor stays 1 and the image hangs over both edges.
    let r = compute_dest(320, 240, true);
    assert_eq!((px(r.x), px(r.y), px(r.width), px(r.height)), (-160.0, -120.0, 640.0, 480.0));
}

#[test]
fn dest_keeps_aspect_and_centre() {
    for (w, h) in [(1280, 960), (1920, 1080), (333, 1017), (7, 3), (640, 480), (-50, 90)] {
        for integer_scale in [false, true] {
            let r = compute_dest(w, h, integer_scale);
            assert_eq!(r.width * 480, r.height * 640);
            assert_eq!(2 * r.x + r.width, SUBPIXELS * w as i64);
            assert_eq!(2 * r.y + r.height, SUBPIXELS * h as i64);
        }
    }
}

#[test]
fn fit_touches_one_side_and_stays_inside() {
    for (w, h) in [(1280, 960), (1920, 1080), (333, 1017), (7, 3), (1, 1000)] {
        let r = compute_dest(w, h, false);
        assert!(r.x >= 0 && r.y >= 0);
        assert!(r.width <= SUBPIXELS * w as i64 && r.height <= SUBPIXELS * h as i64);
        assert!(r.width == SUBPIXELS * w as i64 || r.height == SUBPIXELS * h as i64);
    }
}

#[test]
fn integer_scale_never_larger_than_fit() {
    for (w, h) in [(1280, 960), (1920, 1080), (1000, 2000), (640, 480), (3000, 1000)] {
        let i = compute_dest(w, h, true);
        let f = compute_dest(w, h, false);
        assert!(i.width <= f.width && i.height <= f.height);
    }
}

#[test]
fn hud_no_model() {
    let l = hud_layout(1280, 960, 400, false, false);
    assert_eq!(l.label, Some((HudLabel::NoModel, TextPos { x: 20, y: 462 })));
    assert_eq!(l.help, TextPos { x: 872, y: 8 });
    // An odd height halves toward zero, also when negative.
    let l = hud_layout(1280, 961, 400, false, true);
    assert_eq!(l.label, Some((HudLabel::NoModel, TextPos { x: 20, y: 462 })));
    let l = hud_layout(1280, -5, 400, false, false);
    assert_eq!(l.label, Some((HudLabel::NoModel, TextPos { x: 20, y: -20 })));
}

#[test]
fn hud_file_name() {
    let l = hud_layout(1280, 960, 400, true, true);
    assert_eq!(l.label, Some((HudLabel::FileName, TextPos { x: 1260, y: 938 })));
    assert_eq!(l.help, TextPos { x: 872, y: 8 });
}

#[test]
fn hud_model_without_path_has_no_label() {
    let l = hud_layout(800, 600, 100, true, false);
    assert!(l.label.is_none());
    assert_eq!(l.help, TextPos { x: 692, y: 8 });
}
