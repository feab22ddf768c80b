use nis_scaler::NISConfig;
use nis_scaler::NISHDRMode;
use nis_scaler::NisScaleConfig;
use nis_scaler::NisSharpenConfig;
use nis_scaler::Rat;
use nis_scaler::SHARPNESS_ONE;
use nis_scaler::nv_scaler_update_config;
use nis_scaler::nv_sharpen_update_config;

/// Sharpness 0.25 on the millionths scale.
const QUARTER: i64 = 250_000;

fn approx(r: Rat) -> f64 {
    r.num as f64 / r.den as f64
}

fn derive_scale(
    sharpness: i64,
    ivw: u32,
    ivh: u32,
    itw: u32,
    ith: u32,
    ovw: u32,
    ovh: u32,
    otw: u32,
    oth: u32,
    mode: NISHDRMode,
) -> Option<NISConfig> {
    nv_scaler_update_config(sharpness, 0, 0, ivw, ivh, itw, ith, 0, 0, ovw, ovh, otw, oth, mode)
}

#[test]
fn scale_hd_to_fhd_succeeds() {
    // 1280x720 upscaled to 1920x1080 at sharpness 0.25, standard range.
    let c = derive_scale(QUARTER, 1280, 720, 1280, 720, 1920, 1080, 1920, 1080, NISHDRMode::Sdr)
        .expect("geometry is valid");
    assert_eq!(c.k_scale_x.num, 1280);
    assert_eq!(c.k_scale_x.den, 1920);
    assert_eq!(c.k_scale_y.num, 720);
    assert_eq!(c.k_scale_y.den, 1080);
    assert!((approx(c.k_scale_x) - 0.6667).abs() < 1e-3);
    assert!((approx(c.k_scale_y) - 0.6667).abs() < 1e-3);
    assert_eq!(c.k_detect_ratio.num, 2254);
    assert_eq!(c.k_detect_ratio.den, 1024);
    assert!((approx(c.k_detect_ratio) - 2.2012).abs() < 1e-3);
    assert_eq!(c.k_input_viewport_width, 1280);
    assert_eq!(c.k_input_viewport_height, 720);
    assert_eq!(c.k_output_viewport_width, 1920);
    assert_eq!(c.k_output_viewport_height, 1080);
    assert!((approx(c.k_src_norm_x) - 1.0 / 1280.0).abs() < 1e-9);
    assert!((approx(c.k_dst_norm_y) - 1.0 / 1080.0).abs() < 1e-9);
}

#[test]
fn sdr_curve_at_quarter_sharpness() {
    // Slider -0.25 softens: min 0.4 - 0.25*1.0*1.2 = 0.1,
    // max 1.6 - 0.25*1.75*1.8 = 0.8125, limits 0.06 and 0.35.
    let c = derive_scale(QUARTER, 1280, 720, 1280, 720, 1920, 1080, 1920, 1080, NISHDRMode::Sdr)
        .unwrap();
    assert_eq!(c.k_sharp_strength_min.num, 40_000_000);
    assert_eq!(c.k_sharp_strength_min.den, 400_000_000);
    assert_eq!(c.k_sharp_strength_scale.num, 285_000_000);
    assert_eq!(c.k_sharp_limit_min.num, 40_000_000);
    assert_eq!(c.k_sharp_limit_scale.num, 100_000_000);
    assert!((approx(c.k_sharp_strength_min) - 0.1).abs() < 1e-9);
    assert!((approx(c.k_sharp_strength_scale) - 0.7125).abs() < 1e-9);
    // Limit: min max(0.1, 0.14 - 0.25*1.0*0.32) = 0.1, max 0.5 - 0.25*0.6 = 0.35.
    assert!((approx(c.k_sharp_limit_min) - 0.1).abs() < 1e-9);
    assert!((approx(c.k_sharp_limit_scale) - 0.25).abs() < 1e-9);
    // Fixed constants of the standard-range profile.
    assert_eq!(c.k_detect_thres.num, 64);
    assert_eq!(c.k_detect_thres.den, 1024);
    assert_eq!((c.k_min_contrast_ratio.num, c.k_min_contrast_ratio.den), (4, 2));
    assert_eq!((c.k_ratio_norm.num, c.k_ratio_norm.den), (2, 16));
    assert_eq!((c.k_contrast_boost.num, c.k_contrast_boost.den), (1, 1));
    assert_eq!((c.k_eps.num, c.k_eps.den), (1, 255));
    assert_eq!((c.k_sharp_start_y.num, c.k_sharp_start_y.den), (45, 100));
    assert_eq!((c.k_sharp_scale_y.num, c.k_sharp_scale_y.den), (100, 45));
}

#[test]
fn hdr_curve_at_three_quarter_sharpness() {
    // Linear mode, slider +0.25: min 0.4 + 0.25*1.25*1.1 = 0.74375,
    // max 2.2 + 0.25*1.25*1.8 = 2.7625.
    let c = derive_scale(
        750_000,
        1280,
        720,
        1280,
        720,
        1920,
        1080,
        1920,
        1080,
        NISHDRMode::Linear,
    )
    .unwrap();
    assert_eq!(c.k_sharp_strength_min.num, 297_500_000);
    assert_eq!(c.k_sharp_strength_scale.num, 807_500_000);
    assert_eq!(c.k_sharp_limit_min.num, 75_000_000);
    assert_eq!(c.k_sharp_limit_scale.num, 240_000_000);
    assert!((approx(c.k_sharp_strength_min) - 0.74375).abs() < 1e-9);
    assert!((approx(c.k_sharp_strength_scale) - (2.7625 - 0.74375)).abs() < 1e-9);
    assert_eq!(c.k_detect_thres.num, 32);
    assert_eq!((c.k_min_contrast_ratio.num, c.k_min_contrast_ratio.den), (3, 2));
    assert_eq!((c.k_ratio_norm.num, c.k_ratio_norm.den), (2, 7));
    assert_eq!((c.k_sharp_start_y.num, c.k_sharp_start_y.den), (30, 100));
    assert_eq!((c.k_sharp_scale_y.num, c.k_sharp_scale_y.den), (100, 20));
}

#[test]
fn pq_profile_ramp() {
    let c = derive_scale(QUARTER, 1280, 720, 1280, 720, 1920, 1080, 1920, 1080, NISHDRMode::PQ)
        .unwrap();
    assert_eq!((c.k_sharp_start_y.num, c.k_sharp_start_y.den), (35, 100));
    assert_eq!((c.k_sharp_scale_y.num, c.k_sharp_scale_y.den), (100, 20));
    assert_eq!(c.k_detect_thres.num, 32);
}

#[test]
fn zero_viewport_resolves_to_texture() {
    // A requested extent of zero means "use the full texture" on that axis.
    let c = derive_scale(QUARTER, 0, 0, 1280, 720, 0, 0, 1920, 1080, NISHDRMode::Sdr).unwrap();
    assert_eq!(c.k_input_viewport_width, 1280);
    assert_eq!(c.k_input_viewport_height, 720);
    assert_eq!(c.k_output_viewport_width, 1920);
    assert_eq!(c.k_output_viewport_height, 1080);
    // Mixed: zero width only.
    let c = derive_scale(QUARTER, 0, 720, 1280, 720, 0, 1080, 1920, 1080, NISHDRMode::Sdr)
        .unwrap();
    assert_eq!(c.k_input_viewport_width, 1280);
    assert_eq!(c.k_output_viewport_width, 1920);
}

#[test]
fn zero_resolved_extent_fails() {
    // Input texture 0x0 with viewport 0 resolves to 0: invalid geometry.
    assert!(derive_scale(QUARTER, 0, 0, 0, 0, 1920, 1080, 1920, 1080, NISHDRMode::Sdr).is_none());
    // One zero axis is enough.
    assert!(
        derive_scale(QUARTER, 0, 720, 0, 720, 1920, 1080, 1920, 1080, NISHDRMode::Sdr).is_none()
    );
    assert!(
        derive_scale(QUARTER, 1280, 720, 1280, 720, 0, 1080, 0, 1080, NISHDRMode::Sdr).is_none()
    );
}

#[test]
fn ratio_out_of_band_fails() {
    // 4 / 16 = 0.25 is below the band.
    assert!(derive_scale(QUARTER, 4, 720, 4, 720, 16, 720, 16, 720, NISHDRMode::Sdr).is_none());
    // 100 / 50 = 2.0 is above the band (downscaling is unsupported).
    assert!(derive_scale(QUARTER, 100, 720, 100, 720, 50, 720, 50, 720, NISHDRMode::Sdr).is_none());
    // Just outside the lower edge.
    assert!(
        derive_scale(QUARTER, 959, 720, 959, 720, 1920, 1440, 1920, 1440, NISHDRMode::Sdr)
            .is_none()
    );
}

#[test]
fn band_edges_succeed() {
    // Exactly half scale on both axes.
    let c = derive_scale(QUARTER, 960, 540, 960, 540, 1920, 1080, 1920, 1080, NISHDRMode::Sdr)
        .unwrap();
    assert!((approx(c.k_scale_x) - 0.5).abs() < 1e-12);
    // Exactly unit scale.
    let c = derive_scale(QUARTER, 1920, 1080, 1920, 1080, 1920, 1080, 1920, 1080, NISHDRMode::Sdr)
        .unwrap();
    assert!((approx(c.k_scale_y) - 1.0).abs() < 1e-12);
}

#[test]
fn sharpen_fhd_is_unit_scale() {
    let c = nv_sharpen_update_config(QUARTER, 0, 0, 1920, 1080, 1920, 1080, 0, 0, NISHDRMode::Sdr)
        .expect("sharpen-only geometry is valid");
    assert_eq!(c.k_scale_x.num as u64, c.k_scale_x.den);
    assert_eq!(c.k_scale_y.num as u64, c.k_scale_y.den);
    assert!((approx(c.k_scale_x) - 1.0).abs() < 1e-12);
    assert!((approx(c.k_scale_y) - 1.0).abs() < 1e-12);
    assert_eq!(c.k_output_viewport_width, 1920);
    assert_eq!(c.k_output_viewport_height, 1080);
}

#[test]
fn sharpen_zero_viewport_resolves() {
    let c = nv_sharpen_update_config(QUARTER, 0, 0, 0, 0, 1280, 720, 0, 0, NISHDRMode::Sdr)
        .unwrap();
    assert_eq!(c.k_input_viewport_width, 1280);
    assert_eq!(c.k_output_viewport_width, 1280);
    assert!(
        nv_sharpen_update_config(QUARTER, 0, 0, 0, 0, 0, 720, 0, 0, NISHDRMode::Sdr).is_none()
    );
}

#[test]
fn sharpness_monotone_scenario() {
    // Raising the slider never lowers strength-min nor strength-scale.
    // The curve outputs share one denominator, so numerators order values.
    for mode in [NISHDRMode::Sdr, NISHDRMode::Linear, NISHDRMode::PQ] {
        let mut prev_min = i64::MIN;
        let mut prev_scale = i64::MIN;
        for s in [0, 250_000, 500_000, 750_000, SHARPNESS_ONE] {
            let c = derive_scale(s, 1280, 720, 1280, 720, 1920, 1080, 1920, 1080, mode).unwrap();
            assert!(c.k_sharp_strength_min.num >= prev_min);
            assert!(c.k_sharp_strength_scale.num >= prev_scale);
            prev_min = c.k_sharp_strength_min.num;
            prev_scale = c.k_sharp_strength_scale.num;
        }
    }
}

#[test]
fn sharpness_is_clamped() {
    let low = derive_scale(-5, 1280, 720, 1280, 720, 1920, 1080, 1920, 1080, NISHDRMode::Sdr);
    let zero = derive_scale(0, 1280, 720, 1280, 720, 1920, 1080, 1920, 1080, NISHDRMode::Sdr);
    assert_eq!(low, zero);
    let high = derive_scale(
        2 * SHARPNESS_ONE,
        1280,
        720,
        1280,
        720,
        1920,
        1080,
        1920,
        1080,
        NISHDRMode::Sdr,
    );
    let one = derive_scale(
        SHARPNESS_ONE,
        1280,
        720,
        1280,
        720,
        1920,
        1080,
        1920,
        1080,
        NISHDRMode::Sdr,
    );
    assert_eq!(high, one);
}

#[test]
fn origins_are_carried_through() {
    let c = nv_scaler_update_config(
        QUARTER,
        8,
        16,
        1280,
        720,
        1600,
        900,
        24,
        32,
        1920,
        1080,
        2560,
        1440,
        NISHDRMode::Sdr,
    )
    .unwrap();
    assert_eq!(c.k_input_viewport_origin_x, 8);
    assert_eq!(c.k_input_viewport_origin_y, 16);
    assert_eq!(c.k_output_viewport_origin_x, 24);
    assert_eq!(c.k_output_viewport_origin_y, 32);
    assert!((approx(c.k_src_norm_x) - 1.0 / 1600.0).abs() < 1e-12);
    assert!((approx(c.k_dst_norm_x) - 1.0 / 2560.0).abs() < 1e-12);
}

#[test]
fn update_config_replaces_on_success() {
    let mut sc = NisScaleConfig::default();
    assert_eq!(sc.config.k_scale_x.num, 0);
    let ok = sc.update_config(
        QUARTER,
        0,
        0,
        1280,
        720,
        1280,
        720,
        0,
        0,
        1920,
        1080,
        1920,
        1080,
        NISHDRMode::Sdr,
    );
    assert!(ok);
    assert_eq!(sc.config.k_scale_x.num, 1280);
    assert_eq!(sc.config.k_scale_x.den, 1920);
}

#[test]
fn update_config_keeps_record_on_failure() {
    let mut sc = NisScaleConfig::default();
    assert!(sc.update_config(
        QUARTER,
        0,
        0,
        1280,
        720,
        1280,
        720,
        0,
        0,
        1920,
        1080,
        1920,
        1080,
        NISHDRMode::Sdr,
    ));
    let before = sc;
    // 4 / 16 is out of band: the record must stay untouched.
    let ok = sc.update_config(
        QUARTER,
        0,
        0,
        4,
        720,
        4,
        720,
        0,
        0,
        16,
        720,
        16,
        720,
        NISHDRMode::Sdr,
    );
    assert!(!ok);
    assert_eq!(sc, before);
}

#[test]
fn sharpen_update_config_matches_free_function() {
    let mut sh = NisSharpenConfig::default();
    let ok = sh.update_config(QUARTER, 0, 0, 1920, 1080, 1920, 1080, 0, 0, NISHDRMode::Sdr);
    assert!(ok);
    let free =
        nv_sharpen_update_config(QUARTER, 0, 0, 1920, 1080, 1920, 1080, 0, 0, NISHDRMode::Sdr)
            .unwrap();
    assert_eq!(sh.config, free);
}

#[test]
fn default_record_is_zeroed() {
    let c = NISConfig::default();
    assert_eq!(c.k_detect_ratio, Rat { num: 0, den: 1 });
    assert_eq!(c.k_sharp_strength_min, Rat { num: 0, den: 1 });
    assert_eq!(c.k_input_viewport_width, 0);
    assert_eq!(c.k_output_viewport_height, 0);
    assert_eq!(c.reserved0, Rat { num: 0, den: 1 });
}

#[test]
fn rat_new_builds_the_fraction() {
    let r = Rat::new(1280, 1920);
    assert_eq!(r.num, 1280);
    assert_eq!(r.den, 1920);
}
