//! Derivation of the shader-uniform configuration record.
//!
//! [`nv_scaler_update_config`] maps the caller's intent — a sharpness
//! slider, viewport/texture geometry and a dynamic-range mode — to the
//! record of constants the filter's shader stage reads, or reports invalid
//! geometry. Every scalar of the record is an exact fraction ([`Rat`]); the
//! sharpening response curve is a piecewise-linear function of the slider
//! whose coefficients are short decimals, so the whole derivation is exact
//! integer arithmetic.
//!
//! Sharpness is measured in millionths: `0` means no sharpening intent,
//! [`SHARPNESS_ONE`] full sharpening; values outside that band are clamped.

use vstd::prelude::*;

use crate::rational::Rat;
use crate::rational::lemma_le_same_den;

verus! {

/// Classification of the pixel value domain: standard range, linear high
/// range, or perceptual-quantizer high range. It selects the tuning of the
/// sharpening response curve.
#[derive(Debug, Clone, Copy, PartialEq, Eq)]
pub enum NISHDRMode {
    Sdr,
    Linear,
    PQ,
}

/// A full unit on the sharpness slider, in millionths.
pub const SHARPNESS_ONE: i64 = 1_000_000;

/// Half a unit on the sharpness slider, in millionths.
pub const SHARPNESS_HALF: i64 = 500_000;

/// Common denominator of the four response-curve outputs: slider millionths
/// times scale quarters times coefficient hundredths.
pub const CURVE_DEN: u64 = 400_000_000;

/// The shader-uniform record.
///
/// Field order matches the uniform buffer the shader reads: detection and
/// contrast constants, the sharpening response curve, geometric
/// normalization, integer viewport geometry, and two reserved slots kept
/// for alignment.
#[derive(Debug, Clone, Copy, PartialEq, Eq)]
pub struct NISConfig {
    pub k_detect_ratio: Rat,
    pub k_detect_thres: Rat,
    pub k_min_contrast_ratio: Rat,
    pub k_ratio_norm: Rat,

    pub k_contrast_boost: Rat,
    pub k_eps: Rat,
    pub k_sharp_start_y: Rat,
    pub k_sharp_scale_y: Rat,

    pub k_sharp_strength_min: Rat,
    pub k_sharp_strength_scale: Rat,
    pub k_sharp_limit_min: Rat,
    pub k_sharp_limit_scale: Rat,

    pub k_scale_x: Rat,
    pub k_scale_y: Rat,
    pub k_dst_norm_x: Rat,
    pub k_dst_norm_y: Rat,

    pub k_src_norm_x: Rat,
    pub k_src_norm_y: Rat,

    pub k_input_viewport_origin_x: u32,
    pub k_input_viewport_origin_y: u32,
    pub k_input_viewport_width: u32,
    pub k_input_viewport_height: u32,

    pub k_output_viewport_origin_x: u32,
    pub k_output_viewport_origin_y: u32,
    pub k_output_viewport_width: u32,
    pub k_output_viewport_height: u32,

    pub reserved0: Rat,
    pub reserved1: Rat,
}

/// The sharpness slider clamped to one unit, in millionths.
pub open spec fn clamped_ppm(s: int) -> int {
    if s < 0 {
        0
    } else if s > SHARPNESS_ONE {
        SHARPNESS_ONE as int
    } else {
        s
    }
}

/// The centered slider in millionths: negative softens, positive sharpens.
pub open spec fn slider_ppm(s: int) -> int {
    clamped_ppm(s) - SHARPNESS_HALF
}

/// Both high-range modes share one curve tuning.
pub open spec fn is_hdr(m: NISHDRMode) -> bool {
    m is Linear || m is PQ
}

/// Slider scale (in quarters) of the strength-maximum term. The positive
/// half of the slider is damped to avoid over-sharpening near maximum.
pub open spec fn max_scale_q(s: int) -> int {
    if slider_ppm(s) >= 0 {
        5
    } else {
        7
    }
}

/// Slider scale (in quarters) of the strength-minimum and limit terms.
pub open spec fn min_limit_scale_q(s: int) -> int {
    if slider_ppm(s) >= 0 {
        5
    } else {
        4
    }
}

/// Numerator (over [`CURVE_DEN`]) of the minimum sharpening strength:
/// `max(0, 0.4 + slider * min_scale * coef)`.
pub open spec fn strength_min_num(s: int, m: NISHDRMode) -> int {
    let coef = if is_hdr(m) {
        110int
    } else {
        120int
    };
    let raw = 160_000_000 + slider_ppm(s) * min_limit_scale_q(s) * coef;
    if raw < 0 {
        0
    } else {
        raw
    }
}

/// Numerator (over [`CURVE_DEN`]) of the maximum sharpening strength:
/// `base + slider * max_scale * 1.8`.
pub open spec fn strength_max_num(s: int, m: NISHDRMode) -> int {
    let base = if is_hdr(m) {
        880_000_000int
    } else {
        640_000_000int
    };
    base + slider_ppm(s) * max_scale_q(s) * 180
}

/// Numerator (over [`CURVE_DEN`]) of the strength span handed to the shader.
pub open spec fn strength_scale_num(s: int, m: NISHDRMode) -> int {
    strength_max_num(s, m) - strength_min_num(s, m)
}

/// Numerator (over [`CURVE_DEN`]) of the minimum sharpening limit:
/// `max(floor, base + slider * limit_scale * coef)`.
pub open spec fn limit_min_num(s: int, m: NISHDRMode) -> int {
    let floor = if is_hdr(m) {
        24_000_000int
    } else {
        40_000_000int
    };
    let base = if is_hdr(m) {
        40_000_000int
    } else {
        56_000_000int
    };
    let coef = if is_hdr(m) {
        28int
    } else {
        32int
    };
    let raw = base + slider_ppm(s) * min_limit_scale_q(s) * coef;
    if raw < floor {
        floor
    } else {
        raw
    }
}

/// Numerator (over [`CURVE_DEN`]) of the maximum sharpening limit:
/// `base + slider * limit_scale * 0.6`.
pub open spec fn limit_max_num(s: int, m: NISHDRMode) -> int {
    let base = if is_hdr(m) {
        240_000_000int
    } else {
        200_000_000int
    };
    base + slider_ppm(s) * min_limit_scale_q(s) * 60
}

/// Numerator (over [`CURVE_DEN`]) of the limit span handed to the shader.
pub open spec fn limit_scale_num(s: int, m: NISHDRMode) -> int {
    limit_max_num(s, m) - limit_min_num(s, m)
}

/// Luma point (in hundredths) where the sharpening ramp starts.
pub open spec fn sharp_start_c(m: NISHDRMode) -> int {
    match m {
        NISHDRMode::Sdr => 45,
        NISHDRMode::Linear => 30,
        NISHDRMode::PQ => 35,
    }
}

/// Luma point (in hundredths) where the sharpening ramp ends.
pub open spec fn sharp_end_c(m: NISHDRMode) -> int {
    match m {
        NISHDRMode::Sdr => 90,
        NISHDRMode::Linear => 50,
        NISHDRMode::PQ => 55,
    }
}

/// A requested viewport extent of zero means "use the full texture".
pub open spec fn resolved_extent(v: u32, t: u32) -> u32 {
    if v == 0 {
        t
    } else {
        v
    }
}

/// The scale ratio `iv / ov` lies in the supported band `[1/2, 1]`: the
/// filter upscales by up to a factor of two and never downscales.
pub open spec fn scale_in_band(iv: u32, ov: u32) -> bool {
    ov <= 2 * (iv as int) && iv <= ov
}

/// Geometry is valid: all resolved viewport extents are nonzero and both
/// scale ratios lie in the supported band.
pub open spec fn geometry_ok(riw: u32, rih: u32, row: u32, roh: u32) -> bool {
    &&& riw > 0
    &&& rih > 0
    &&& row > 0
    &&& roh > 0
    &&& scale_in_band(riw, row)
    &&& scale_in_band(rih, roh)
}

/// Every fraction of the record denotes a finite value.
pub open spec fn config_wf(c: NISConfig) -> bool {
    &&& c.k_detect_ratio.wf()
    &&& c.k_detect_thres.wf()
    &&& c.k_min_contrast_ratio.wf()
    &&& c.k_ratio_norm.wf()
    &&& c.k_contrast_boost.wf()
    &&& c.k_eps.wf()
    &&& c.k_sharp_start_y.wf()
    &&& c.k_sharp_scale_y.wf()
    &&& c.k_sharp_strength_min.wf()
    &&& c.k_sharp_strength_scale.wf()
    &&& c.k_sharp_limit_min.wf()
    &&& c.k_sharp_limit_scale.wf()
    &&& c.k_scale_x.wf()
    &&& c.k_scale_y.wf()
    &&& c.k_dst_norm_x.wf()
    &&& c.k_dst_norm_y.wf()
    &&& c.k_src_norm_x.wf()
    &&& c.k_src_norm_y.wf()
    &&& c.reserved0.wf()
    &&& c.reserved1.wf()
}

/// The derived configuration, or `None` on invalid geometry.
///
/// Parameters follow the argument order of [`nv_scaler_update_config`]:
/// sharpness in millionths, then input viewport origin/extent, input
/// texture extent, output viewport origin/extent, output texture extent,
/// and the dynamic-range mode.
pub open spec fn scaler_spec(
    sharpness: i64,
    input_viewport_origin_x: u32,
    input_viewport_origin_y: u32,
    input_viewport_width: u32,
    input_viewport_height: u32,
    input_texture_width: u32,
    input_texture_height: u32,
    output_viewport_origin_x: u32,
    output_viewport_origin_y: u32,
    output_viewport_width: u32,
    output_viewport_height: u32,
    output_texture_width: u32,
    output_texture_height: u32,
    hdr_mode: NISHDRMode,
) -> Option<NISConfig> {
    let riw = resolved_extent(input_viewport_width, input_texture_width);
    let rih = resolved_extent(input_viewport_height, input_texture_height);
    let row = resolved_extent(output_viewport_width, output_texture_width);
    let roh = resolved_extent(output_viewport_height, output_texture_height);
    if !geometry_ok(riw, rih, row, roh) {
        None
    } else {
        Some(
            NISConfig {
                k_detect_ratio: Rat { num: 2254, den: 1024 },
                k_detect_thres: Rat {
                    num: if is_hdr(hdr_mode) {
                        32
                    } else {
                        64
                    },
                    den: 1024,
                },
                k_min_contrast_ratio: Rat {
                    num: if is_hdr(hdr_mode) {
                        3
                    } else {
                        4
                    },
                    den: 2,
                },
                k_ratio_norm: Rat {
                    num: 2,
                    den: if is_hdr(hdr_mode) {
                        7
                    } else {
                        16
                    },
                },
                k_contrast_boost: Rat { num: 1, den: 1 },
                k_eps: Rat { num: 1, den: 255 },
                k_sharp_start_y: Rat { num: sharp_start_c(hdr_mode) as i64, den: 100 },
                k_sharp_scale_y: Rat {
                    num: 100,
                    den: (sharp_end_c(hdr_mode) - sharp_start_c(hdr_mode)) as u64,
                },
                k_sharp_strength_min: Rat {
                    num: strength_min_num(sharpness as int, hdr_mode) as i64,
                    den: CURVE_DEN,
                },
                k_sharp_strength_scale: Rat {
                    num: strength_scale_num(sharpness as int, hdr_mode) as i64,
                    den: CURVE_DEN,
                },
                k_sharp_limit_min: Rat {
                    num: limit_min_num(sharpness as int, hdr_mode) as i64,
                    den: CURVE_DEN,
                },
                k_sharp_limit_scale: Rat {
                    num: limit_scale_num(sharpness as int, hdr_mode) as i64,
                    den: CURVE_DEN,
                },
                k_scale_x: Rat { num: riw as i64, den: row as u64 },
                k_scale_y: Rat { num: rih as i64, den: roh as u64 },
                k_dst_norm_x: Rat { num: 1, den: output_texture_width as u64 },
                k_dst_norm_y: Rat { num: 1, den: output_texture_height as u64 },
                k_src_norm_x: Rat { num: 1, den: input_texture_width as u64 },
                k_src_norm_y: Rat { num: 1, den: input_texture_height as u64 },
                k_input_viewport_origin_x: input_viewport_origin_x,
                k_input_viewport_origin_y: input_viewport_origin_y,
                k_input_viewport_width: riw,
                k_input_viewport_height: rih,
                k_output_viewport_origin_x: output_viewport_origin_x,
                k_output_viewport_origin_y: output_viewport_origin_y,
                k_output_viewport_width: row,
                k_output_viewport_height: roh,
                reserved0: Rat { num: 0, den: 1 },
                reserved1: Rat { num: 0, den: 1 },
            },
        )
    }
}

/// Derives the scaling configuration.
///
/// Succeeds exactly when the resolved viewports are nonzero and both scale
/// ratios lie in `[1/2, 1]`; a requested viewport extent of zero resolves
/// to the full texture extent on that axis. On success every field of the
/// record equals the model of [`scaler_spec`]; all fractions are finite
/// whenever the texture extents are nonzero.
pub fn nv_scaler_update_config(
    sharpness: i64,
    input_viewport_origin_x: u32,
    input_viewport_origin_y: u32,
    input_viewport_width: u32,
    input_viewport_height: u32,
    input_texture_width: u32,
    input_texture_height: u32,
    output_viewport_origin_x: u32,
    output_viewport_origin_y: u32,
    output_viewport_width: u32,
    output_viewport_height: u32,
    output_texture_width: u32,
    output_texture_height: u32,
    hdr_mode: NISHDRMode,
) -> (r: Option<NISConfig>)
    ensures
        r == scaler_spec(
            sharpness,
            input_viewport_origin_x,
            input_viewport_origin_y,
            input_viewport_width,
            input_viewport_height,
            input_texture_width,
            input_texture_height,
            output_viewport_origin_x,
            output_viewport_origin_y,
            output_viewport_width,
            output_viewport_height,
            output_texture_width,
            output_texture_height,
            hdr_mode,
        ),
        r is Some <==> geometry_ok(
            resolved_extent(input_viewport_width, input_texture_width),
            resolved_extent(input_viewport_height, input_texture_height),
            resolved_extent(output_viewport_width, output_texture_width),
            resolved_extent(output_viewport_height, output_texture_height),
        ),
        r matches Some(c) ==> {
            &&& c.k_input_viewport_width == resolved_extent(
                input_viewport_width,
                input_texture_width,
            )
            &&& c.k_input_viewport_height == resolved_extent(
                input_viewport_height,
                input_texture_height,
            )
            &&& c.k_output_viewport_width == resolved_extent(
                output_viewport_width,
                output_texture_width,
            )
            &&& c.k_output_viewport_height == resolved_extent(
                output_viewport_height,
                output_texture_height,
            )
        },
        r matches Some(c) ==> ((input_texture_width > 0 && input_texture_height > 0
            && output_texture_width > 0 && output_texture_height > 0) ==> config_wf(c)),
{
    let riw: u32 = if input_viewport_width == 0 {
        input_texture_width
    } else {
        input_viewport_width
    };
    let rih: u32 = if input_viewport_height == 0 {
        input_texture_height
    } else {
        input_viewport_height
    };
    let row: u32 = if output_viewport_width == 0 {
        output_texture_width
    } else {
        output_viewport_width
    };
    let roh: u32 = if output_viewport_height == 0 {
        output_texture_height
    } else {
        output_viewport_height
    };

    if riw == 0 || rih == 0 || row == 0 || roh == 0 {
        return None;
    }
    if (row as u64) > 2 * (riw as u64) || riw > row {
        return None;
    }
    if (roh as u64) > 2 * (rih as u64) || rih > roh {
        return None;
    }

    let s: i64 = if sharpness < 0 {
        0
    } else if sharpness > SHARPNESS_ONE {
        SHARPNESS_ONE
    } else {
        sharpness
    };
    let slider: i64 = s - SHARPNESS_HALF;

    let max_q: i64 = if slider >= 0 {
        5
    } else {
        7
    };
    let min_q: i64 = if slider >= 0 {
        5
    } else {
        4
    };

    let hdr: bool = match hdr_mode {
        NISHDRMode::Sdr => false,
        NISHDRMode::Linear => true,
        NISHDRMode::PQ => true,
    };

    let smin_coef: i64 = if hdr {
        110
    } else {
        120
    };
    let smax_base: i64 = if hdr {
        880_000_000
    } else {
        640_000_000
    };
    let lmin_floor: i64 = if hdr {
        24_000_000
    } else {
        40_000_000
    };
    let lmin_base: i64 = if hdr {
        40_000_000
    } else {
        56_000_000
    };
    let lmin_coef: i64 = if hdr {
        28
    } else {
        32
    };
    let lmax_base: i64 = if hdr {
        240_000_000
    } else {
        200_000_000
    };

    let smin_raw: i64 = 160_000_000 + slider * min_q * smin_coef;
    let smin: i64 = if smin_raw < 0 {
        0
    } else {
        smin_raw
    };
    let smax: i64 = smax_base + slider * max_q * 180;
    let lmin_raw: i64 = lmin_base + slider * min_q * lmin_coef;
    let lmin: i64 = if lmin_raw < lmin_floor {
        lmin_floor
    } else {
        lmin_raw
    };
    let lmax: i64 = lmax_base + slider * min_q * 60;

    let start_c: i64 = match hdr_mode {
        NISHDRMode::Sdr => 45,
        NISHDRMode::Linear => 30,
        NISHDRMode::PQ => 35,
    };
    let ramp_c: u64 = match hdr_mode {
        NISHDRMode::Sdr => 45,
        NISHDRMode::Linear => 20,
        NISHDRMode::PQ => 20,
    };

    Some(
        NISConfig {
            k_detect_ratio: Rat { num: 2254, den: 1024 },
            k_detect_thres: Rat {
                num: if hdr {
                    32
                } else {
                    64
                },
                den: 1024,
            },
            k_min_contrast_ratio: Rat {
                num: if hdr {
                    3
                } else {
                    4
                },
                den: 2,
            },
            k_ratio_norm: Rat {
                num: 2,
                den: if hdr {
                    7
                } else {
                    16
                },
            },
            k_contrast_boost: Rat { num: 1, den: 1 },
            k_eps: Rat { num: 1, den: 255 },
            k_sharp_start_y: Rat { num: start_c, den: 100 },
            k_sharp_scale_y: Rat { num: 100, den: ramp_c },
            k_sharp_strength_min: Rat { num: smin, den: CURVE_DEN },
            k_sharp_strength_scale: Rat { num: smax - smin, den: CURVE_DEN },
            k_sharp_limit_min: Rat { num: lmin, den: CURVE_DEN },
            k_sharp_limit_scale: Rat { num: lmax - lmin, den: CURVE_DEN },
            k_scale_x: Rat { num: riw as i64, den: row as u64 },
            k_scale_y: Rat { num: rih as i64, den: roh as u64 },
            k_dst_norm_x: Rat { num: 1, den: output_texture_width as u64 },
            k_dst_norm_y: Rat { num: 1, den: output_texture_height as u64 },
            k_src_norm_x: Rat { num: 1, den: input_texture_width as u64 },
            k_src_norm_y: Rat { num: 1, den: input_texture_height as u64 },
            k_input_viewport_origin_x: input_viewport_origin_x,
            k_input_viewport_origin_y: input_viewport_origin_y,
            k_input_viewport_width: riw,
            k_input_viewport_height: rih,
            k_output_viewport_origin_x: output_viewport_origin_x,
            k_output_viewport_origin_y: output_viewport_origin_y,
            k_output_viewport_width: row,
            k_output_viewport_height: roh,
            reserved0: Rat { num: 0, den: 1 },
            reserved1: Rat { num: 0, den: 1 },
        },
    )
}

/// The sharpen-only configuration: the output viewport is forced equal to
/// the input viewport and the output texture to the input texture, so both
/// scale ratios are exactly one and only the sharpening curve is exercised.
pub open spec fn sharpen_spec(
    sharpness: i64,
    input_viewport_origin_x: u32,
    input_viewport_origin_y: u32,
    input_viewport_width: u32,
    input_viewport_height: u32,
    input_texture_width: u32,
    input_texture_height: u32,
    output_viewport_origin_x: u32,
    output_viewport_origin_y: u32,
    hdr_mode: NISHDRMode,
) -> Option<NISConfig> {
    scaler_spec(
        sharpness,
        input_viewport_origin_x,
        input_viewport_origin_y,
        input_viewport_width,
        input_viewport_height,
        input_texture_width,
        input_texture_height,
        output_viewport_origin_x,
        output_viewport_origin_y,
        input_viewport_width,
        input_viewport_height,
        input_texture_width,
        input_texture_height,
        hdr_mode,
    )
}

/// Derives the sharpen-only configuration.
///
/// Succeeds exactly when the resolved input viewport is nonzero; on success
/// both scale ratios are exactly one (numerator equals denominator).
pub fn nv_sharpen_update_config(
    sharpness: i64,
    input_viewport_origin_x: u32,
    input_viewport_origin_y: u32,
    input_viewport_width: u32,
    input_viewport_height: u32,
    input_texture_width: u32,
    input_texture_height: u32,
    output_viewport_origin_x: u32,
    output_viewport_origin_y: u32,
    hdr_mode: NISHDRMode,
) -> (r: Option<NISConfig>)
    ensures
        r == sharpen_spec(
            sharpness,
            input_viewport_origin_x,
            input_viewport_origin_y,
            input_viewport_width,
            input_viewport_height,
            input_texture_width,
            input_texture_height,
            output_viewport_origin_x,
            output_viewport_origin_y,
            hdr_mode,
        ),
        r is Some <==> {
            &&& resolved_extent(input_viewport_width, input_texture_width) > 0
            &&& resolved_extent(input_viewport_height, input_texture_height) > 0
        },
        r matches Some(c) ==> {
            &&& c.k_scale_x.num == c.k_scale_x.den
            &&& c.k_scale_y.num == c.k_scale_y.den
        },
{
    nv_scaler_update_config(
        sharpness,
        input_viewport_origin_x,
        input_viewport_origin_y,
        input_viewport_width,
        input_viewport_height,
        input_texture_width,
        input_texture_height,
        output_viewport_origin_x,
        output_viewport_origin_y,
        input_viewport_width,
        input_viewport_height,
        input_texture_width,
        input_texture_height,
        hdr_mode,
    )
}

/// The all-zero record handed out before any derivation has run.
pub open spec fn zeroed_config() -> NISConfig {
    NISConfig {
        k_detect_ratio: Rat { num: 0, den: 1 },
        k_detect_thres: Rat { num: 0, den: 1 },
        k_min_contrast_ratio: Rat { num: 0, den: 1 },
        k_ratio_norm: Rat { num: 0, den: 1 },
        k_contrast_boost: Rat { num: 0, den: 1 },
        k_eps: Rat { num: 0, den: 1 },
        k_sharp_start_y: Rat { num: 0, den: 1 },
        k_sharp_scale_y: Rat { num: 0, den: 1 },
        k_sharp_strength_min: Rat { num: 0, den: 1 },
        k_sharp_strength_scale: Rat { num: 0, den: 1 },
        k_sharp_limit_min: Rat { num: 0, den: 1 },
        k_sharp_limit_scale: Rat { num: 0, den: 1 },
        k_scale_x: Rat { num: 0, den: 1 },
        k_scale_y: Rat { num: 0, den: 1 },
        k_dst_norm_x: Rat { num: 0, den: 1 },
        k_dst_norm_y: Rat { num: 0, den: 1 },
        k_src_norm_x: Rat { num: 0, den: 1 },
        k_src_norm_y: Rat { num: 0, den: 1 },
        k_input_viewport_origin_x: 0,
        k_input_viewport_origin_y: 0,
        k_input_viewport_width: 0,
        k_input_viewport_height: 0,
        k_output_viewport_origin_x: 0,
        k_output_viewport_origin_y: 0,
        k_output_viewport_width: 0,
        k_output_viewport_height: 0,
        reserved0: Rat { num: 0, den: 1 },
        reserved1: Rat { num: 0, den: 1 },
    }
}

impl Default for NISConfig {
    /// The all-zero record.
    fn default() -> (r: NISConfig)
        ensures
            r == zeroed_config(),
    {
        zeroed_nisconfig()
    }
}

/// Builds the all-zero record.
pub fn zeroed_nisconfig() -> (r: NISConfig)
    ensures
        r == zeroed_config(),
{
    NISConfig {
        k_detect_ratio: Rat { num: 0, den: 1 },
        k_detect_thres: Rat { num: 0, den: 1 },
        k_min_contrast_ratio: Rat { num: 0, den: 1 },
        k_ratio_norm: Rat { num: 0, den: 1 },
        k_contrast_boost: Rat { num: 0, den: 1 },
        k_eps: Rat { num: 0, den: 1 },
        k_sharp_start_y: Rat { num: 0, den: 1 },
        k_sharp_scale_y: Rat { num: 0, den: 1 },
        k_sharp_strength_min: Rat { num: 0, den: 1 },
        k_sharp_strength_scale: Rat { num: 0, den: 1 },
        k_sharp_limit_min: Rat { num: 0, den: 1 },
        k_sharp_limit_scale: Rat { num: 0, den: 1 },
        k_scale_x: Rat { num: 0, den: 1 },
        k_scale_y: Rat { num: 0, den: 1 },
        k_dst_norm_x: Rat { num: 0, den: 1 },
        k_dst_norm_y: Rat { num: 0, den: 1 },
        k_src_norm_x: Rat { num: 0, den: 1 },
        k_src_norm_y: Rat { num: 0, den: 1 },
        k_input_viewport_origin_x: 0,
        k_input_viewport_origin_y: 0,
        k_input_viewport_width: 0,
        k_input_viewport_height: 0,
        k_output_viewport_origin_x: 0,
        k_output_viewport_origin_y: 0,
        k_output_viewport_width: 0,
        k_output_viewport_height: 0,
        reserved0: Rat { num: 0, den: 1 },
        reserved1: Rat { num: 0, den: 1 },
    }
}

/// Law: with a fixed mode, raising the sharpness slider never lowers the
/// minimum sharpening strength nor the strength span (numerator form; the
/// four curve outputs share the denominator [`CURVE_DEN`]).
pub proof fn lemma_curve_monotone_nums(s1: int, s2: int, m: NISHDRMode)
    requires
        s1 <= s2,
    ensures
        strength_min_num(s1, m) <= strength_min_num(s2, m),
        strength_scale_num(s1, m) <= strength_scale_num(s2, m),
{
    let sl1 = slider_ppm(s1);
    let sl2 = slider_ppm(s2);
    assert(sl1 <= sl2);
    if sl1 < 0 && sl2 >= 0 {
        assert(strength_min_num(s1, m) <= strength_min_num(s2, m));
        assert(strength_scale_num(s1, m) <= strength_scale_num(s2, m));
    }
}

/// Law: increasing sharpness with fixed geometry and mode succeeds or fails
/// alike, and on success produces non-decreasing minimum sharpening
/// strength and strength span.
pub proof fn lemma_sharpness_monotone(
    s1: i64,
    s2: i64,
    input_viewport_origin_x: u32,
    input_viewport_origin_y: u32,
    input_viewport_width: u32,
    input_viewport_height: u32,
    input_texture_width: u32,
    input_texture_height: u32,
    output_viewport_origin_x: u32,
    output_viewport_origin_y: u32,
    output_viewport_width: u32,
    output_viewport_height: u32,
    output_texture_width: u32,
    output_texture_height: u32,
    hdr_mode: NISHDRMode,
)
    requires
        s1 <= s2,
    ensures
        ({
            let c1 = scaler_spec(
                s1,
                input_viewport_origin_x,
                input_viewport_origin_y,
                input_viewport_width,
                input_viewport_height,
                input_texture_width,
                input_texture_height,
                output_viewport_origin_x,
                output_viewport_origin_y,
                output_viewport_width,
                output_viewport_height,
                output_texture_width,
                output_texture_height,
                hdr_mode,
            );
            let c2 = scaler_spec(
                s2,
                input_viewport_origin_x,
                input_viewport_origin_y,
                input_viewport_width,
                input_viewport_height,
                input_texture_width,
                input_texture_height,
                output_viewport_origin_x,
                output_viewport_origin_y,
                output_viewport_width,
                output_viewport_height,
                output_texture_width,
                output_texture_height,
                hdr_mode,
            );
            &&& c1 is Some <==> c2 is Some
            &&& c1 matches Some(a) ==> (c2 matches Some(b) ==> {
                &&& a.k_sharp_strength_min.spec_le(b.k_sharp_strength_min)
                &&& a.k_sharp_strength_scale.spec_le(b.k_sharp_strength_scale)
            })
        }),
{
    lemma_curve_monotone_nums(s1 as int, s2 as int, hdr_mode);
    let c1 = scaler_spec(
        s1,
        input_viewport_origin_x,
        input_viewport_origin_y,
        input_viewport_width,
        input_viewport_height,
        input_texture_width,
        input_texture_height,
        output_viewport_origin_x,
        output_viewport_origin_y,
        output_viewport_width,
        output_viewport_height,
        output_texture_width,
        output_texture_height,
        hdr_mode,
    );
    let c2 = scaler_spec(
        s2,
        input_viewport_origin_x,
        input_viewport_origin_y,
        input_viewport_width,
        input_viewport_height,
        input_texture_width,
        input_texture_height,
        output_viewport_origin_x,
        output_viewport_origin_y,
        output_viewport_width,
        output_viewport_height,
        output_texture_width,
        output_texture_height,
        hdr_mode,
    );
    if c1 is Some && c2 is Some {
        let a = c1->Some_0;
        let b = c2->Some_0;
        lemma_le_same_den(a.k_sharp_strength_min, b.k_sharp_strength_min);
        lemma_le_same_den(a.k_sharp_strength_scale, b.k_sharp_strength_scale);
    }
}

/// The per-view scaling configuration a host keeps for its upscale pass.
#[derive(Debug, Clone, Copy, PartialEq, Eq)]
pub struct NisScaleConfig {
    pub config: NISConfig,
}

/// The per-view sharpen-only configuration a host keeps for its sharpen
/// pass.
#[derive(Debug, Clone, Copy, PartialEq, Eq)]
pub struct NisSharpenConfig {
    pub config: NISConfig,
}

impl Default for NisScaleConfig {
    /// Wraps the all-zero record.
    fn default() -> (r: NisScaleConfig)
        ensures
            r.config == zeroed_config(),
    {
        NisScaleConfig { config: zeroed_nisconfig() }
    }
}

impl Default for NisSharpenConfig {
    /// Wraps the all-zero record.
    fn default() -> (r: NisSharpenConfig)
        ensures
            r.config == zeroed_config(),
    {
        NisSharpenConfig { config: zeroed_nisconfig() }
    }
}

impl NisScaleConfig {
    /// Rederives the record from the frame's geometry. On success the
    /// record is replaced and `true` returned; on invalid geometry the
    /// record is left untouched and `false` returned, and the caller must
    /// not submit the pass.
    pub fn update_config(
        &mut self,
        sharpness: i64,
        input_viewport_origin_x: u32,
        input_viewport_origin_y: u32,
        input_viewport_width: u32,
        input_viewport_height: u32,
        input_texture_width: u32,
        input_texture_height: u32,
        output_viewport_origin_x: u32,
        output_viewport_origin_y: u32,
        output_viewport_width: u32,
        output_viewport_height: u32,
        output_texture_width: u32,
        output_texture_height: u32,
        hdr_mode: NISHDRMode,
    ) -> (ok: bool)
        ensures
            ({
                let model = scaler_spec(
                    sharpness,
                    input_viewport_origin_x,
                    input_viewport_origin_y,
                    input_viewport_width,
                    input_viewport_height,
                    input_texture_width,
                    input_texture_height,
                    output_viewport_origin_x,
                    output_viewport_origin_y,
                    output_viewport_width,
                    output_viewport_height,
                    output_texture_width,
                    output_texture_height,
                    hdr_mode,
                );
                &&& ok <==> model is Some
                &&& ok ==> model == Some(final(self).config)
                &&& !ok ==> final(self).config == old(self).config
            }),
    {
        let r = nv_scaler_update_config(
            sharpness,
            input_viewport_origin_x,
            input_viewport_origin_y,
            input_viewport_width,
            input_viewport_height,
            input_texture_width,
            input_texture_height,
            output_viewport_origin_x,
            output_viewport_origin_y,
            output_viewport_width,
            output_viewport_height,
            output_texture_width,
            output_texture_height,
            hdr_mode,
        );
        match r {
            Some(config) => {
                self.config = config;
                true
            },
            None => false,
        }
    }
}

impl NisSharpenConfig {
    /// Rederives the record with the output forced equal to the input. On
    /// success the record is replaced and `true` returned; on invalid
    /// geometry the record is left untouched and `false` returned.
    pub fn update_config(
        &mut self,
        sharpness: i64,
        input_viewport_origin_x: u32,
        input_viewport_origin_y: u32,
        input_viewport_width: u32,
        input_viewport_height: u32,
        input_texture_width: u32,
        input_texture_height: u32,
        output_viewport_origin_x: u32,
        output_viewport_origin_y: u32,
        hdr_mode: NISHDRMode,
    ) -> (ok: bool)
        ensures
            ({
                let model = sharpen_spec(
                    sharpness,
                    input_viewport_origin_x,
                    input_viewport_origin_y,
                    input_viewport_width,
                    input_viewport_height,
                    input_texture_width,
                    input_texture_height,
                    output_viewport_origin_x,
                    output_viewport_origin_y,
                    hdr_mode,
                );
                &&& ok <==> model is Some
                &&& ok ==> model == Some(final(self).config)
                &&& !ok ==> final(self).config == old(self).config
            }),
    {
        let r = nv_sharpen_update_config(
            sharpness,
            input_viewport_origin_x,
            input_viewport_origin_y,
            input_viewport_width,
            input_viewport_height,
            input_texture_width,
            input_texture_height,
            output_viewport_origin_x,
            output_viewport_origin_y,
            hdr_mode,
        );
        match r {
            Some(config) => {
                self.config = config;
                true
            },
            None => false,
        }
    }
}

} // verus!

