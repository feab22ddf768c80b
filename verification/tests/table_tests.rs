use nis_scaler::CoefTexture;
use nis_scaler::check_coef_scale_agreement;
use nis_scaler::check_coef_usm_agreement;
use nis_scaler::K_FILTER_SIZE;
use nis_scaler::K_IMAGE_SIZE;
use nis_scaler::K_PHASE_COUNT;
use nis_scaler::K_ROW_PITCH;
use nis_scaler::coef_scale_bits;
use nis_scaler::coef_scale_fp16;
use nis_scaler::coef_usm_bits;
use nis_scaler::coef_usm_fp16;
use nis_scaler::create_coef_scale_tex;
use nis_scaler::create_coef_tex;
use nis_scaler::create_coef_usm_tex;
use nis_scaler::fp16_agrees;
use nis_scaler::pack_coef_matrix;
use nis_scaler::tables_agree;

/// Decodes a binary16 bit pattern (assumed finite) to f64.
fn fp16_to_f64(h: u16) -> f64 {
    let sign = if h >> 15 == 1 { -1.0 } else { 1.0 };
    let exp = (h >> 10) & 0x1F;
    let frac = (h & 0x3FF) as f64;
    assert!(exp < 31, "finite patterns only");
    if exp == 0 {
        sign * frac * (2.0f64).powi(-24)
    } else {
        sign * (1024.0 + frac) * (2.0f64).powi(exp as i32 - 25)
    }
}

/// One binary16 unit in the last place at the given pattern.
fn fp16_ulp(h: u16) -> f64 {
    let exp = (h >> 10) & 0x1F;
    if exp == 0 {
        (2.0f64).powi(-24)
    } else {
        (2.0f64).powi(exp as i32 - 25)
    }
}

#[test]
fn table_shape_constants() {
    assert_eq!(K_PHASE_COUNT, 64);
    assert_eq!(K_FILTER_SIZE, 8);
    assert_eq!(K_ROW_PITCH, 32);
    assert_eq!(K_IMAGE_SIZE, 64 * 2 * 4 * 4);
}

#[test]
fn packed_buffer_is_2048_bytes() {
    let scale: CoefTexture = create_coef_scale_tex();
    assert_eq!(scale.width, 2);
    assert_eq!(scale.height, 64);
    assert_eq!(scale.data.len(), 2048);
    let usm = create_coef_usm_tex();
    assert_eq!(usm.width, 2);
    assert_eq!(usm.height, 64);
    assert_eq!(usm.data.len(), 2048);
}

#[test]
fn packing_is_little_endian_row_major() {
    let bytes = pack_coef_matrix(&coef_scale_bits());
    // Phase 0 of the resize kernel is [0, 0, 1.0, 0, ...]: the center tap
    // is the third word of the first row.
    assert_eq!(&bytes[0..8], &[0u8; 8]);
    assert_eq!(&bytes[8..12], &1.0f32.to_le_bytes());
    assert_eq!(&bytes[12..32], &[0u8; 20]);
    // Phase 1 starts at the row pitch.
    assert_eq!(&bytes[32..36], &0.0029f32.to_le_bytes());
    assert_eq!(&bytes[36..40], &(-0.0127f32).to_le_bytes());
}

#[test]
fn packing_matches_byte_reinterpretation() {
    // The buffer must be exactly the table's native float image: rebuild
    // the float matrix and reinterpret it as bytes, as a host upload would.
    for (bits, tex) in [
        (coef_scale_bits(), create_coef_scale_tex()),
        (coef_usm_bits(), create_coef_usm_tex()),
    ] {
        let floats: Vec<[f32; 8]> =
            bits.iter().map(|row| row.map(f32::from_bits)).collect();
        let raw: &[u8] = bytemuck::cast_slice(&floats);
        assert_eq!(raw, &tex.data[..]);
    }
}

#[test]
fn create_coef_tex_packs_its_argument() {
    let m = [[0x0102_0304u32; 8]; 64];
    let tex = create_coef_tex(&m);
    assert_eq!(tex.data.len(), 2048);
    assert_eq!(&tex.data[0..4], &[0x04, 0x03, 0x02, 0x01]);
    assert_eq!(&tex.data[2044..2048], &[0x04, 0x03, 0x02, 0x01]);
}

#[test]
fn fp16_tables_round_trip_within_one_ulp() {
    // The verified checker certifies the bound for every entry of the
    // specification tables...
    assert!(check_coef_scale_agreement());
    assert!(check_coef_usm_agreement());
    assert!(tables_agree(&coef_scale_fp16(), &coef_scale_bits()));
    assert!(tables_agree(&coef_usm_fp16(), &coef_usm_bits()));
    // ...and plain float arithmetic agrees with it.
    for (h_tab, f_tab) in [
        (coef_scale_fp16(), coef_scale_bits()),
        (coef_usm_fp16(), coef_usm_bits()),
    ] {
        for i in 0..64 {
            for j in 0..8 {
                let wide = fp16_to_f64(h_tab[i][j]);
                let exact = f32::from_bits(f_tab[i][j]) as f64;
                assert!((wide - exact).abs() <= fp16_ulp(h_tab[i][j]));
            }
        }
    }
}

#[test]
fn tables_agree_rejects_a_corrupted_entry() {
    let mut h = coef_scale_fp16();
    // Zero out the unit center tap of phase 0: a full unit of error.
    h[0][2] = 0;
    assert!(!tables_agree(&h, &coef_scale_bits()));
}

#[test]
fn resize_kernel_center_tap_is_unit() {
    // Phase 0 center tap: float 1.0 corresponds to bit pattern 15360.
    assert_eq!(coef_scale_bits()[0][2], 1.0f32.to_bits());
    assert_eq!(coef_scale_fp16()[0][2], 15360);
    assert!(fp16_agrees(15360, 1.0f32.to_bits()));
}

#[test]
fn fp16_agrees_rejects_distant_values() {
    // 15360 is 1.0 in binary16; 2.0 is far outside one ulp.
    assert!(!fp16_agrees(15360, 2.0f32.to_bits()));
    // Sign flip of equal magnitudes is two units of the value, not one ulp.
    assert!(!fp16_agrees(15360, (-1.0f32).to_bits()));
    // Non-finite patterns are never certified.
    assert!(!fp16_agrees(0x7C00, 1.0f32.to_bits()));
    assert!(!fp16_agrees(15360, f32::NAN.to_bits()));
}

#[test]
fn fp16_agrees_accepts_nearest_neighbours() {
    // One ulp below and above 1.0 in binary16 still agree with float 1.0.
    assert!(fp16_agrees(15359, 1.0f32.to_bits()));
    assert!(fp16_agrees(15361, 1.0f32.to_bits()));
    // Two ulps away no longer agree.
    assert!(!fp16_agrees(15362, 1.0f32.to_bits()));
    // Zero against zero agrees, either sign.
    assert!(fp16_agrees(0, 0.0f32.to_bits()));
    assert!(fp16_agrees(0x8000, 0.0f32.to_bits()));
}

#[test]
fn usm_kernel_edge_values() {
    // Phase 0 of the unsharp-mask kernel is [0, -0.6001, 1.2002, -0.6001, 0, ...].
    let usm = coef_usm_bits();
    assert_eq!(usm[0][1], (-0.6001f32).to_bits());
    assert_eq!(usm[0][2], 1.2002f32.to_bits());
    let usm16 = coef_usm_fp16();
    assert_eq!(usm16[0][1], 47309);
    assert_eq!(usm16[0][2], 15565);
}
