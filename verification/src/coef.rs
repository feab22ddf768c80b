//! The two polyphase filter-coefficient tables.
//!
//! Each table has one row per phase (a fractional sample offset, 64 of
//! them) and one column per filter tap (8 of them). The authoritative form
//! stores each coefficient as the bit pattern of its IEEE-754 binary32
//! value; a pre-quantized binary16 bit-pattern form of the same
//! coefficients accompanies it for half-precision shader paths. The two
//! forms agree to within one binary16 unit in the last place; see
//! [`crate::check_coef_scale_agreement`] and
//! [`crate::check_coef_usm_agreement`].
//!
//! Each table exists once as a specification value and once as the
//! executable function returning exactly that value, so every contract
//! downstream can speak of the table's entries by name.

use vstd::prelude::*;

verus! {

/// Number of phases (rows) in a coefficient table.
pub const K_PHASE_COUNT: usize = 64;

/// Number of filter taps (columns) per phase.
pub const K_FILTER_SIZE: usize = 8;

/// Bytes per packed row: one 32-bit word per tap.
pub const K_ROW_PITCH: usize = K_FILTER_SIZE * 4;

/// Total bytes of a packed table.
pub const K_IMAGE_SIZE: usize = K_PHASE_COUNT * K_ROW_PITCH;

/// The smoothing/resize kernel, as binary32 bit patterns.
pub open spec fn coef_scale_bits_spec() -> [[u32; 8]; 64] {
    [
        [0x0000_0000u32, 0x0000_0000, 0x3F80_0000, 0x0000_0000, 0x0000_0000, 0x0000_0000, 0x0000_0000, 0x0000_0000],
        [0x3B3E_0DED, 0xBC50_13A9, 0x3F80_0000, 0x3C58_44D0, 0xBB5E_D289, 0x0000_0000, 0x0000_0000, 0x0000_0000],
        [0x3BCE_703B, 0xBCCB_FB16, 0x3F7F_9DB2, 0x3CDC_5D64, 0xBBDE_D289, 0x0000_0000, 0x0000_0000, 0x0000_0000],
        [0x3C10_2DE0, 0xBD13_DD98, 0x3F7E_DFA4, 0x3D29_FBE7, 0xBC28_C155, 0x3A03_126F, 0x0000_0000, 0x0000_0000],
        [0x3C3F_B15B, 0xBD42_2681, 0x3F7E_425B, 0x3D66_31F9, 0xBC68_A71E, 0x3A03_126F, 0x0000_0000, 0x0000_0000],
        [0x3C68_A71E, 0xBD6B_EDFA, 0x3F7D_5CFB, 0x3D92_05BC, 0xBC94_4674, 0x3A03_126F, 0x0000_0000, 0x0000_0000],
        [0x3C87_FCB9, 0xBD8A_0903, 0x3F7C_01A3, 0x3DB2_FEC5, 0xBCB4_3958, 0x3A83_126F, 0x0000_0000, 0x0000_0000],
        [0x3C98_5F07, 0xBD9C_0EBF, 0x3F7A_7EFA, 0x3DD4_FDF4, 0xBCD8_44D0, 0x3AC4_9BA6, 0x0000_0000, 0x0000_0000],
        [0x3CA7_EF9E, 0xBDAE_147B, 0x3F79_02DE, 0x3DF6_FD22, 0xBCFC_5048, 0x3B03_126F, 0x0000_0000, 0x0000_0000],
        [0x3CB8_51EC, 0xBDBE_0DED, 0x3F76_FD22, 0x3E0D_844D, 0xBD10_2DE0, 0x3B1D_4952, 0x0000_0000, 0x0000_0000],
        [0x3CC3_C9EF, 0xBDCE_075F, 0x3F75_1EB8, 0x3E1F_8A09, 0xBD22_339C, 0x3B3E_0DED, 0x0000_0000, 0x0000_0000],
        [0x3CD0_13A9, 0xBDDB_F488, 0x3F72_DE01, 0x3E31_F8A1, 0xBD33_D07D, 0x3B5E_D289, 0x0000_0000, 0x0000_0000],
        [0x3CD8_44D0, 0xBDE9_0FF9, 0x3F70_624E, 0x3E45_8794, 0xBD47_E282, 0x3B90_2DE0, 0x0000_0000, 0x0000_0000],
        [0x3CE3_BCD3, 0xBDF3_EAB3, 0x3F6D_9E84, 0x3E58_FC50, 0xBD5B_F488, 0x3BA0_902E, 0x0000_0000, 0x0000_0000],
        [0x3CEB_EDFA, 0xBDFE_F9DB, 0x3F6A_C083, 0x3E6C_8B44, 0xBD6D_FA44, 0x3BC1_54CA, 0x0000_0000, 0x0000_0000],
        [0x3CF0_068E, 0xBE04_816F, 0x3F67_E282, 0x3E80_8312, 0xBD81_0625, 0x3BCE_703B, 0x0000_0000, 0x0000_0000],
        [0x3CF8_37B5, 0xBE08_7FCC, 0x3F64_816F, 0x3E8A_C083, 0xBD8B_0F28, 0x3BEF_34D7, 0x0000_0000, 0x0000_0000],
        [0x3CFC_5048, 0xBE0B_FB16, 0x3F60_FF97, 0x3E95_3F7D, 0xBD95_182B, 0x3C07_FCB9, 0x0000_0000, 0x0000_0000],
        [0x3CFC_5048, 0xBE0F_7660, 0x3F5D_9E84, 0x3E9F_BE77, 0xBD9E_ECC0, 0x3C18_5F07, 0x0000_0000, 0x0000_0000],
        [0x3D00_346E, 0xBE12_05BC, 0x3F59_C0EC, 0x3EAA_7EFA, 0xBDA8_F5C3, 0x3C28_C155, 0x0000_0000, 0x0000_0000],
        [0x3D00_346E, 0xBE13_F7CF, 0x3F55_DCC6, 0x3EB5_3F7D, 0xBDB2_FEC5, 0x3C37_8034, 0x0000_0000, 0x0000_0000],
        [0x3D00_346E, 0xBE15_8106, 0x3F51_BDA5, 0x3EC0_4189, 0xBDBD_07C8, 0x3C47_E282, 0x0000_0000, 0x0000_0000],
        [0x3D00_346E, 0xBE16_872B, 0x3F4D_5CFB, 0x3ECB_020C, 0xBDC6_0AA6, 0x3C60_75F7, 0x0000_0000, 0x0000_0000],
        [0x3CFC_5048, 0xBE17_7319, 0x3F49_1D15, 0x3ED6_45A2, 0xBDD0_13A9, 0x3C6F_34D7, 0x0000_0000, 0x0000_0000],
        [0x3CF8_37B5, 0xBE17_7319, 0x3F44_A234, 0x3EE1_3A93, 0xBDD9_1687, 0x3C7F_9724, 0x0000_0000, 0x0000_0000],
        [0x3CF4_1F21, 0xBE17_7319, 0x3F40_20C5, 0x3EEC_3C9F, 0xBDE2_1965, 0x3C87_FCB9, 0x0000_0000, 0x0000_0000],
        [0x3CF0_068E, 0xBE16_872B, 0x3F3B_3D08, 0x3EF7_3EAB, 0xBDEA_E7D5, 0x3C94_4674, 0x0000_0000, 0x0000_0000],
        [0x3CEB_EDFA, 0xBE15_8106, 0x3F36_3F14, 0x3F01_4120, 0xBDF3_18FC, 0x3C9B_A5E3, 0x0000_0000, 0x0000_0000],
        [0x3CE3_BCD3, 0xBE13_F7CF, 0x3F31_61E5, 0x3F06_C227, 0xBDFB_15B5, 0x3CA3_D70A, 0x0000_0000, 0x0000_0000],
        [0x3CDF_A440, 0xBE12_88CE, 0x3F2C_2268, 0x3F0C_432D, 0xBE01_0625, 0x3CB0_20C5, 0x0000_0000, 0x0000_0000],
        [0x3CD8_44D0, 0xBE10_7C85, 0x3F27_1DE7, 0x3F11_BDA5, 0xBE05_0481, 0x3CB8_51EC, 0x0000_0000, 0x0000_0000],
        [0x3CD0_13A9, 0xBE0E_075F, 0x3F21_DE6A, 0x3F17_1DE7, 0xBE07_FCB9, 0x3CBF_B15B, 0x0000_0000, 0x0000_0000],
        [0x3CC7_E282, 0xBE0A_F4F1, 0x3F1C_7E28, 0x3F1C_7E28, 0xBE0A_F4F1, 0x3CC7_E282, 0x0000_0000, 0x0000_0000],
        [0x3CBF_B15B, 0xBE07_FCB9, 0x3F17_1DE7, 0x3F21_DE6A, 0xBE0E_075F, 0x3CD0_13A9, 0x0000_0000, 0x0000_0000],
        [0x3CB8_51EC, 0xBE05_0481, 0x3F11_BDA5, 0x3F27_1DE7, 0xBE10_7C85, 0x3CD8_44D0, 0x0000_0000, 0x0000_0000],
        [0x3CB0_20C5, 0xBE01_0625, 0x3F0C_432D, 0x3F2C_2268, 0xBE12_88CE, 0x3CDF_A440, 0x0000_0000, 0x0000_0000],
        [0x3CA3_D70A, 0xBDFB_15B5, 0x3F06_C227, 0x3F31_61E5, 0xBE13_F7CF, 0x3CE3_BCD3, 0x0000_0000, 0x0000_0000],
        [0x3C9B_A5E3, 0xBDF3_18FC, 0x3F01_4120, 0x3F36_3F14, 0xBE15_8106, 0x3CEB_EDFA, 0x0000_0000, 0x0000_0000],
        [0x3C94_4674, 0xBDEA_E7D5, 0x3EF7_3EAB, 0x3F3B_3D08, 0xBE16_872B, 0x3CF0_068E, 0x0000_0000, 0x0000_0000],
        [0x3C87_FCB9, 0xBDE2_1965, 0x3EEC_3C9F, 0x3F40_20C5, 0xBE17_7319, 0x3CF4_1F21, 0x0000_0000, 0x0000_0000],
        [0x3C7F_9724, 0xBDD9_1687, 0x3EE1_3A93, 0x3F44_A234, 0xBE17_7319, 0x3CF8_37B5, 0x0000_0000, 0x0000_0000],
        [0x3C6F_34D7, 0xBDD0_13A9, 0x3ED6_45A2, 0x3F49_1D15, 0xBE17_7319, 0x3CFC_5048, 0x0000_0000, 0x0000_0000],
        [0x3C60_75F7, 0xBDC6_0AA6, 0x3ECB_020C, 0x3F4D_5CFB, 0xBE16_872B, 0x3D00_346E, 0x0000_0000, 0x0000_0000],
        [0x3C47_E282, 0xBDBD_07C8, 0x3EC0_4189, 0x3F51_BDA5, 0xBE15_8106, 0x3D00_346E, 0x0000_0000, 0x0000_0000],
        [0x3C37_8034, 0xBDB2_FEC5, 0x3EB5_3F7D, 0x3F55_DCC6, 0xBE13_F7CF, 0x3D00_346E, 0x0000_0000, 0x0000_0000],
        [0x3C28_C155, 0xBDA8_F5C3, 0x3EAA_7EFA, 0x3F59_C0EC, 0xBE12_05BC, 0x3D00_346E, 0x0000_0000, 0x0000_0000],
        [0x3C18_5F07, 0xBD9E_ECC0, 0x3E9F_BE77, 0x3F5D_9E84, 0xBE0F_7660, 0x3CFC_5048, 0x0000_0000, 0x0000_0000],
        [0x3C07_FCB9, 0xBD95_182B, 0x3E95_3F7D, 0x3F60_FF97, 0xBE0B_FB16, 0x3CFC_5048, 0x0000_0000, 0x0000_0000],
        [0x3BEF_34D7, 0xBD8B_0F28, 0x3E8A_C083, 0x3F64_816F, 0xBE08_7FCC, 0x3CF8_37B5, 0x0000_0000, 0x0000_0000],
        [0x3BCE_703B, 0xBD81_0625, 0x3E80_8312, 0x3F67_E282, 0xBE04_816F, 0x3CF0_068E, 0x0000_0000, 0x0000_0000],
        [0x3BC1_54CA, 0xBD6D_FA44, 0x3E6C_8B44, 0x3F6A_C083, 0xBDFE_F9DB, 0x3CEB_EDFA, 0x0000_0000, 0x0000_0000],
        [0x3BA0_902E, 0xBD5B_F488, 0x3E58_FC50, 0x3F6D_9E84, 0xBDF3_EAB3, 0x3CE3_BCD3, 0x0000_0000, 0x0000_0000],
        [0x3B90_2DE0, 0xBD47_E282, 0x3E45_8794, 0x3F70_624E, 0xBDE9_0FF9, 0x3CD8_44D0, 0x0000_0000, 0x0000_0000],
        [0x3B5E_D289, 0xBD33_D07D, 0x3E31_F8A1, 0x3F72_DE01, 0xBDDB_F488, 0x3CD0_13A9, 0x0000_0000, 0x0000_0000],
        [0x3B3E_0DED, 0xBD22_339C, 0x3E1F_8A09, 0x3F75_1EB8, 0xBDCE_075F, 0x3CC3_C9EF, 0x0000_0000, 0x0000_0000],
        [0x3B1D_4952, 0xBD10_2DE0, 0x3E0D_844D, 0x3F76_FD22, 0xBDBE_0DED, 0x3CB8_51EC, 0x0000_0000, 0x0000_0000],
        [0x3B03_126F, 0xBCFC_5048, 0x3DF6_FD22, 0x3F79_02DE, 0xBDAE_147B, 0x3CA7_EF9E, 0x0000_0000, 0x0000_0000],
        [0x3AC4_9BA6, 0xBCD8_44D0, 0x3DD4_FDF4, 0x3F7A_7EFA, 0xBD9C_0EBF, 0x3C98_5F07, 0x0000_0000, 0x0000_0000],
        [0x3A83_126F, 0xBCB4_3958, 0x3DB2_FEC5, 0x3F7C_01A3, 0xBD8A_0903, 0x3C87_FCB9, 0x0000_0000, 0x0000_0000],
        [0x3A03_126F, 0xBC94_4674, 0x3D92_05BC, 0x3F7D_5CFB, 0xBD6B_EDFA, 0x3C68_A71E, 0x0000_0000, 0x0000_0000],
        [0x3A03_126F, 0xBC68_A71E, 0x3D66_31F9, 0x3F7E_425B, 0xBD42_2681, 0x3C3F_B15B, 0x0000_0000, 0x0000_0000],
        [0x3A03_126F, 0xBC28_C155, 0x3D29_FBE7, 0x3F7E_DFA4, 0xBD13_DD98, 0x3C10_2DE0, 0x0000_0000, 0x0000_0000],
        [0x0000_0000, 0xBBDE_D289, 0x3CDC_5D64, 0x3F7F_9DB2, 0xBCCB_FB16, 0x3BCE_703B, 0x0000_0000, 0x0000_0000],
        [0x0000_0000, 0xBB5E_D289, 0x3C58_44D0, 0x3F80_0000, 0xBC50_13A9, 0x3B3E_0DED, 0x0000_0000, 0x0000_0000],
    ]
}

/// Returns the smoothing/resize kernel, as binary32 bit patterns.
pub fn coef_scale_bits() -> (r: [[u32; 8]; 64])
    ensures
        r == coef_scale_bits_spec(),
{
    [
        [0x0000_0000u32, 0x0000_0000, 0x3F80_0000, 0x0000_0000, 0x0000_0000, 0x0000_0000, 0x0000_0000, 0x0000_0000],
        [0x3B3E_0DED, 0xBC50_13A9, 0x3F80_0000, 0x3C58_44D0, 0xBB5E_D289, 0x0000_0000, 0x0000_0000, 0x0000_0000],
        [0x3BCE_703B, 0xBCCB_FB16, 0x3F7F_9DB2, 0x3CDC_5D64, 0xBBDE_D289, 0x0000_0000, 0x0000_0000, 0x0000_0000],
        [0x3C10_2DE0, 0xBD13_DD98, 0x3F7E_DFA4, 0x3D29_FBE7, 0xBC28_C155, 0x3A03_126F, 0x0000_0000, 0x0000_0000],
        [0x3C3F_B15B, 0xBD42_2681, 0x3F7E_425B, 0x3D66_31F9, 0xBC68_A71E, 0x3A03_126F, 0x0000_0000, 0x0000_0000],
        [0x3C68_A71E, 0xBD6B_EDFA, 0x3F7D_5CFB, 0x3D92_05BC, 0xBC94_4674, 0x3A03_126F, 0x0000_0000, 0x0000_0000],
        [0x3C87_FCB9, 0xBD8A_0903, 0x3F7C_01A3, 0x3DB2_FEC5, 0xBCB4_3958, 0x3A83_126F, 0x0000_0000, 0x0000_0000],
        [0x3C98_5F07, 0xBD9C_0EBF, 0x3F7A_7EFA, 0x3DD4_FDF4, 0xBCD8_44D0, 0x3AC4_9BA6, 0x0000_0000, 0x0000_0000],
        [0x3CA7_EF9E, 0xBDAE_147B, 0x3F79_02DE, 0x3DF6_FD22, 0xBCFC_5048, 0x3B03_126F, 0x0000_0000, 0x0000_0000],
        [0x3CB8_51EC, 0xBDBE_0DED, 0x3F76_FD22, 0x3E0D_844D, 0xBD10_2DE0, 0x3B1D_4952, 0x0000_0000, 0x0000_0000],
        [0x3CC3_C9EF, 0xBDCE_075F, 0x3F75_1EB8, 0x3E1F_8A09, 0xBD22_339C, 0x3B3E_0DED, 0x0000_0000, 0x0000_0000],
        [0x3CD0_13A9, 0xBDDB_F488, 0x3F72_DE01, 0x3E31_F8A1, 0xBD33_D07D, 0x3B5E_D289, 0x0000_0000, 0x0000_0000],
        [0x3CD8_44D0, 0xBDE9_0FF9, 0x3F70_624E, 0x3E45_8794, 0xBD47_E282, 0x3B90_2DE0, 0x0000_0000, 0x0000_0000],
        [0x3CE3_BCD3, 0xBDF3_EAB3, 0x3F6D_9E84, 0x3E58_FC50, 0xBD5B_F488, 0x3BA0_902E, 0x0000_0000, 0x0000_0000],
        [0x3CEB_EDFA, 0xBDFE_F9DB, 0x3F6A_C083, 0x3E6C_8B44, 0xBD6D_FA44, 0x3BC1_54CA, 0x0000_0000, 0x0000_0000],
        [0x3CF0_068E, 0xBE04_816F, 0x3F67_E282, 0x3E80_8312, 0xBD81_0625, 0x3BCE_703B, 0x0000_0000, 0x0000_0000],
        [0x3CF8_37B5, 0xBE08_7FCC, 0x3F64_816F, 0x3E8A_C083, 0xBD8B_0F28, 0x3BEF_34D7, 0x0000_0000, 0x0000_0000],
        [0x3CFC_5048, 0xBE0B_FB16, 0x3F60_FF97, 0x3E95_3F7D, 0xBD95_182B, 0x3C07_FCB9, 0x0000_0000, 0x0000_0000],
        [0x3CFC_5048, 0xBE0F_7660, 0x3F5D_9E84, 0x3E9F_BE77, 0xBD9E_ECC0, 0x3C18_5F07, 0x0000_0000, 0x0000_0000],
        [0x3D00_346E, 0xBE12_05BC, 0x3F59_C0EC, 0x3EAA_7EFA, 0xBDA8_F5C3, 0x3C28_C155, 0x0000_0000, 0x0000_0000],
        [0x3D00_346E, 0xBE13_F7CF, 0x3F55_DCC6, 0x3EB5_3F7D, 0xBDB2_FEC5, 0x3C37_8034, 0x0000_0000, 0x0000_0000],
        [0x3D00_346E, 0xBE15_8106, 0x3F51_BDA5, 0x3EC0_4189, 0xBDBD_07C8, 0x3C47_E282, 0x0000_0000, 0x0000_0000],
        [0x3D00_346E, 0xBE16_872B, 0x3F4D_5CFB, 0x3ECB_020C, 0xBDC6_0AA6, 0x3C60_75F7, 0x0000_0000, 0x0000_0000],
        [0x3CFC_5048, 0xBE17_7319, 0x3F49_1D15, 0x3ED6_45A2, 0xBDD0_13A9, 0x3C6F_34D7, 0x0000_0000, 0x0000_0000],
        [0x3CF8_37B5, 0xBE17_7319, 0x3F44_A234, 0x3EE1_3A93, 0xBDD9_1687, 0x3C7F_9724, 0x0000_0000, 0x0000_0000],
        [0x3CF4_1F21, 0xBE17_7319, 0x3F40_20C5, 0x3EEC_3C9F, 0xBDE2_1965, 0x3C87_FCB9, 0x0000_0000, 0x0000_0000],
        [0x3CF0_068E, 0xBE16_872B, 0x3F3B_3D08, 0x3EF7_3EAB, 0xBDEA_E7D5, 0x3C94_4674, 0x0000_0000, 0x0000_0000],
        [0x3CEB_EDFA, 0xBE15_8106, 0x3F36_3F14, 0x3F01_4120, 0xBDF3_18FC, 0x3C9B_A5E3, 0x0000_0000, 0x0000_0000],
        [0x3CE3_BCD3, 0xBE13_F7CF, 0x3F31_61E5, 0x3F06_C227, 0xBDFB_15B5, 0x3CA3_D70A, 0x0000_0000, 0x0000_0000],
        [0x3CDF_A440, 0xBE12_88CE, 0x3F2C_2268, 0x3F0C_432D, 0xBE01_0625, 0x3CB0_20C5, 0x0000_0000, 0x0000_0000],
        [0x3CD8_44D0, 0xBE10_7C85, 0x3F27_1DE7, 0x3F11_BDA5, 0xBE05_0481, 0x3CB8_51EC, 0x0000_0000, 0x0000_0000],
        [0x3CD0_13A9, 0xBE0E_075F, 0x3F21_DE6A, 0x3F17_1DE7, 0xBE07_FCB9, 0x3CBF_B15B, 0x0000_0000, 0x0000_0000],
        [0x3CC7_E282, 0xBE0A_F4F1, 0x3F1C_7E28, 0x3F1C_7E28, 0xBE0A_F4F1, 0x3CC7_E282, 0x0000_0000, 0x0000_0000],
        [0x3CBF_B15B, 0xBE07_FCB9, 0x3F17_1DE7, 0x3F21_DE6A, 0xBE0E_075F, 0x3CD0_13A9, 0x0000_0000, 0x0000_0000],
        [0x3CB8_51EC, 0xBE05_0481, 0x3F11_BDA5, 0x3F27_1DE7, 0xBE10_7C85, 0x3CD8_44D0, 0x0000_0000, 0x0000_0000],
        [0x3CB0_20C5, 0xBE01_0625, 0x3F0C_432D, 0x3F2C_2268, 0xBE12_88CE, 0x3CDF_A440, 0x0000_0000, 0x0000_0000],
        [0x3CA3_D70A, 0xBDFB_15B5, 0x3F06_C227, 0x3F31_61E5, 0xBE13_F7CF, 0x3CE3_BCD3, 0x0000_0000, 0x0000_0000],
        [0x3C9B_A5E3, 0xBDF3_18FC, 0x3F01_4120, 0x3F36_3F14, 0xBE15_8106, 0x3CEB_EDFA, 0x0000_0000, 0x0000_0000],
        [0x3C94_4674, 0xBDEA_E7D5, 0x3EF7_3EAB, 0x3F3B_3D08, 0xBE16_872B, 0x3CF0_068E, 0x0000_0000, 0x0000_0000],
        [0x3C87_FCB9, 0xBDE2_1965, 0x3EEC_3C9F, 0x3F40_20C5, 0xBE17_7319, 0x3CF4_1F21, 0x0000_0000, 0x0000_0000],
        [0x3C7F_9724, 0xBDD9_1687, 0x3EE1_3A93, 0x3F44_A234, 0xBE17_7319, 0x3CF8_37B5, 0x0000_0000, 0x0000_0000],
        [0x3C6F_34D7, 0xBDD0_13A9, 0x3ED6_45A2, 0x3F49_1D15, 0xBE17_7319, 0x3CFC_5048, 0x0000_0000, 0x0000_0000],
        [0x3C60_75F7, 0xBDC6_0AA6, 0x3ECB_020C, 0x3F4D_5CFB, 0xBE16_872B, 0x3D00_346E, 0x0000_0000, 0x0000_0000],
        [0x3C47_E282, 0xBDBD_07C8, 0x3EC0_4189, 0x3F51_BDA5, 0xBE15_8106, 0x3D00_346E, 0x0000_0000, 0x0000_0000],
        [0x3C37_8034, 0xBDB2_FEC5, 0x3EB5_3F7D, 0x3F55_DCC6, 0xBE13_F7CF, 0x3D00_346E, 0x0000_0000, 0x0000_0000],
        [0x3C28_C155, 0xBDA8_F5C3, 0x3EAA_7EFA, 0x3F59_C0EC, 0xBE12_05BC, 0x3D00_346E, 0x0000_0000, 0x0000_0000],
        [0x3C18_5F07, 0xBD9E_ECC0, 0x3E9F_BE77, 0x3F5D_9E84, 0xBE0F_7660, 0x3CFC_5048, 0x0000_0000, 0x0000_0000],
        [0x3C07_FCB9, 0xBD95_182B, 0x3E95_3F7D, 0x3F60_FF97, 0xBE0B_FB16, 0x3CFC_5048, 0x0000_0000, 0x0000_0000],
        [0x3BEF_34D7, 0xBD8B_0F28, 0x3E8A_C083, 0x3F64_816F, 0xBE08_7FCC, 0x3CF8_37B5, 0x0000_0000, 0x0000_0000],
        [0x3BCE_703B, 0xBD81_0625, 0x3E80_8312, 0x3F67_E282, 0xBE04_816F, 0x3CF0_068E, 0x0000_0000, 0x0000_0000],
        [0x3BC1_54CA, 0xBD6D_FA44, 0x3E6C_8B44, 0x3F6A_C083, 0xBDFE_F9DB, 0x3CEB_EDFA, 0x0000_0000, 0x0000_0000],
        [0x3BA0_902E, 0xBD5B_F488, 0x3E58_FC50, 0x3F6D_9E84, 0xBDF3_EAB3, 0x3CE3_BCD3, 0x0000_0000, 0x0000_0000],
        [0x3B90_2DE0, 0xBD47_E282, 0x3E45_8794, 0x3F70_624E, 0xBDE9_0FF9, 0x3CD8_44D0, 0x0000_0000, 0x0000_0000],
        [0x3B5E_D289, 0xBD33_D07D, 0x3E31_F8A1, 0x3F72_DE01, 0xBDDB_F488, 0x3CD0_13A9, 0x0000_0000, 0x0000_0000],
        [0x3B3E_0DED, 0xBD22_339C, 0x3E1F_8A09, 0x3F75_1EB8, 0xBDCE_075F, 0x3CC3_C9EF, 0x0000_0000, 0x0000_0000],
        [0x3B1D_4952, 0xBD10_2DE0, 0x3E0D_844D, 0x3F76_FD22, 0xBDBE_0DED, 0x3CB8_51EC, 0x0000_0000, 0x0000_0000],
        [0x3B03_126F, 0xBCFC_5048, 0x3DF6_FD22, 0x3F79_02DE, 0xBDAE_147B, 0x3CA7_EF9E, 0x0000_0000, 0x0000_0000],
        [0x3AC4_9BA6, 0xBCD8_44D0, 0x3DD4_FDF4, 0x3F7A_7EFA, 0xBD9C_0EBF, 0x3C98_5F07, 0x0000_0000, 0x0000_0000],
        [0x3A83_126F, 0xBCB4_3958, 0x3DB2_FEC5, 0x3F7C_01A3, 0xBD8A_0903, 0x3C87_FCB9, 0x0000_0000, 0x0000_0000],
        [0x3A03_126F, 0xBC94_4674, 0x3D92_05BC, 0x3F7D_5CFB, 0xBD6B_EDFA, 0x3C68_A71E, 0x0000_0000, 0x0000_0000],
        [0x3A03_126F, 0xBC68_A71E, 0x3D66_31F9, 0x3F7E_425B, 0xBD42_2681, 0x3C3F_B15B, 0x0000_0000, 0x0000_0000],
        [0x3A03_126F, 0xBC28_C155, 0x3D29_FBE7, 0x3F7E_DFA4, 0xBD13_DD98, 0x3C10_2DE0, 0x0000_0000, 0x0000_0000],
        [0x0000_0000, 0xBBDE_D289, 0x3CDC_5D64, 0x3F7F_9DB2, 0xBCCB_FB16, 0x3BCE_703B, 0x0000_0000, 0x0000_0000],
        [0x0000_0000, 0xBB5E_D289, 0x3C58_44D0, 0x3F80_0000, 0xBC50_13A9, 0x3B3E_0DED, 0x0000_0000, 0x0000_0000],
    ]
}

/// The band-pass/unsharp-mask kernel, as binary32 bit patterns.
pub open spec fn coef_usm_bits_spec() -> [[u32; 8]; 64] {
    [
        [0x0000_0000u32, 0xBF19_A027, 0x3F99_A027, 0xBF19_A027, 0x0000_0000, 0x0000_0000, 0x0000_0000, 0x0000_0000],
        [0x3B3E_0DED, 0xBF1B_C01A, 0x3F99_6F00, 0xBF17_1DE7, 0xBB3E_0DED, 0x0000_0000, 0x0000_0000, 0x0000_0000],
        [0x3BA0_902E, 0xBF1D_5CFB, 0x3F99_0FF9, 0xBF14_3FE6, 0xBBDE_D289, 0x3A03_126F, 0x0000_0000, 0x0000_0000],
        [0x3BEF_34D7, 0xBF1E_9E1B, 0x3F98_3127, 0xBF10_DED3, 0xBC28_C155, 0x0000_0000, 0x0000_0000, 0x0000_0000],
        [0x3C18_5F07, 0xBF1F_9DB2, 0x3F97_10CB, 0xBF0D_21FF, 0xBC77_65FE, 0x0000_0000, 0x0000_0000, 0x0000_0000],
        [0x3C37_8034, 0xBF20_624E, 0x3F95_BF48, 0xBF09_02DE, 0xBC9F_BE77, 0x3A03_126F, 0x0000_0000, 0x0000_0000],
        [0x3C47_E282, 0xBF20_8312, 0x3F94_3FE6, 0xBF04_A234, 0xBCD4_2C3D, 0x3A03_126F, 0x0000_0000, 0x0000_0000],
        [0x3C68_A71E, 0xBF20_DED3, 0x3F92_9FBE, 0xBF00_20C5, 0xBD01_D7DC, 0x3A03_126F, 0x0000_0000, 0x0000_0000],
        [0x3C7F_9724, 0xBF20_624E, 0x3F90_4EA5, 0xBEF5_3F7D, 0xBD1E_1B09, 0x3A03_126F, 0x0000_0000, 0x0000_0000],
        [0x3C87_FCB9, 0xBF1F_9DB2, 0x3F8D_F06F, 0xBEE9_FBE7, 0xBD39_F55A, 0x3A83_126F, 0x0000_0000, 0x0000_0000],
        [0x3C90_2DE0, 0xBF1E_6320, 0x3F8B_404F, 0xBEDE_83E4, 0xBD59_E83E, 0x3A83_126F, 0x0000_0000, 0x0000_0000],
        [0x3C94_4674, 0xBF1D_21FF, 0x3F88_6F69, 0xBED2_05BC, 0xBD7B_E76D, 0x3AC4_9BA6, 0x0000_0000, 0x0000_0000],
        [0x3C9B_A5E3, 0xBF1B_5DCC, 0x3F85_2F1B, 0xBEC4_C2F8, 0xBD8E_F34D, 0x3AC4_9BA6, 0x0000_0000, 0x0000_0000],
        [0x3C9F_BE77, 0xBF19_C0EC, 0x3F82_0F91, 0xBEB6_FD22, 0xBDA3_0553, 0x3B03_126F, 0x0000_0000, 0x0000_0000],
        [0x3CA3_D70A, 0xBF17_C1BE, 0x3F7D_42C4, 0xBEA8_3E42, 0xBDB7_E910, 0x3B1D_4952, 0x0000_0000, 0x0000_0000],
        [0x3CA3_D70A, 0xBF14_FDF4, 0x3F75_3F7D, 0xBE98_FC50, 0xBDCD_013B, 0x3B3E_0DED, 0x0000_0000, 0x0000_0000],
        [0x3CA3_D70A, 0xBF12_A305, 0x3F6D_E00D, 0xBE89_BA5E, 0xBDE2_1965, 0x3B5E_D289, 0x0000_0000, 0x0000_0000],
        [0x3CA3_D70A, 0xBF0F_DF3B, 0x3F65_C28F, 0xBE72_7BB3, 0xBDFB_15B5, 0x3B7F_9724, 0x0000_0000, 0x0000_0000],
        [0x3CA7_EF9E, 0xBF0C_BFB1, 0x3F5D_42C4, 0xBE51_82AA, 0xBE09_85F0, 0x3B90_2DE0, 0x0000_0000, 0x0000_0000],
        [0x3CA3_D70A, 0xBF09_7F63, 0x3F54_816F, 0xBE2F_0069, 0xBE16_0419, 0x3BA0_902E, 0x0000_0000, 0x0000_0000],
        [0x3C9F_BE77, 0xBF06_1E4F, 0x3F4B_5DCC, 0xBE0B_FB16, 0xBE22_8241, 0x3BB0_F27C, 0x0000_0000, 0x0000_0000],
        [0x3C9F_BE77, 0xBF02_BD3C, 0x3F42_8241, 0xBDD1_19CE, 0xBE30_89A0, 0x3BC1_54CA, 0x0000_0000, 0x0000_0000],
        [0x3C9B_A5E3, 0xBEFE_425B, 0x3F39_1D15, 0xBD84_EA4B, 0xBE3E_F9DB, 0x3BCE_703B, 0x0000_0000, 0x0000_0000],
        [0x3C98_5F07, 0xBEF6_BB99, 0x3F2F_41F2, 0xBCEB_EDFA, 0xBE4C_7E28, 0x3BDE_D289, 0x0000_0000, 0x0000_0000],
        [0x3C98_5F07, 0xBEEF_0069, 0x3F25_6042, 0x3C18_5F07, 0xBE5B_8BAC, 0x3BEF_34D7, 0x0000_0000, 0x0000_0000],
        [0x3C90_2DE0, 0xBEE6_C227, 0x3F1B_020C, 0x3D44_32CA, 0xBE6A_7EFA, 0x3C07_FCB9, 0x0000_0000, 0x0000_0000],
        [0x3C8C_154D, 0xBEDF_BE77, 0x3F11_BDA5, 0x3DAF_EC57, 0xBE7A_786C, 0x3C10_2DE0, 0x0000_0000, 0x0000_0000],
        [0x3C83_E426, 0xBED6_FD22, 0x3F07_3EAB, 0x3E00_8312, 0xBE85_0481, 0x3C20_902E, 0x0000_0000, 0x0000_0000],
        [0x3C83_E426, 0xBECF_41F2, 0x3EFA_0275, 0x3E29_78D5, 0xBE8D_013B, 0x3C28_C155, 0x0000_0000, 0x0000_0000],
        [0x3C77_65FE, 0xBEC7_03B0, 0x3EE6_3F14, 0x3E50_FF97, 0xBE94_FDF4, 0x3C2F_4F0E, 0x0000_0000, 0x0000_0000],
        [0x3C68_A71E, 0xBEBE_00D2, 0x3ED0_7C85, 0x3E7A_786C, 0xBE9C_FAAD, 0x3C3F_B15B, 0x0000_0000, 0x0000_0000],
        [0x3C60_75F7, 0xBEB6_0419, 0x3EBC_01A3, 0x3E92_05BC, 0xBEA5_460B, 0x3C47_E282, 0x0000_0000, 0x0000_0000],
        [0x3C58_44D0, 0xBEAD_C5D6, 0x3EA7_03B0, 0x3EA7_03B0, 0xBEAD_C5D6, 0x3C58_44D0, 0x0000_0000, 0x0000_0000],
        [0x3C47_E282, 0xBEA5_460B, 0x3E92_05BC, 0x3EBC_01A3, 0xBEB6_0419, 0x3C60_75F7, 0x0000_0000, 0x0000_0000],
        [0x3C3F_B15B, 0xBE9C_FAAD, 0x3E7A_786C, 0x3ED0_7C85, 0xBEBE_00D2, 0x3C68_A71E, 0x0000_0000, 0x0000_0000],
        [0x3C2F_4F0E, 0xBE94_FDF4, 0x3E50_FF97, 0x3EE6_3F14, 0xBEC7_03B0, 0x3C77_65FE, 0x0000_0000, 0x0000_0000],
        [0x3C28_C155, 0xBE8D_013B, 0x3E29_78D5, 0x3EFA_0275, 0xBECF_41F2, 0x3C83_E426, 0x0000_0000, 0x0000_0000],
        [0x3C20_902E, 0xBE85_0481, 0x3E00_8312, 0x3F07_3EAB, 0xBED6_FD22, 0x3C83_E426, 0x0000_0000, 0x0000_0000],
        [0x3C10_2DE0, 0xBE7A_786C, 0x3DAF_EC57, 0x3F11_BDA5, 0xBEDF_BE77, 0x3C8C_154D, 0x0000_0000, 0x0000_0000],
        [0x3C07_FCB9, 0xBE6A_7EFA, 0x3D44_32CA, 0x3F1B_020C, 0xBEE6_C227, 0x3C90_2DE0, 0x0000_0000, 0x0000_0000],
        [0x3BEF_34D7, 0xBE5B_8BAC, 0x3C18_5F07, 0x3F25_6042, 0xBEEF_0069, 0x3C98_5F07, 0x0000_0000, 0x0000_0000],
        [0x3BDE_D289, 0xBE4C_7E28, 0xBCEB_EDFA, 0x3F2F_41F2, 0xBEF6_BB99, 0x3C98_5F07, 0x0000_0000, 0x0000_0000],
        [0x3BCE_703B, 0xBE3E_F9DB, 0xBD84_EA4B, 0x3F39_1D15, 0xBEFE_425B, 0x3C9B_A5E3, 0x0000_0000, 0x0000_0000],
        [0x3BC1_54CA, 0xBE30_89A0, 0xBDD1_19CE, 0x3F42_8241, 0xBF02_BD3C, 0x3C9F_BE77, 0x0000_0000, 0x0000_0000],
        [0x3BB0_F27C, 0xBE22_8241, 0xBE0B_FB16, 0x3F4B_5DCC, 0xBF06_1E4F, 0x3C9F_BE77, 0x0000_0000, 0x0000_0000],
        [0x3BA0_902E, 0xBE16_0419, 0xBE2F_0069, 0x3F54_816F, 0xBF09_7F63, 0x3CA3_D70A, 0x0000_0000, 0x0000_0000],
        [0x3B90_2DE0, 0xBE09_85F0, 0xBE51_82AA, 0x3F5D_42C4, 0xBF0C_BFB1, 0x3CA7_EF9E, 0x0000_0000, 0x0000_0000],
        [0x3B7F_9724, 0xBDFB_15B5, 0xBE72_7BB3, 0x3F65_C28F, 0xBF0F_DF3B, 0x3CA3_D70A, 0x0000_0000, 0x0000_0000],
        [0x3B5E_D289, 0xBDE2_1965, 0xBE89_BA5E, 0x3F6D_E00D, 0xBF12_A305, 0x3CA3_D70A, 0x0000_0000, 0x0000_0000],
        [0x3B3E_0DED, 0xBDCD_013B, 0xBE98_FC50, 0x3F75_3F7D, 0xBF14_FDF4, 0x3CA3_D70A, 0x0000_0000, 0x0000_0000],
        [0x3B1D_4952, 0xBDB7_E910, 0xBEA8_3E42, 0x3F7D_42C4, 0xBF17_C1BE, 0x3CA3_D70A, 0x0000_0000, 0x0000_0000],
        [0x3B03_126F, 0xBDA3_0553, 0xBEB6_FD22, 0x3F82_0F91, 0xBF19_C0EC, 0x3C9F_BE77, 0x0000_0000, 0x0000_0000],
        [0x3AC4_9BA6, 0xBD8E_F34D, 0xBEC4_C2F8, 0x3F85_2F1B, 0xBF1B_5DCC, 0x3C9B_A5E3, 0x0000_0000, 0x0000_0000],
        [0x3AC4_9BA6, 0xBD7B_E76D, 0xBED2_05BC, 0x3F88_6F69, 0xBF1D_21FF, 0x3C94_4674, 0x0000_0000, 0x0000_0000],
        [0x3A83_126F, 0xBD59_E83E, 0xBEDE_83E4, 0x3F8B_404F, 0xBF1E_6320, 0x3C90_2DE0, 0x0000_0000, 0x0000_0000],
        [0x3A83_126F, 0xBD39_F55A, 0xBEE9_FBE7, 0x3F8D_F06F, 0xBF1F_9DB2, 0x3C87_FCB9, 0x0000_0000, 0x0000_0000],
        [0x3A03_126F, 0xBD1E_1B09, 0xBEF5_3F7D, 0x3F90_4EA5, 0xBF20_624E, 0x3C7F_9724, 0x0000_0000, 0x0000_0000],
        [0x3A03_126F, 0xBD01_D7DC, 0xBF00_20C5, 0x3F92_9FBE, 0xBF20_DED3, 0x3C68_A71E, 0x0000_0000, 0x0000_0000],
        [0x3A03_126F, 0xBCD4_2C3D, 0xBF04_A234, 0x3F94_3FE6, 0xBF20_8312, 0x3C47_E282, 0x0000_0000, 0x0000_0000],
        [0x3A03_126F, 0xBC9F_BE77, 0xBF09_02DE, 0x3F95_BF48, 0xBF20_624E, 0x3C37_8034, 0x0000_0000, 0x0000_0000],
        [0x0000_0000, 0xBC77_65FE, 0xBF0D_21FF, 0x3F97_10CB, 0xBF1F_9DB2, 0x3C18_5F07, 0x0000_0000, 0x0000_0000],
        [0x0000_0000, 0xBC28_C155, 0xBF10_DED3, 0x3F98_3127, 0xBF1E_9E1B, 0x3BEF_34D7, 0x0000_0000, 0x0000_0000],
        [0x3A03_126F, 0xBBDE_D289, 0xBF14_3FE6, 0x3F99_0FF9, 0xBF1D_5CFB, 0x3BA0_902E, 0x0000_0000, 0x0000_0000],
        [0x0000_0000, 0xBB3E_0DED, 0xBF17_1DE7, 0x3F99_6F00, 0xBF1B_C01A, 0x3B3E_0DED, 0x0000_0000, 0x0000_0000],
    ]
}

/// Returns the band-pass/unsharp-mask kernel, as binary32 bit patterns.
pub fn coef_usm_bits() -> (r: [[u32; 8]; 64])
    ensures
        r == coef_usm_bits_spec(),
{
    [
        [0x0000_0000u32, 0xBF19_A027, 0x3F99_A027, 0xBF19_A027, 0x0000_0000, 0x0000_0000, 0x0000_0000, 0x0000_0000],
        [0x3B3E_0DED, 0xBF1B_C01A, 0x3F99_6F00, 0xBF17_1DE7, 0xBB3E_0DED, 0x0000_0000, 0x0000_0000, 0x0000_0000],
        [0x3BA0_902E, 0xBF1D_5CFB, 0x3F99_0FF9, 0xBF14_3FE6, 0xBBDE_D289, 0x3A03_126F, 0x0000_0000, 0x0000_0000],
        [0x3BEF_34D7, 0xBF1E_9E1B, 0x3F98_3127, 0xBF10_DED3, 0xBC28_C155, 0x0000_0000, 0x0000_0000, 0x0000_0000],
        [0x3C18_5F07, 0xBF1F_9DB2, 0x3F97_10CB, 0xBF0D_21FF, 0xBC77_65FE, 0x0000_0000, 0x0000_0000, 0x0000_0000],
        [0x3C37_8034, 0xBF20_624E, 0x3F95_BF48, 0xBF09_02DE, 0xBC9F_BE77, 0x3A03_126F, 0x0000_0000, 0x0000_0000],
        [0x3C47_E282, 0xBF20_8312, 0x3F94_3FE6, 0xBF04_A234, 0xBCD4_2C3D, 0x3A03_126F, 0x0000_0000, 0x0000_0000],
        [0x3C68_A71E, 0xBF20_DED3, 0x3F92_9FBE, 0xBF00_20C5, 0xBD01_D7DC, 0x3A03_126F, 0x0000_0000, 0x0000_0000],
        [0x3C7F_9724, 0xBF20_624E, 0x3F90_4EA5, 0xBEF5_3F7D, 0xBD1E_1B09, 0x3A03_126F, 0x0000_0000, 0x0000_0000],
        [0x3C87_FCB9, 0xBF1F_9DB2, 0x3F8D_F06F, 0xBEE9_FBE7, 0xBD39_F55A, 0x3A83_126F, 0x0000_0000, 0x0000_0000],
        [0x3C90_2DE0, 0xBF1E_6320, 0x3F8B_404F, 0xBEDE_83E4, 0xBD59_E83E, 0x3A83_126F, 0x0000_0000, 0x0000_0000],
        [0x3C94_4674, 0xBF1D_21FF, 0x3F88_6F69, 0xBED2_05BC, 0xBD7B_E76D, 0x3AC4_9BA6, 0x0000_0000, 0x0000_0000],
        [0x3C9B_A5E3, 0xBF1B_5DCC, 0x3F85_2F1B, 0xBEC4_C2F8, 0xBD8E_F34D, 0x3AC4_9BA6, 0x0000_0000, 0x0000_0000],
        [0x3C9F_BE77, 0xBF19_C0EC, 0x3F82_0F91, 0xBEB6_FD22, 0xBDA3_0553, 0x3B03_126F, 0x0000_0000, 0x0000_0000],
        [0x3CA3_D70A, 0xBF17_C1BE, 0x3F7D_42C4, 0xBEA8_3E42, 0xBDB7_E910, 0x3B1D_4952, 0x0000_0000, 0x0000_0000],
        [0x3CA3_D70A, 0xBF14_FDF4, 0x3F75_3F7D, 0xBE98_FC50, 0xBDCD_013B, 0x3B3E_0DED, 0x0000_0000, 0x0000_0000],
        [0x3CA3_D70A, 0xBF12_A305, 0x3F6D_E00D, 0xBE89_BA5E, 0xBDE2_1965, 0x3B5E_D289, 0x0000_0000, 0x0000_0000],
        [0x3CA3_D70A, 0xBF0F_DF3B, 0x3F65_C28F, 0xBE72_7BB3, 0xBDFB_15B5, 0x3B7F_9724, 0x0000_0000, 0x0000_0000],
        [0x3CA7_EF9E, 0xBF0C_BFB1, 0x3F5D_42C4, 0xBE51_82AA, 0xBE09_85F0, 0x3B90_2DE0, 0x0000_0000, 0x0000_0000],
        [0x3CA3_D70A, 0xBF09_7F63, 0x3F54_816F, 0xBE2F_0069, 0xBE16_0419, 0x3BA0_902E, 0x0000_0000, 0x0000_0000],
        [0x3C9F_BE77, 0xBF06_1E4F, 0x3F4B_5DCC, 0xBE0B_FB16, 0xBE22_8241, 0x3BB0_F27C, 0x0000_0000, 0x0000_0000],
        [0x3C9F_BE77, 0xBF02_BD3C, 0x3F42_8241, 0xBDD1_19CE, 0xBE30_89A0, 0x3BC1_54CA, 0x0000_0000, 0x0000_0000],
        [0x3C9B_A5E3, 0xBEFE_425B, 0x3F39_1D15, 0xBD84_EA4B, 0xBE3E_F9DB, 0x3BCE_703B, 0x0000_0000, 0x0000_0000],
        [0x3C98_5F07, 0xBEF6_BB99, 0x3F2F_41F2, 0xBCEB_EDFA, 0xBE4C_7E28, 0x3BDE_D289, 0x0000_0000, 0x0000_0000],
        [0x3C98_5F07, 0xBEEF_0069, 0x3F25_6042, 0x3C18_5F07, 0xBE5B_8BAC, 0x3BEF_34D7, 0x0000_0000, 0x0000_0000],
        [0x3C90_2DE0, 0xBEE6_C227, 0x3F1B_020C, 0x3D44_32CA, 0xBE6A_7EFA, 0x3C07_FCB9, 0x0000_0000, 0x0000_0000],
        [0x3C8C_154D, 0xBEDF_BE77, 0x3F11_BDA5, 0x3DAF_EC57, 0xBE7A_786C, 0x3C10_2DE0, 0x0000_0000, 0x0000_0000],
        [0x3C83_E426, 0xBED6_FD22, 0x3F07_3EAB, 0x3E00_8312, 0xBE85_0481, 0x3C20_902E, 0x0000_0000, 0x0000_0000],
        [0x3C83_E426, 0xBECF_41F2, 0x3EFA_0275, 0x3E29_78D5, 0xBE8D_013B, 0x3C28_C155, 0x0000_0000, 0x0000_0000],
        [0x3C77_65FE, 0xBEC7_03B0, 0x3EE6_3F14, 0x3E50_FF97, 0xBE94_FDF4, 0x3C2F_4F0E, 0x0000_0000, 0x0000_0000],
        [0x3C68_A71E, 0xBEBE_00D2, 0x3ED0_7C85, 0x3E7A_786C, 0xBE9C_FAAD, 0x3C3F_B15B, 0x0000_0000, 0x0000_0000],
        [0x3C60_75F7, 0xBEB6_0419, 0x3EBC_01A3, 0x3E92_05BC, 0xBEA5_460B, 0x3C47_E282, 0x0000_0000, 0x0000_0000],
        [0x3C58_44D0, 0xBEAD_C5D6, 0x3EA7_03B0, 0x3EA7_03B0, 0xBEAD_C5D6, 0x3C58_44D0, 0x0000_0000, 0x0000_0000],
        [0x3C47_E282, 0xBEA5_460B, 0x3E92_05BC, 0x3EBC_01A3, 0xBEB6_0419, 0x3C60_75F7, 0x0000_0000, 0x0000_0000],
        [0x3C3F_B15B, 0xBE9C_FAAD, 0x3E7A_786C, 0x3ED0_7C85, 0xBEBE_00D2, 0x3C68_A71E, 0x0000_0000, 0x0000_0000],
        [0x3C2F_4F0E, 0xBE94_FDF4, 0x3E50_FF97, 0x3EE6_3F14, 0xBEC7_03B0, 0x3C77_65FE, 0x0000_0000, 0x0000_0000],
        [0x3C28_C155, 0xBE8D_013B, 0x3E29_78D5, 0x3EFA_0275, 0xBECF_41F2, 0x3C83_E426, 0x0000_0000, 0x0000_0000],
        [0x3C20_902E, 0xBE85_0481, 0x3E00_8312, 0x3F07_3EAB, 0xBED6_FD22, 0x3C83_E426, 0x0000_0000, 0x0000_0000],
        [0x3C10_2DE0, 0xBE7A_786C, 0x3DAF_EC57, 0x3F11_BDA5, 0xBEDF_BE77, 0x3C8C_154D, 0x0000_0000, 0x0000_0000],
        [0x3C07_FCB9, 0xBE6A_7EFA, 0x3D44_32CA, 0x3F1B_020C, 0xBEE6_C227, 0x3C90_2DE0, 0x0000_0000, 0x0000_0000],
        [0x3BEF_34D7, 0xBE5B_8BAC, 0x3C18_5F07, 0x3F25_6042, 0xBEEF_0069, 0x3C98_5F07, 0x0000_0000, 0x0000_0000],
        [0x3BDE_D289, 0xBE4C_7E28, 0xBCEB_EDFA, 0x3F2F_41F2, 0xBEF6_BB99, 0x3C98_5F07, 0x0000_0000, 0x0000_0000],
        [0x3BCE_703B, 0xBE3E_F9DB, 0xBD84_EA4B, 0x3F39_1D15, 0xBEFE_425B, 0x3C9B_A5E3, 0x0000_0000, 0x0000_0000],
        [0x3BC1_54CA, 0xBE30_89A0, 0xBDD1_19CE, 0x3F42_8241, 0xBF02_BD3C, 0x3C9F_BE77, 0x0000_0000, 0x0000_0000],
        [0x3BB0_F27C, 0xBE22_8241, 0xBE0B_FB16, 0x3F4B_5DCC, 0xBF06_1E4F, 0x3C9F_BE77, 0x0000_0000, 0x0000_0000],
        [0x3BA0_902E, 0xBE16_0419, 0xBE2F_0069, 0x3F54_816F, 0xBF09_7F63, 0x3CA3_D70A, 0x0000_0000, 0x0000_0000],
        [0x3B90_2DE0, 0xBE09_85F0, 0xBE51_82AA, 0x3F5D_42C4, 0xBF0C_BFB1, 0x3CA7_EF9E, 0x0000_0000, 0x0000_0000],
        [0x3B7F_9724, 0xBDFB_15B5, 0xBE72_7BB3, 0x3F65_C28F, 0xBF0F_DF3B, 0x3CA3_D70A, 0x0000_0000, 0x0000_0000],
        [0x3B5E_D289, 0xBDE2_1965, 0xBE89_BA5E, 0x3F6D_E00D, 0xBF12_A305, 0x3CA3_D70A, 0x0000_0000, 0x0000_0000],
        [0x3B3E_0DED, 0xBDCD_013B, 0xBE98_FC50, 0x3F75_3F7D, 0xBF14_FDF4, 0x3CA3_D70A, 0x0000_0000, 0x0000_0000],
        [0x3B1D_4952, 0xBDB7_E910, 0xBEA8_3E42, 0x3F7D_42C4, 0xBF17_C1BE, 0x3CA3_D70A, 0x0000_0000, 0x0000_0000],
        [0x3B03_126F, 0xBDA3_0553, 0xBEB6_FD22, 0x3F82_0F91, 0xBF19_C0EC, 0x3C9F_BE77, 0x0000_0000, 0x0000_0000],
        [0x3AC4_9BA6, 0xBD8E_F34D, 0xBEC4_C2F8, 0x3F85_2F1B, 0xBF1B_5DCC, 0x3C9B_A5E3, 0x0000_0000, 0x0000_0000],
        [0x3AC4_9BA6, 0xBD7B_E76D, 0xBED2_05BC, 0x3F88_6F69, 0xBF1D_21FF, 0x3C94_4674, 0x0000_0000, 0x0000_0000],
        [0x3A83_126F, 0xBD59_E83E, 0xBEDE_83E4, 0x3F8B_404F, 0xBF1E_6320, 0x3C90_2DE0, 0x0000_0000, 0x0000_0000],
        [0x3A83_126F, 0xBD39_F55A, 0xBEE9_FBE7, 0x3F8D_F06F, 0xBF1F_9DB2, 0x3C87_FCB9, 0x0000_0000, 0x0000_0000],
        [0x3A03_126F, 0xBD1E_1B09, 0xBEF5_3F7D, 0x3F90_4EA5, 0xBF20_624E, 0x3C7F_9724, 0x0000_0000, 0x0000_0000],
        [0x3A03_126F, 0xBD01_D7DC, 0xBF00_20C5, 0x3F92_9FBE, 0xBF20_DED3, 0x3C68_A71E, 0x0000_0000, 0x0000_0000],
        [0x3A03_126F, 0xBCD4_2C3D, 0xBF04_A234, 0x3F94_3FE6, 0xBF20_8312, 0x3C47_E282, 0x0000_0000, 0x0000_0000],
        [0x3A03_126F, 0xBC9F_BE77, 0xBF09_02DE, 0x3F95_BF48, 0xBF20_624E, 0x3C37_8034, 0x0000_0000, 0x0000_0000],
        [0x0000_0000, 0xBC77_65FE, 0xBF0D_21FF, 0x3F97_10CB, 0xBF1F_9DB2, 0x3C18_5F07, 0x0000_0000, 0x0000_0000],
        [0x0000_0000, 0xBC28_C155, 0xBF10_DED3, 0x3F98_3127, 0xBF1E_9E1B, 0x3BEF_34D7, 0x0000_0000, 0x0000_0000],
        [0x3A03_126F, 0xBBDE_D289, 0xBF14_3FE6, 0x3F99_0FF9, 0xBF1D_5CFB, 0x3BA0_902E, 0x0000_0000, 0x0000_0000],
        [0x0000_0000, 0xBB3E_0DED, 0xBF17_1DE7, 0x3F99_6F00, 0xBF1B_C01A, 0x3B3E_0DED, 0x0000_0000, 0x0000_0000],
    ]
}

/// The smoothing/resize kernel, quantized to binary16 bit patterns.
pub open spec fn coef_scale_fp16_spec() -> [[u16; 8]; 64] {
    [
        [0u16, 0, 15360, 0, 0, 0, 0, 0],
        [6640, 41601, 15360, 8898, 39671, 0, 0, 0],
        [7796, 42592, 15357, 9955, 40695, 0, 0, 0],
        [8321, 43167, 15351, 10576, 41286, 4121, 0, 0],
        [8702, 43537, 15346, 11058, 41797, 4121, 0, 0],
        [9029, 43871, 15339, 11408, 42146, 4121, 0, 0],
        [9280, 44112, 15328, 11672, 42402, 5145, 0, 0],
        [9411, 44256, 15316, 11944, 42690, 5669, 0, 0],
        [9535, 44401, 15304, 12216, 42979, 6169, 0, 0],
        [9667, 44528, 15288, 12396, 43137, 6378, 0, 0],
        [9758, 44656, 15273, 12540, 43282, 6640, 0, 0],
        [9857, 44768, 15255, 12688, 43423, 6903, 0, 0],
        [9922, 44872, 15235, 12844, 43583, 7297, 0, 0],
        [10014, 44959, 15213, 13000, 43744, 7429, 0, 0],
        [10079, 45048, 15190, 13156, 43888, 7691, 0, 0],
        [10112, 45092, 15167, 13316, 44040, 7796, 0, 0],
        [10178, 45124, 15140, 13398, 44120, 8058, 0, 0],
        [10211, 45152, 15112, 13482, 44201, 8256, 0, 0],
        [10211, 45180, 15085, 13566, 44279, 8387, 0, 0],
        [10242, 45200, 15054, 13652, 44360, 8518, 0, 0],
        [10242, 45216, 15023, 13738, 44440, 8636, 0, 0],
        [10242, 45228, 14990, 13826, 44520, 8767, 0, 0],
        [10242, 45236, 14955, 13912, 44592, 8964, 0, 0],
        [10211, 45244, 14921, 14002, 44673, 9082, 0, 0],
        [10178, 45244, 14885, 14090, 44745, 9213, 0, 0],
        [10145, 45244, 14849, 14178, 44817, 9280, 0, 0],
        [10112, 45236, 14810, 14266, 44887, 9378, 0, 0],
        [10079, 45228, 14770, 14346, 44953, 9437, 0, 0],
        [10014, 45216, 14731, 14390, 45017, 9503, 0, 0],
        [9981, 45204, 14689, 14434, 45064, 9601, 0, 0],
        [9922, 45188, 14649, 14478, 45096, 9667, 0, 0],
        [9857, 45168, 14607, 14521, 45120, 9726, 0, 0],
        [9791, 45144, 14564, 14564, 45144, 9791, 0, 0],
        [9726, 45120, 14521, 14607, 45168, 9857, 0, 0],
        [9667, 45096, 14478, 14649, 45188, 9922, 0, 0],
        [9601, 45064, 14434, 14689, 45204, 9981, 0, 0],
        [9503, 45017, 14390, 14731, 45216, 10014, 0, 0],
        [9437, 44953, 14346, 14770, 45228, 10079, 0, 0],
        [9378, 44887, 14266, 14810, 45236, 10112, 0, 0],
        [9280, 44817, 14178, 14849, 45244, 10145, 0, 0],
        [9213, 44745, 14090, 14885, 45244, 10178, 0, 0],
        [9082, 44673, 14002, 14921, 45244, 10211, 0, 0],
        [8964, 44592, 13912, 14955, 45236, 10242, 0, 0],
        [8767, 44520, 13826, 14990, 45228, 10242, 0, 0],
        [8636, 44440, 13738, 15023, 45216, 10242, 0, 0],
        [8518, 44360, 13652, 15054, 45200, 10242, 0, 0],
        [8387, 44279, 13566, 15085, 45180, 10211, 0, 0],
        [8256, 44201, 13482, 15112, 45152, 10211, 0, 0],
        [8058, 44120, 13398, 15140, 45124, 10178, 0, 0],
        [7796, 44040, 13316, 15167, 45092, 10112, 0, 0],
        [7691, 43888, 13156, 15190, 45048, 10079, 0, 0],
        [7429, 43744, 13000, 15213, 44959, 10014, 0, 0],
        [7297, 43583, 12844, 15235, 44872, 9922, 0, 0],
        [6903, 43423, 12688, 15255, 44768, 9857, 0, 0],
        [6640, 43282, 12540, 15273, 44656, 9758, 0, 0],
        [6378, 43137, 12396, 15288, 44528, 9667, 0, 0],
        [6169, 42979, 12216, 15304, 44401, 9535, 0, 0],
        [5669, 42690, 11944, 15316, 44256, 9411, 0, 0],
        [5145, 42402, 11672, 15328, 44112, 9280, 0, 0],
        [4121, 42146, 11408, 15339, 43871, 9029, 0, 0],
        [4121, 41797, 11058, 15346, 43537, 8702, 0, 0],
        [4121, 41286, 10576, 15351, 43167, 8321, 0, 0],
        [0, 40695, 9955, 15357, 42592, 7796, 0, 0],
        [0, 39671, 8898, 15360, 41601, 6640, 0, 0],
    ]
}

/// Returns the smoothing/resize kernel, quantized to binary16 bit patterns.
pub fn coef_scale_fp16() -> (r: [[u16; 8]; 64])
    ensures
        r == coef_scale_fp16_spec(),
{
    [
        [0u16, 0, 15360, 0, 0, 0, 0, 0],
        [6640, 41601, 15360, 8898, 39671, 0, 0, 0],
        [7796, 42592, 15357, 9955, 40695, 0, 0, 0],
        [8321, 43167, 15351, 10576, 41286, 4121, 0, 0],
        [8702, 43537, 15346, 11058, 41797, 4121, 0, 0],
        [9029, 43871, 15339, 11408, 42146, 4121, 0, 0],
        [9280, 44112, 15328, 11672, 42402, 5145, 0, 0],
        [9411, 44256, 15316, 11944, 42690, 5669, 0, 0],
        [9535, 44401, 15304, 12216, 42979, 6169, 0, 0],
        [9667, 44528, 15288, 12396, 43137, 6378, 0, 0],
        [9758, 44656, 15273, 12540, 43282, 6640, 0, 0],
        [9857, 44768, 15255, 12688, 43423, 6903, 0, 0],
        [9922, 44872, 15235, 12844, 43583, 7297, 0, 0],
        [10014, 44959, 15213, 13000, 43744, 7429, 0, 0],
        [10079, 45048, 15190, 13156, 43888, 7691, 0, 0],
        [10112, 45092, 15167, 13316, 44040, 7796, 0, 0],
        [10178, 45124, 15140, 13398, 44120, 8058, 0, 0],
        [10211, 45152, 15112, 13482, 44201, 8256, 0, 0],
        [10211, 45180, 15085, 13566, 44279, 8387, 0, 0],
        [10242, 45200, 15054, 13652, 44360, 8518, 0, 0],
        [10242, 45216, 15023, 13738, 44440, 8636, 0, 0],
        [10242, 45228, 14990, 13826, 44520, 8767, 0, 0],
        [10242, 45236, 14955, 13912, 44592, 8964, 0, 0],
        [10211, 45244, 14921, 14002, 44673, 9082, 0, 0],
        [10178, 45244, 14885, 14090, 44745, 9213, 0, 0],
        [10145, 45244, 14849, 14178, 44817, 9280, 0, 0],
        [10112, 45236, 14810, 14266, 44887, 9378, 0, 0],
        [10079, 45228, 14770, 14346, 44953, 9437, 0, 0],
        [10014, 45216, 14731, 14390, 45017, 9503, 0, 0],
        [9981, 45204, 14689, 14434, 45064, 9601, 0, 0],
        [9922, 45188, 14649, 14478, 45096, 9667, 0, 0],
        [9857, 45168, 14607, 14521, 45120, 9726, 0, 0],
        [9791, 45144, 14564, 14564, 45144, 9791, 0, 0],
        [9726, 45120, 14521, 14607, 45168, 9857, 0, 0],
        [9667, 45096, 14478, 14649, 45188, 9922, 0, 0],
        [9601, 45064, 14434, 14689, 45204, 9981, 0, 0],
        [9503, 45017, 14390, 14731, 45216, 10014, 0, 0],
        [9437, 44953, 14346, 14770, 45228, 10079, 0, 0],
        [9378, 44887, 14266, 14810, 45236, 10112, 0, 0],
        [9280, 44817, 14178, 14849, 45244, 10145, 0, 0],
        [9213, 44745, 14090, 14885, 45244, 10178, 0, 0],
        [9082, 44673, 14002, 14921, 45244, 10211, 0, 0],
        [8964, 44592, 13912, 14955, 45236, 10242, 0, 0],
        [8767, 44520, 13826, 14990, 45228, 10242, 0, 0],
        [8636, 44440, 13738, 15023, 45216, 10242, 0, 0],
        [8518, 44360, 13652, 15054, 45200, 10242, 0, 0],
        [8387, 44279, 13566, 15085, 45180, 10211, 0, 0],
        [8256, 44201, 13482, 15112, 45152, 10211, 0, 0],
        [8058, 44120, 13398, 15140, 45124, 10178, 0, 0],
        [7796, 44040, 13316, 15167, 45092, 10112, 0, 0],
        [7691, 43888, 13156, 15190, 45048, 10079, 0, 0],
        [7429, 43744, 13000, 15213, 44959, 10014, 0, 0],
        [7297, 43583, 12844, 15235, 44872, 9922, 0, 0],
        [6903, 43423, 12688, 15255, 44768, 9857, 0, 0],
        [6640, 43282, 12540, 15273, 44656, 9758, 0, 0],
        [6378, 43137, 12396, 15288, 44528, 9667, 0, 0],
        [6169, 42979, 12216, 15304, 44401, 9535, 0, 0],
        [5669, 42690, 11944, 15316, 44256, 9411, 0, 0],
        [5145, 42402, 11672, 15328, 44112, 9280, 0, 0],
        [4121, 42146, 11408, 15339, 43871, 9029, 0, 0],
        [4121, 41797, 11058, 15346, 43537, 8702, 0, 0],
        [4121, 41286, 10576, 15351, 43167, 8321, 0, 0],
        [0, 40695, 9955, 15357, 42592, 7796, 0, 0],
        [0, 39671, 8898, 15360, 41601, 6640, 0, 0],
    ]
}

/// The band-pass/unsharp-mask kernel, quantized to binary16 bit patterns.
pub open spec fn coef_usm_fp16_spec() -> [[u16; 8]; 64] {
    [
        [0u16, 47309, 15565, 47309, 0, 0, 0, 0],
        [6640, 47326, 15563, 47289, 39408, 0, 0, 0],
        [7429, 47339, 15560, 47266, 40695, 4121, 0, 0],
        [8058, 47349, 15554, 47239, 41286, 0, 0, 0],
        [8387, 47357, 15545, 47209, 41915, 0, 0, 0],
        [8636, 47363, 15534, 47176, 42238, 4121, 0, 0],
        [8767, 47364, 15522, 47141, 42657, 4121, 0, 0],
        [9029, 47367, 15509, 47105, 43023, 4121, 0, 0],
        [9213, 47363, 15490, 47018, 43249, 4121, 0, 0],
        [9280, 47357, 15472, 46928, 43472, 5145, 0, 0],
        [9345, 47347, 15450, 46836, 43727, 5145, 0, 0],
        [9378, 47337, 15427, 46736, 43999, 5669, 0, 0],
        [9437, 47323, 15401, 46630, 44152, 5669, 0, 0],
        [9470, 47310, 15376, 46520, 44312, 6169, 0, 0],
        [9503, 47294, 15338, 46402, 44479, 6378, 0, 0],
        [9503, 47272, 15274, 46280, 44648, 6640, 0, 0],
        [9503, 47253, 15215, 46158, 44817, 6903, 0, 0],
        [9503, 47231, 15150, 45972, 45017, 7165, 0, 0],
        [9535, 47206, 15082, 45708, 45132, 7297, 0, 0],
        [9503, 47180, 15012, 45432, 45232, 7429, 0, 0],
        [9470, 47153, 14939, 45152, 45332, 7560, 0, 0],
        [9470, 47126, 14868, 44681, 45444, 7691, 0, 0],
        [9437, 47090, 14793, 44071, 45560, 7796, 0, 0],
        [9411, 47030, 14714, 42847, 45668, 7927, 0, 0],
        [9411, 46968, 14635, 8387, 45788, 8058, 0, 0],
        [9345, 46902, 14552, 10786, 45908, 8256, 0, 0],
        [9313, 46846, 14478, 11647, 46036, 8321, 0, 0],
        [9247, 46776, 14394, 12292, 46120, 8453, 0, 0],
        [9247, 46714, 14288, 12620, 46184, 8518, 0, 0],
        [9147, 46648, 14130, 12936, 46248, 8570, 0, 0],
        [9029, 46576, 13956, 13268, 46312, 8702, 0, 0],
        [8964, 46512, 13792, 13456, 46378, 8767, 0, 0],
        [8898, 46446, 13624, 13624, 46446, 8898, 0, 0],
        [8767, 46378, 13456, 13792, 46512, 8964, 0, 0],
        [8702, 46312, 13268, 13956, 46576, 9029, 0, 0],
        [8570, 46248, 12936, 14130, 46648, 9147, 0, 0],
        [8518, 46184, 12620, 14288, 46714, 9247, 0, 0],
        [8453, 46120, 12292, 14394, 46776, 9247, 0, 0],
        [8321, 46036, 11647, 14478, 46846, 9313, 0, 0],
        [8256, 45908, 10786, 14552, 46902, 9345, 0, 0],
        [8058, 45788, 8387, 14635, 46968, 9411, 0, 0],
        [7927, 45668, 42847, 14714, 47030, 9411, 0, 0],
        [7796, 45560, 44071, 14793, 47090, 9437, 0, 0],
        [7691, 45444, 44681, 14868, 47126, 9470, 0, 0],
        [7560, 45332, 45152, 14939, 47153, 9470, 0, 0],
        [7429, 45232, 45432, 15012, 47180, 9503, 0, 0],
        [7297, 45132, 45708, 15082, 47206, 9535, 0, 0],
        [7165, 45017, 45972, 15150, 47231, 9503, 0, 0],
        [6903, 44817, 46158, 15215, 47253, 9503, 0, 0],
        [6640, 44648, 46280, 15274, 47272, 9503, 0, 0],
        [6378, 44479, 46402, 15338, 47294, 9503, 0, 0],
        [6169, 44312, 46520, 15376, 47310, 9470, 0, 0],
        [5669, 44152, 46630, 15401, 47323, 9437, 0, 0],
        [5669, 43999, 46736, 15427, 47337, 9378, 0, 0],
        [5145, 43727, 46836, 15450, 47347, 9345, 0, 0],
        [5145, 43472, 46928, 15472, 47357, 9280, 0, 0],
        [4121, 43249, 47018, 15490, 47363, 9213, 0, 0],
        [4121, 43023, 47105, 15509, 47367, 9029, 0, 0],
        [4121, 42657, 47141, 15522, 47364, 8767, 0, 0],
        [4121, 42238, 47176, 15534, 47363, 8636, 0, 0],
        [0, 41915, 47209, 15545, 47357, 8387, 0, 0],
        [0, 41286, 47239, 15554, 47349, 8058, 0, 0],
        [4121, 40695, 47266, 15560, 47339, 7429, 0, 0],
        [0, 39408, 47289, 15563, 47326, 6640, 0, 0],
    ]
}

/// Returns the band-pass/unsharp-mask kernel, quantized to binary16 bit patterns.
pub fn coef_usm_fp16() -> (r: [[u16; 8]; 64])
    ensures
        r == coef_usm_fp16_spec(),
{
    [
        [0u16, 47309, 15565, 47309, 0, 0, 0, 0],
        [6640, 47326, 15563, 47289, 39408, 0, 0, 0],
        [7429, 47339, 15560, 47266, 40695, 4121, 0, 0],
        [8058, 47349, 15554, 47239, 41286, 0, 0, 0],
        [8387, 47357, 15545, 47209, 41915, 0, 0, 0],
        [8636, 47363, 15534, 47176, 42238, 4121, 0, 0],
        [8767, 47364, 15522, 47141, 42657, 4121, 0, 0],
        [9029, 47367, 15509, 47105, 43023, 4121, 0, 0],
        [9213, 47363, 15490, 47018, 43249, 4121, 0, 0],
        [9280, 47357, 15472, 46928, 43472, 5145, 0, 0],
        [9345, 47347, 15450, 46836, 43727, 5145, 0, 0],
        [9378, 47337, 15427, 46736, 43999, 5669, 0, 0],
        [9437, 47323, 15401, 46630, 44152, 5669, 0, 0],
        [9470, 47310, 15376, 46520, 44312, 6169, 0, 0],
        [9503, 47294, 15338, 46402, 44479, 6378, 0, 0],
        [9503, 47272, 15274, 46280, 44648, 6640, 0, 0],
        [9503, 47253, 15215, 46158, 44817, 6903, 0, 0],
        [9503, 47231, 15150, 45972, 45017, 7165, 0, 0],
        [9535, 47206, 15082, 45708, 45132, 7297, 0, 0],
        [9503, 47180, 15012, 45432, 45232, 7429, 0, 0],
        [9470, 47153, 14939, 45152, 45332, 7560, 0, 0],
        [9470, 47126, 14868, 44681, 45444, 7691, 0, 0],
        [9437, 47090, 14793, 44071, 45560, 7796, 0, 0],
        [9411, 47030, 14714, 42847, 45668, 7927, 0, 0],
        [9411, 46968, 14635, 8387, 45788, 8058, 0, 0],
        [9345, 46902, 14552, 10786, 45908, 8256, 0, 0],
        [9313, 46846, 14478, 11647, 46036, 8321, 0, 0],
        [9247, 46776, 14394, 12292, 46120, 8453, 0, 0],
        [9247, 46714, 14288, 12620, 46184, 8518, 0, 0],
        [9147, 46648, 14130, 12936, 46248, 8570, 0, 0],
        [9029, 46576, 13956, 13268, 46312, 8702, 0, 0],
        [8964, 46512, 13792, 13456, 46378, 8767, 0, 0],
        [8898, 46446, 13624, 13624, 46446, 8898, 0, 0],
        [8767, 46378, 13456, 13792, 46512, 8964, 0, 0],
        [8702, 46312, 13268, 13956, 46576, 9029, 0, 0],
        [8570, 46248, 12936, 14130, 46648, 9147, 0, 0],
        [8518, 46184, 12620, 14288, 46714, 9247, 0, 0],
        [8453, 46120, 12292, 14394, 46776, 9247, 0, 0],
        [8321, 46036, 11647, 14478, 46846, 9313, 0, 0],
        [8256, 45908, 10786, 14552, 46902, 9345, 0, 0],
        [8058, 45788, 8387, 14635, 46968, 9411, 0, 0],
        [7927, 45668, 42847, 14714, 47030, 9411, 0, 0],
        [7796, 45560, 44071, 14793, 47090, 9437, 0, 0],
        [7691, 45444, 44681, 14868, 47126, 9470, 0, 0],
        [7560, 45332, 45152, 14939, 47153, 9470, 0, 0],
        [7429, 45232, 45432, 15012, 47180, 9503, 0, 0],
        [7297, 45132, 45708, 15082, 47206, 9535, 0, 0],
        [7165, 45017, 45972, 15150, 47231, 9503, 0, 0],
        [6903, 44817, 46158, 15215, 47253, 9503, 0, 0],
        [6640, 44648, 46280, 15274, 47272, 9503, 0, 0],
        [6378, 44479, 46402, 15338, 47294, 9503, 0, 0],
        [6169, 44312, 46520, 15376, 47310, 9470, 0, 0],
        [5669, 44152, 46630, 15401, 47323, 9437, 0, 0],
        [5669, 43999, 46736, 15427, 47337, 9378, 0, 0],
        [5145, 43727, 46836, 15450, 47347, 9345, 0, 0],
        [5145, 43472, 46928, 15472, 47357, 9280, 0, 0],
        [4121, 43249, 47018, 15490, 47363, 9213, 0, 0],
        [4121, 43023, 47105, 15509, 47367, 9029, 0, 0],
        [4121, 42657, 47141, 15522, 47364, 8767, 0, 0],
        [4121, 42238, 47176, 15534, 47363, 8636, 0, 0],
        [0, 41915, 47209, 15545, 47357, 8387, 0, 0],
        [0, 41286, 47239, 15554, 47349, 8058, 0, 0],
        [4121, 40695, 47266, 15560, 47339, 7429, 0, 0],
        [0, 39408, 47289, 15563, 47326, 6640, 0, 0],
    ]
}

} // verus!
