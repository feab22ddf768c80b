//! Runtime configuration and constant lookup data for a GPU spatial
//! super-resolution and sharpening filter.
//!
//! The crate derives the shader-uniform constants (the sharpening response
//! curve, geometric normalization factors and viewport geometry) from the
//! caller's intent, and packs the two polyphase filter-coefficient tables
//! into the byte layout the filter's shader stage reads.

mod coef;
mod config;
mod fp16;
mod pack;
mod rational;

pub use coef::K_FILTER_SIZE;
pub use coef::K_IMAGE_SIZE;
pub use coef::K_PHASE_COUNT;
pub use coef::K_ROW_PITCH;
pub use coef::coef_scale_bits;
pub use coef::coef_scale_bits_spec;
pub use coef::coef_scale_fp16;
pub use coef::coef_scale_fp16_spec;
pub use coef::coef_usm_bits;
pub use coef::coef_usm_bits_spec;
pub use coef::coef_usm_fp16;
pub use coef::coef_usm_fp16_spec;
pub use config::NISConfig;
pub use config::NISHDRMode;
pub use config::NisScaleConfig;
pub use config::NisSharpenConfig;
pub use config::SHARPNESS_ONE;
pub use config::nv_scaler_update_config;
pub use config::nv_sharpen_update_config;
pub use fp16::check_coef_scale_agreement;
pub use fp16::check_coef_usm_agreement;
pub use fp16::fp16_agrees;
pub use fp16::tables_agree;
pub use fp16::tables_within_one_ulp;
pub use fp16::within_one_ulp;
pub use pack::CoefTexture;
pub use pack::create_coef_scale_tex;
pub use pack::create_coef_tex;
pub use pack::create_coef_usm_tex;
pub use pack::pack_coef_matrix;
pub use rational::Rat;
