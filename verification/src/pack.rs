//! Packing a coefficient table into the filter's GPU texture layout.
//!
//! Each texture pixel holds four 32-bit channels, so a row of eight taps
//! spans two pixels: the texture is 2 wide and 64 high. The byte buffer is
//! the table's row-major 32-bit words laid out little-endian, with no value
//! transformation and no reordering: row pitch [`crate::coef::K_ROW_PITCH`]
//! bytes, total size [`crate::coef::K_IMAGE_SIZE`] bytes.

use vstd::prelude::*;

use crate::coef::K_FILTER_SIZE;
use crate::coef::K_IMAGE_SIZE;
use crate::coef::K_PHASE_COUNT;
use crate::coef::coef_scale_bits;
use crate::coef::coef_scale_bits_spec;
use crate::coef::coef_usm_bits;
use crate::coef::coef_usm_bits_spec;

verus! {

/// Byte `k` (little-endian, `0 <= k < 4`) of the 32-bit word `w`.
pub open spec fn word_byte(w: u32, k: int) -> u8 {
    if k == 0 {
        (w % 256) as u8
    } else if k == 1 {
        ((w / 256) % 256) as u8
    } else if k == 2 {
        ((w / 65536) % 256) as u8
    } else {
        ((w / 16777216) % 256) as u8
    }
}

/// Byte `n` of the packed buffer: byte `n % 4` of word `(n % 32) / 4` of
/// row `n / 32`.
pub open spec fn packed_byte(m: Seq<[u32; 8]>, n: int) -> u8 {
    word_byte(m[n / 32]@[(n % 32) / 4], n % 4)
}

/// The buffer is the table's row-major little-endian byte image.
pub open spec fn is_packed_image(m: Seq<[u32; 8]>, out: Seq<u8>) -> bool {
    &&& out.len() == K_IMAGE_SIZE
    &&& forall|n: int| 0 <= n < out.len() ==> out[n] == packed_byte(m, n)
}

/// The flat byte position of byte `k` of word `j` of row `i` decomposes
/// back into `i`, `j` and `k`.
proof fn lemma_flat_index(i: int, j: int, k: int)
    requires
        0 <= i < 64,
        0 <= j < 8,
        0 <= k < 4,
    ensures
        (32 * i + 4 * j + k) / 32 == i,
        ((32 * i + 4 * j + k) % 32) / 4 == j,
        (32 * i + 4 * j + k) % 4 == k,
{
    let n = 32 * i + 4 * j + k;
    vstd::arithmetic::div_mod::lemma_fundamental_div_mod_converse_div(n, 32, i, 4 * j + k);
    vstd::arithmetic::div_mod::lemma_fundamental_div_mod_converse_mod(n, 32, i, 4 * j + k);
    vstd::arithmetic::div_mod::lemma_fundamental_div_mod_converse_div(4 * j + k, 4, j, k);
    vstd::arithmetic::div_mod::lemma_fundamental_div_mod_converse_mod(n, 4, 8 * i + j, k);
}

/// Law: packing is deterministic and referentially pure — the byte image
/// of a table is unique, so identical tables always yield identical bytes
/// and the resulting texture may be created once and shared.
pub proof fn lemma_pack_deterministic(m: Seq<[u32; 8]>, a: Seq<u8>, b: Seq<u8>)
    requires
        is_packed_image(m, a),
        is_packed_image(m, b),
    ensures
        a == b,
{
    assert(a =~= b);
}

/// Packs a coefficient table into the byte image its texture upload reads.
///
/// Deterministic and pure: the buffer is exactly the row-major
/// little-endian bytes of the given words, 2048 bytes in all.
pub fn pack_coef_matrix(m: &[[u32; 8]; 64]) -> (r: Vec<u8>)
    ensures
        is_packed_image(m@, r@),
{
    let mut out: Vec<u8> = Vec::with_capacity(K_IMAGE_SIZE);
    let mut i: usize = 0;
    while i < 64
        invariant
            i <= 64,
            out@.len() == 32 * i,
            forall|n: int| 0 <= n < out@.len() ==> out@[n] == packed_byte(m@, n),
        decreases 64 - i,
    {
        let mut j: usize = 0;
        while j < 8
            invariant
                i < 64,
                j <= 8,
                out@.len() == 32 * i + 4 * j,
                forall|n: int| 0 <= n < out@.len() ==> out@[n] == packed_byte(m@, n),
            decreases 8 - j,
        {
            let w: u32 = m[i][j];
            proof {
                lemma_flat_index(i as int, j as int, 0);
                lemma_flat_index(i as int, j as int, 1);
                lemma_flat_index(i as int, j as int, 2);
                lemma_flat_index(i as int, j as int, 3);
            }
            out.push((w % 256) as u8);
            out.push(((w / 256) % 256) as u8);
            out.push(((w / 65536) % 256) as u8);
            out.push(((w / 16777216) % 256) as u8);
            j = j + 1;
        }
        i = i + 1;
    }
    out
}

/// A coefficient table materialized in GPU-texture form: the pixel extent
/// and the byte image a host uploads as a 2-wide, 64-high, four-channel
/// 32-bit-float texture.
#[derive(Debug, PartialEq, Eq)]
pub struct CoefTexture {
    pub width: u32,
    pub height: u32,
    pub data: Vec<u8>,
}

impl CoefTexture {
    /// The extent matches the table shape (taps per row over four channels,
    /// one row per phase) and the byte image is complete.
    pub open spec fn wf(self) -> bool {
        &&& self.width == K_FILTER_SIZE / 4
        &&& self.height == K_PHASE_COUNT
        &&& self.data@.len() == K_IMAGE_SIZE
    }
}

/// Materializes one coefficient table as a texture payload.
pub fn create_coef_tex(m: &[[u32; 8]; 64]) -> (r: CoefTexture)
    ensures
        r.wf(),
        is_packed_image(m@, r.data@),
{
    CoefTexture { width: 2, height: 64, data: pack_coef_matrix(m) }
}

/// Materializes the smoothing/resize kernel texture payload: exactly the
/// byte image of [`coef_scale_bits_spec`].
pub fn create_coef_scale_tex() -> (r: CoefTexture)
    ensures
        r.wf(),
        is_packed_image(coef_scale_bits_spec()@, r.data@),
{
    create_coef_tex(&coef_scale_bits())
}

/// Materializes the band-pass/unsharp-mask kernel texture payload: exactly
/// the byte image of [`coef_usm_bits_spec`].
pub fn create_coef_usm_tex() -> (r: CoefTexture)
    ensures
        r.wf(),
        is_packed_image(coef_usm_bits_spec()@, r.data@),
{
    create_coef_tex(&coef_usm_bits())
}

} // verus!
