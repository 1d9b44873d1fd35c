//! The inline parameter block that rides along with the compute dispatch.
//!
//! The shader reads a 16-byte block: a 32-bit intensity value at offset 0, a
//! 32-bit padding word at offset 4, and a two-component 32-bit resolution
//! vector at offsets 8 and 12, all little-endian. The host holds the three
//! payload words as raw bit patterns and assembles the block byte by byte,
//! so the layout agreement with the shader is stated and proved rather than
//! left to a compiler's struct layout.

use vstd::prelude::*;

verus! {

/// The byte size of the inline parameter block as the pipeline declares it.
pub const PUSH_BLOCK_BYTES: usize = 16;

/// The payload of the inline parameter block. Each field is the raw bit
/// pattern of a 32-bit floating-point value; the block itself never
/// interprets them.
#[derive(Clone, Copy, Debug, PartialEq, Eq, Structural)]
pub struct PushParams {
    /// Bit pattern of the intensity value the shader folds into each pixel.
    pub intensity_bits: u32,
    /// Bit pattern of the image width the shader was asked to cover.
    pub resolution_x_bits: u32,
    /// Bit pattern of the image height the shader was asked to cover.
    pub resolution_y_bits: u32,
}

/// The four little-endian bytes of a 32-bit word.
pub open spec fn u32_le_bytes(x: u32) -> Seq<u8> {
    seq![
        (x % 0x100) as u8,
        ((x / 0x100) % 0x100) as u8,
        ((x / 0x10000) % 0x100) as u8,
        ((x / 0x1000000) % 0x100) as u8,
    ]
}

/// The full 16-byte block: intensity, one zeroed padding word, then the
/// resolution vector, each word little-endian.
pub open spec fn push_block_bytes(p: PushParams) -> Seq<u8> {
    u32_le_bytes(p.intensity_bits) + u32_le_bytes(0u32) + u32_le_bytes(p.resolution_x_bits)
        + u32_le_bytes(p.resolution_y_bits)
}

/// A 32-bit word is recovered exactly from its four little-endian bytes.
proof fn lemma_u32_le_bytes_recompose(x: u32)
    ensures
        x == u32_le_bytes(x)[0] + 0x100 * u32_le_bytes(x)[1] + 0x10000 * u32_le_bytes(x)[2]
            + 0x1000000 * u32_le_bytes(x)[3],
{
    assert(x == (x % 0x100) + 0x100 * ((x / 0x100) % 0x100) + 0x10000 * ((x / 0x10000) % 0x100)
        + 0x1000000 * ((x / 0x1000000) % 0x100)) by (bit_vector);
}

/// Distinct 32-bit words have distinct little-endian encodings.
proof fn lemma_u32_le_bytes_injective(x: u32, y: u32)
    requires
        x != y,
    ensures
        u32_le_bytes(x) != u32_le_bytes(y),
{
    if u32_le_bytes(x) == u32_le_bytes(y) {
        lemma_u32_le_bytes_recompose(x);
        lemma_u32_le_bytes_recompose(y);
        assert(false);
    }
}

/// The parameter value is wired into the dispatched block: two blocks that
/// differ in their intensity word differ as byte sequences, so the shader
/// is handed distinct inputs.
pub proof fn lemma_block_reflects_intensity(a: PushParams, b: PushParams)
    requires
        a.intensity_bits != b.intensity_bits,
    ensures
        push_block_bytes(a) != push_block_bytes(b),
{
    lemma_u32_le_bytes_injective(a.intensity_bits, b.intensity_bits);
    let sa = u32_le_bytes(a.intensity_bits);
    let sb = u32_le_bytes(b.intensity_bits);
    assert(exists|i: int| 0 <= i < 4 && sa[i] != sb[i]) by {
        if sa[0] == sb[0] && sa[1] == sb[1] && sa[2] == sb[2] && sa[3] == sb[3] {
            assert(sa =~= sb);
        }
    }
    let i = choose|i: int| 0 <= i < 4 && sa[i] != sb[i];
    assert(push_block_bytes(a)[i] == sa[i]);
    assert(push_block_bytes(b)[i] == sb[i]);
}

impl PushParams {
    /// Assembles the 16-byte block exactly as the shader's layout expects it.
    pub fn to_bytes(&self) -> (r: Vec<u8>)
        ensures
            r@ == push_block_bytes(*self),
            r@.len() == PUSH_BLOCK_BYTES,
    {
        let mut out: Vec<u8> = Vec::new();
        push_word_le(&mut out, self.intensity_bits);
        push_word_le(&mut out, 0);
        push_word_le(&mut out, self.resolution_x_bits);
        push_word_le(&mut out, self.resolution_y_bits);
        proof {
            assert(out@ =~= push_block_bytes(*self));
        }
        out
    }
}

/// Appends the four little-endian bytes of one 32-bit word.
fn push_word_le(out: &mut Vec<u8>, x: u32)
    ensures
        final(out)@ == old(out)@ + u32_le_bytes(x),
{
    let b0: u8 = (x % 0x100) as u8;
    let b1: u8 = ((x / 0x100) % 0x100) as u8;
    let b2: u8 = ((x / 0x10000) % 0x100) as u8;
    let b3: u8 = ((x / 0x1000000) % 0x100) as u8;
    out.push(b0);
    out.push(b1);
    out.push(b2);
    out.push(b3);
    proof {
        assert(out@ =~= old(out)@ + u32_le_bytes(x));
    }
}

} // verus!
