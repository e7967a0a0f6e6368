use vstd::prelude::*;

verus! {

/// The ranges of the masked fields of a byte that the registers use.
pub proof fn lemma_byte_fields(value: u8)
    by (bit_vector)
    ensures
        value & 0x01 <= 1,
        value & 0x07 <= 7,
        value & 0x0f <= 0x0f,
        value & 0x3f < 64,
        value & 0x7f <= 0x7f,
        value >> 4u8 <= 15,
        value >> 4u8 == value / 16,
        value & 0x07 == value % 8,
{
}

/// Small masks of a byte and of a word stay within their width, and xor with 0 keeps a byte.
pub proof fn lemma_small_masks(byte: u8, word: u32)
    by (bit_vector)
    ensures
        byte & 0x07 <= 7,
        byte & 0x0f < 16,
        byte ^ 0u8 == byte,
        word & 0x03 <= 3,
        (byte as u32) & word <= byte as u32,
        word & 0x03 == word % 4,
        (word & 0x0c) >> 2u32 == (word / 4) % 4,
        (word & 0x30) >> 4u32 == (word / 16) % 4,
        (word & 0x01 != 0) == (word % 2 == 1),
        byte < 128 ==> byte ^ 0x80u8 == byte + 128,
        byte >= 128 ==> byte ^ 0x80u8 == byte - 128,
{
}

} // verus!
