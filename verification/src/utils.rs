//! Small numeric helpers shared by the decoder.

use vstd::prelude::*;

verus! {

/// The `n`th hex digit of `hex`, counting from the least significant digit.
///
/// Instruction decoding reads register indices and nibbles out of a 16-bit
/// word with this function, so the result is always below 16.
pub fn get_nth_hex_digit(hex: u32, n: u32) -> (digit: u8)
    requires
        n < 8,
    ensures
        digit == (hex >> (n * 4)) & 0xF,
        digit < 16,
{
    let d: u32 = (hex >> (n * 4)) & 0xF;
    proof {
        assert((hex >> (n * 4)) & 0xF < 16 && ((hex >> (n * 4)) & 0xF) as u8 == (hex >> (n * 4))
            & 0xF) by (bit_vector);
    }
    d as u8
}

} // verus!
