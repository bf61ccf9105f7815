use vstd::prelude::*;

verus! {

/// Whether bit `bit` (0 = least significant) of `input` is set.
pub open spec fn bit_of(input: u8, bit: int) -> bool {
    0 <= bit < 8 && (input >> (bit as u8)) & 1u8 == 1u8
}

/// Returns whether bit `bit` of `input` is set; bits past 7 read as unset.
pub fn get_bit(input: u8, bit: u8) -> (r: bool)
    ensures
        r == bit_of(input, bit as int),
{
    if bit < 8 {
        assert((input & (1u8 << bit) != 0u8) == ((input >> bit) & 1u8 == 1u8)) by (bit_vector)
            requires
                bit < 8,
        ;
        input & (1u8 << bit) != 0
    } else {
        false
    }
}

} // verus!
