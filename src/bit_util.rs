//! Reading single bits out of a bit-packed byte buffer.
use vstd::prelude::*;

verus! {

/// The bit at position `i` of a bit-packed buffer: bit `i & 7` of byte
/// `i >> 3`, counted from the least significant bit.
pub open spec fn bit_at(bytes: Seq<u8>, i: int) -> bool {
    ((bytes[i / 8] >> ((i % 8) as u8)) & 1u8) != 0u8
}

/// Number of bytes a bit-packed buffer needs for `n` elements: `ceil(n / 8)`.
pub open spec fn bytes_for_bits(n: nat) -> nat {
    (n + 7) / 8
}

/// Reads bit `i` of `data`, LSB-first within each byte.
pub fn get_bit_raw(data: &[u8], i: usize) -> (r: bool)
    requires
        i / 8 < data@.len(),
    ensures
        r == (((data@[(i >> 3usize) as int] >> (i & 7usize) as u8) & 1u8) != 0u8),
        r == bit_at(data@, i as int),
{
    proof {
        assert(i >> 3usize == i / 8) by (bit_vector);
        assert(i & 7usize == i % 8) by (bit_vector);
        assert(i & 7usize < 8) by (bit_vector);
    }
    let byte: u8 = data[i >> 3];
    let shift: u8 = (i & 7) as u8;
    let mask: u8 = 1u8 << shift;
    proof {
        assert((byte & mask) != 0u8 <==> ((byte >> shift) & 1u8) != 0u8) by (bit_vector)
            requires
                shift < 8,
                mask == 1u8 << shift,
        ;
    }
    (byte & mask) != 0
}

} // verus!
