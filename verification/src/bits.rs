use vstd::prelude::*;

verus! {

/// Bit `n` of a byte.
pub open spec fn bit_u8(v: u8, n: u8) -> bool {
    (v >> n) & 1u8 == 1u8
}

/// Bit `n` of a 16-bit word.
pub open spec fn bit_u16(v: u16, n: u16) -> bool {
    (v >> n) & 1u16 == 1u16
}

/// Bit `n` of a 32-bit word.
pub open spec fn bit_u32(v: u32, n: u32) -> bool {
    (v >> n) & 1u32 == 1u32
}

/// `v` with bit `n` set to `value` and every other bit kept.
pub open spec fn with_bit_u32(v: u32, n: u32, value: bool) -> u32 {
    if value {
        v | (1u32 << n)
    } else {
        v & !(1u32 << n)
    }
}

/// Writing bit `n` of a word: reading the bit back gives what was written,
/// every other bit keeps its value, a second write replaces the first, and
/// writing back the value a bit already holds leaves the word unchanged.
pub proof fn lemma_with_bit_u32(v: u32, n: u32, m: u32, a: bool, b: bool)
    requires
        n < 32,
        m < 32,
    ensures
        bit_u32(with_bit_u32(v, n, a), n) == a,
        m != n ==> bit_u32(with_bit_u32(v, n, a), m) == bit_u32(v, m),
        with_bit_u32(with_bit_u32(v, n, a), n, b) == with_bit_u32(v, n, b),
        with_bit_u32(v, n, bit_u32(v, n)) == v,
{
    assert(((v | (1u32 << n)) >> n) & 1u32 == 1u32) by (bit_vector)
        requires
            n < 32,
    ;
    assert(((v & !(1u32 << n)) >> n) & 1u32 != 1u32) by (bit_vector)
        requires
            n < 32,
    ;
    assert(m != n ==> ((v | (1u32 << n)) >> m) & 1u32 == (v >> m) & 1u32) by (bit_vector)
        requires
            n < 32,
            m < 32,
    ;
    assert(m != n ==> ((v & !(1u32 << n)) >> m) & 1u32 == (v >> m) & 1u32) by (bit_vector)
        requires
            n < 32,
            m < 32,
    ;
    assert((v | (1u32 << n)) | (1u32 << n) == v | (1u32 << n)) by (bit_vector);
    assert((v & !(1u32 << n)) | (1u32 << n) == v | (1u32 << n)) by (bit_vector);
    assert((v | (1u32 << n)) & !(1u32 << n) == v & !(1u32 << n)) by (bit_vector);
    assert((v & !(1u32 << n)) & !(1u32 << n) == v & !(1u32 << n)) by (bit_vector);
    assert((v >> n) & 1u32 == 1u32 ==> v | (1u32 << n) == v) by (bit_vector)
        requires
            n < 32,
    ;
    assert((v >> n) & 1u32 != 1u32 ==> v & !(1u32 << n) == v) by (bit_vector)
        requires
            n < 32,
    ;
}

} // verus!
