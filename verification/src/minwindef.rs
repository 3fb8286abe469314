//! 16-bit word packing in the manner of the Win32 `MAKELONG` macro.
use vstd::prelude::*;

verus! {

/// The low word of a 32-bit value.
pub open spec fn low_word(v: u32) -> u32 {
    v % 0x10000
}

/// The high word of a 32-bit value.
pub open spec fn high_word(v: u32) -> u32 {
    v / 0x10000
}

/// The value whose low word is the low word of `lo` and whose high word is
/// the low word of `hi`.
pub open spec fn long_of(lo: u32, hi: u32) -> u32 {
    ((lo % 0x10000) + (hi % 0x10000) * 0x10000) as u32
}

/// Packs two words into one 32-bit value, as `MAKELONG(lo, hi)` does:
/// the low 16 bits of `lo` form the low word and the low 16 bits of `hi`
/// the high word; all other bits of the arguments are dropped.
pub fn make_long(lo: u32, hi: u32) -> (r: u32)
    ensures
        r == long_of(lo, hi),
        r as int == (lo % 0x10000) + (hi % 0x10000) * 0x10000,
{
    let r = (lo & 0xFFFF) | ((hi & 0xFFFF) << 16);
    assert((lo & 0xFFFF) | ((hi & 0xFFFF) << 16) == (lo % 0x10000) + (hi % 0x10000) * 0x10000)
        by (bit_vector);
    r
}

/// The low word of a packed value is the low word of its first argument.
pub proof fn lemma_low_word_of_long(lo: u32, hi: u32)
    ensures
        low_word(long_of(lo, hi)) == low_word(lo),
{
}

/// The high word of a packed value is the low word of its second argument.
pub proof fn lemma_high_word_of_long(lo: u32, hi: u32)
    ensures
        high_word(long_of(lo, hi)) == low_word(hi),
{
}

/// Packing the two words of a value gives the value back.
pub proof fn lemma_long_of_words(v: u32)
    ensures
        long_of(low_word(v), high_word(v)) == v,
{
}

} // verus!
