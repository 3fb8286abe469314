//! `WPARAM`/`LPARAM` packing in the manner of the Win32 `MAKEWPARAM` and
//! `MAKELPARAM` macros, and the coordinate read-back of `GET_X_LPARAM` and
//! `GET_Y_LPARAM`.
use vstd::prelude::*;
use crate::minwindef::{long_of, make_long, low_word, high_word};

verus! {

/// The `WPARAM` value (a `usize`) that packs `lo` and `hi`.
pub open spec fn wparam_of(lo: u32, hi: u32) -> usize {
    long_of(lo, hi) as usize
}

/// The `LPARAM` value (an `isize`) that packs the low words of the two
/// coordinates, each taken in two's complement.
pub open spec fn lparam_of(x: i32, y: i32) -> isize {
    long_of(x as u32, y as u32) as isize
}

/// The x coordinate that `GET_X_LPARAM` reads from an `LPARAM`: the low word,
/// taken as a signed 16-bit value.
pub open spec fn x_of_lparam(l: isize) -> i16 {
    low_word(l as u32) as i16
}

/// The y coordinate that `GET_Y_LPARAM` reads from an `LPARAM`: the high
/// word, taken as a signed 16-bit value.
pub open spec fn y_of_lparam(l: isize) -> i16 {
    high_word(l as u32) as i16
}

/// Packs two words into a `WPARAM`, as `MAKEWPARAM(lo, hi)` does.
pub fn make_wparam(lo: u32, hi: u32) -> (r: usize)
    ensures
        r == wparam_of(lo, hi),
        r as int == long_of(lo, hi) as int,
{
    make_long(lo, hi) as usize
}

/// Packs a client-area point into an `LPARAM`, as `MAKELPARAM(x, y)` does:
/// the low 16 bits of `x` form the low word, the low 16 bits of `y` the high
/// word, and the 32-bit value is widened to `isize` without sign extension.
pub fn make_lparam(x: i32, y: i32) -> (r: isize)
    ensures
        r == lparam_of(x, y),
{
    make_long(x as u32, y as u32) as isize
}

/// A point whose coordinates fit in 16 signed bits is read back unchanged
/// from the `LPARAM` that packs it.
pub proof fn lemma_lparam_round_trip(x: i32, y: i32)
    requires
        i16::MIN <= x <= i16::MAX,
        i16::MIN <= y <= i16::MAX,
    ensures
        x_of_lparam(lparam_of(x, y)) == x,
        y_of_lparam(lparam_of(x, y)) == y,
{
    let v: u32 = long_of(x as u32, y as u32);
    let xu: u32 = x as u32;
    let yu: u32 = y as u32;
    assert(v as int == (xu % 0x10000) + (yu % 0x10000) * 0x10000);
    assert(((v as isize) as u32) == v) by (bit_vector);
    assert(v as int == (xu % 0x10000) + (yu % 0x10000) * 0x10000 ==> (v % 0x10000) as i16 == x as i16)
        by (bit_vector)
        requires
            xu == x as u32,
    ;
    assert(v as int == (xu % 0x10000) + (yu % 0x10000) * 0x10000 ==> (v / 0x10000) as i16 == y as i16)
        by (bit_vector)
        requires
            yu == y as u32,
    ;
}

} // verus!
