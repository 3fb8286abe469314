use genshin_assistant::minwindef::make_long;
use genshin_assistant::winuser::{make_lparam, make_wparam};

#[test]
fn make_long_puts_low_and_high_words() {
    assert_eq!(make_long(0x1234, 0x5678), 0x5678_1234);
    assert_eq!(make_long(0, 0), 0);
    assert_eq!(make_long(0xFFFF, 0xFFFF), 0xFFFF_FFFF);
}

#[test]
fn make_long_drops_upper_bits_of_arguments() {
    assert_eq!(make_long(0xABCD_1234, 0x9999_5678), 0x5678_1234);
    assert_eq!(make_long(0x0001_0000, 0x0001_0000), 0);
}

#[test]
fn make_long_round_trips_words() {
    let v: u32 = 0xDEAD_BEEF;
    assert_eq!(make_long(v & 0xFFFF, v >> 16), v);
}

#[test]
fn make_wparam_packs_button_state_and_extra_button() {
    assert_eq!(make_wparam(0x0020, 1), 0x0001_0020);
    assert_eq!(make_wparam(0, 2), 0x0002_0000);
}

#[test]
fn make_lparam_packs_point() {
    assert_eq!(make_lparam(100, 200), (200 << 16 | 100) as isize);
    assert_eq!(make_lparam(1407, 802), 0x0322_057F);
}

#[test]
fn make_lparam_keeps_negative_coordinates_in_their_words() {
    let l = make_lparam(-1, -2);
    assert_eq!(l, 0xFFFE_FFFFu32 as isize);
    assert_eq!((l as u32 & 0xFFFF) as u16 as i16, -1);
    assert_eq!(((l as u32) >> 16) as u16 as i16, -2);
}

#[test]
fn make_lparam_does_not_sign_extend() {
    let l = make_lparam(0, -1);
    assert!(l > 0);
    assert_eq!(l, 0xFFFF_0000u32 as isize);
}
