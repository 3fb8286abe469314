use genshin_assistant::scale_coordinate;

fn by_float(c: i32, b: i32, a: i32) -> i32 {
    (c as f64 * a as f64 / b as f64) as i32
}

fn check(c: i32, b: i32, a: i32) {
    let (x, y) = scale_coordinate((c, c), (b, b), (a, a));
    let expected = by_float(c, b, a);
    assert_eq!((x, y), (expected, expected), "c={} base={} actual={}", c, b, a);
}

#[test]
fn scaling_matches_float_formula_at_extremes() {
    check(2147483647, 2147483646, 2147483645);
    check(i32::MAX, 1, i32::MAX);
    check(i32::MIN, 1, i32::MAX);
    check(i32::MIN, i32::MAX, i32::MAX);
    check(i32::MAX, i32::MAX, i32::MAX);
    check(i32::MIN, 2, 3);
    check(-1, i32::MAX, 1);
    check(0x3000_0001, 0x7000_0003, 0x7fff_fff1);
}

#[test]
fn scaling_matches_float_formula_on_many_inputs() {
    let mut state: u64 = 0x9E37_79B9_7F4A_7C15;
    let mut next = || {
        state = state.wrapping_mul(6364136223846793005).wrapping_add(1442695040888963407);
        (state >> 32) as u32
    };
    for round in 0..200_000 {
        let shift_c = next() % 32;
        let shift_b = next() % 32;
        let shift_a = next() % 32;
        let c = (next() as i32) >> shift_c;
        let b = ((next() >> 1) >> shift_b).max(1) as i32;
        let a = ((next() >> 1) >> shift_a).max(1) as i32;
        let c = if round % 7 == 0 { b } else { c };
        check(c, b, a);
    }
}

#[test]
fn scaling_matches_float_formula_near_rounding_points() {
    for b in [3, 7, 1_000_003, 0x7fff_ffff, 0x4000_0001, 0x7fff_fffe] {
        for a in [0x7fff_ffff, 0x7fff_fffe, 0x5555_5555, 1_234_567_891] {
            for c in [0x7fff_ffff, -0x7fff_ffff, 0x4000_0000, -0x8000_0000, 0x7fff_fffd, 123_456_789] {
                check(c, b, a);
            }
        }
    }
}

#[test]
fn scaling_keeps_order_of_coordinates() {
    let mut state: u64 = 0x1234_5678_9ABC_DEF1;
    let mut next = || {
        state = state.wrapping_mul(6364136223846793005).wrapping_add(1442695040888963407);
        (state >> 32) as u32
    };
    for _ in 0..100_000 {
        let b = ((next() >> 1) >> (next() % 31)).max(1) as i32;
        let a = ((next() >> 1) >> (next() % 31)).max(1) as i32;
        let c1 = (next() as i32) >> (next() % 32);
        let c2 = (next() as i32) >> (next() % 32);
        let (lo, hi) = if c1 <= c2 { (c1, c2) } else { (c2, c1) };
        let s_lo = scale_coordinate((lo, lo), (b, b), (a, a));
        let s_hi = scale_coordinate((hi, hi), (b, b), (a, a));
        assert!(s_lo.0 <= s_hi.0 && s_lo.1 <= s_hi.1, "{} {} base={} actual={}", lo, hi, b, a);
    }
}
