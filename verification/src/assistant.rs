//! The dialogue skipper: scaling the skip button's position to the game
//! window, recognising the game windows, switching on and off, and the
//! steps of one left click delivered as window messages.
use vstd::prelude::*;
use vstd::arithmetic::power2::{
    lemma2_to64, lemma2_to64_rest, lemma_pow2_adds, lemma_pow2_pos, lemma_pow2_strictly_increases, lemma_pow2_unfold, pow2,
};
use crate::input_utils::{Contact, activation_of, mouse_down_message_of, mouse_move_message_of, mouse_up_message_of};
use crate::window::{Delivery, DeliveryMethod, Point, Rect, WindowHandle};
use crate::winuser::{lparam_of, make_lparam};

verus! {

/// How the clicks reach the game window.
#[derive(Clone, Copy, Debug, PartialEq, Eq, Structural)]
pub enum Mode {
    SendMessage,
    PostMessage,
}

/// The delivery method that a mode stands for.
pub open spec fn method_of(mode: Mode) -> DeliveryMethod {
    match mode {
        Mode::SendMessage => DeliveryMethod::Send,
        Mode::PostMessage => DeliveryMethod::Post,
    }
}

impl Mode {
    /// The delivery method that this mode stands for.
    pub fn delivery_method(&self) -> (r: DeliveryMethod)
        ensures
            r == method_of(*self),
    {
        match self {
            Mode::SendMessage => DeliveryMethod::Send,
            Mode::PostMessage => DeliveryMethod::Post,
        }
    }
}

/// The x coordinate of the skip button at the reference resolution.
pub const SKIP_CLICK_X: i32 = 1407;
/// The y coordinate of the skip button at the reference resolution.
pub const SKIP_CLICK_Y: i32 = 802;
/// The width that the skip button's coordinates refer to.
pub const REFERENCE_WIDTH: i32 = 1920;
/// The height that the skip button's coordinates refer to.
pub const REFERENCE_HEIGHT: i32 = 1080;
/// The pause between two rounds of the click loop, in milliseconds.
pub const CLICK_INTERVAL_MS: u64 = 100;

/// The number of binary digits of `n` (0 for 0).
pub open spec fn bit_length(n: nat) -> nat
    decreases n,
{
    if n == 0 {
        0
    } else {
        1 + bit_length(n / 2)
    }
}

/// `n` rounded to the nearest integer that has at most 53 significant
/// binary digits, a tie going to the one whose last kept digit is even:
/// the magnitude of `n` converted to `f64`.
pub open spec fn round_to_double(n: nat) -> nat {
    let len = bit_length(n);
    if len <= 53 {
        n
    } else {
        let unit = pow2((len - 53) as nat);
        let kept = n / unit;
        let rest = n % unit;
        let up = rest > unit / 2 || (rest == unit / 2 && kept % 2 == 1);
        (if up { kept + 1 } else { kept }) * unit
    }
}

/// For `b > 0` and `a / b < 2^31`: the `f64` quotient of `a` and `b`
/// (rounded to nearest, ties to even) truncated to an integer. The
/// quotient rounds up to the next integer `n + 1` exactly when `a / b` is
/// at least halfway from the `f64` just below `n + 1` to `n + 1`; that
/// halfway point lies `2^(e - 54)` below `n + 1` when `n + 1 = 2^e`, and
/// `2^(e - 53)` below it when `2^e < n + 1 < 2^(e + 1)`.
pub open spec fn truncated_double_quotient(a: nat, b: nat) -> nat {
    let n = a / b;
    let next = n + 1;
    let e = (bit_length(next) - 1) as nat;
    let u: nat = if next == pow2(e) { (54 - e) as nat } else { (53 - e) as nat };
    if a * pow2(u) + b >= next * pow2(u) * b {
        next
    } else {
        n
    }
}

/// The nearest `i32` to an integer.
pub open spec fn saturate_i32(v: int) -> i32 {
    if v < i32::MIN {
        i32::MIN
    } else if v > i32::MAX {
        i32::MAX
    } else {
        v as i32
    }
}

/// One coordinate scaled from `base` to `actual` (`base > 0`) as
/// `(coord as f64 * actual as f64 / base as f64) as i32` computes it: the
/// product rounded to the nearest `f64`, the quotient rounded to the nearest
/// `f64`, then truncated toward zero and held to the range of `i32`.
pub open spec fn scaled_axis(coord: i32, base: i32, actual: i32) -> i32 {
    let p = coord * actual;
    let m = round_to_double(if p >= 0 { p as nat } else { (-p) as nat });
    let t: int = if m / (base as nat) >= 0x8000_0000 {
        0x8000_0000
    } else {
        truncated_double_quotient(m, base as nat) as int
    };
    saturate_i32(if p >= 0 { t } else { -t })
}

/// A number below `2^k` has at most `k` binary digits.
proof fn lemma_bit_length_below(n: nat, k: nat)
    requires
        n < pow2(k),
    ensures
        bit_length(n) <= k,
    decreases k,
{
    if n > 0 {
        if k == 0 {
            lemma2_to64();
        } else {
            lemma_pow2_unfold(k);
            lemma_bit_length_below(n / 2, (k - 1) as nat);
        }
    }
}

fn bit_len(n: u64) -> (r: u32)
    ensures
        r == bit_length(n as nat),
        r <= 64,
{
    proof {
        lemma2_to64();
        lemma_bit_length_below(n as nat, 64);
    }
    let mut cur = n;
    let mut count: u32 = 0;
    while cur > 0
        invariant
            bit_length(n as nat) == count + bit_length(cur as nat),
            bit_length(n as nat) <= 64,
        decreases cur,
    {
        cur = cur / 2;
        count = count + 1;
    }
    count
}

fn power_of_two(k: u32) -> (r: u128)
    requires
        k <= 64,
    ensures
        r == pow2(k as nat),
{
    let mut r: u128 = 1;
    let mut i: u32 = 0;
    proof {
        lemma2_to64();
    }
    while i < k
        invariant
            i <= k <= 64,
            r == pow2(i as nat),
        decreases k - i,
    {
        proof {
            lemma_pow2_unfold((i + 1) as nat);
            if i + 1 < 64 {
                lemma_pow2_strictly_increases((i + 1) as nat, 64);
            }
            lemma2_to64();
        }
        r = r * 2;
        i = i + 1;
    }
    r
}

fn scale_axis(coord: i32, base: i32, actual: i32) -> (r: i32)
    requires
        base > 0,
    ensures
        r == scaled_axis(coord, base, actual),
{
    let c: i64 = coord as i64;
    let a: i64 = actual as i64;
    assert(-0x4000_0000_0000_0000 <= c * a <= 0x4000_0000_0000_0000) by (nonlinear_arith)
        requires
            -0x8000_0000 <= c <= 0x7fff_ffff,
            -0x8000_0000 <= a <= 0x7fff_ffff,
    ;
    let p: i64 = c * a;
    let mag: u64 = if p >= 0 { p as u64 } else { (0i64 - p) as u64 };
    let len = bit_len(mag);
    assert(mag <= 0x4000_0000_0000_0000);
    proof {
        lemma2_to64();
        lemma2_to64_rest();
        lemma_bit_length_below(mag as nat, 63);
    }
    let m: u128 = if len <= 53 {
        mag as u128
    } else {
        let unit = power_of_two(len - 53);
        proof {
            lemma_pow2_pos((len - 53) as nat);
            if len - 53 < 10 {
                lemma_pow2_strictly_increases((len - 53) as nat, 10);
            }
        }
        let big = mag as u128;
        let kept = big / unit;
        let rest = big % unit;
        let up = rest > unit / 2 || (rest == unit / 2 && kept % 2 == 1);
        assert(kept * unit <= big) by (nonlinear_arith)
            requires
                kept == big / unit,
                unit > 0,
        ;
        assert((kept + 1) * unit <= big + unit) by (nonlinear_arith)
            requires
                kept * unit <= big,
        ;
        if up {
            (kept + 1) * unit
        } else {
            kept * unit
        }
    };
    assert(m <= 0x4000_0000_0000_0400);
    let b: u128 = base as u128;
    let n: u128 = m / b;
    let t: u128 = if n >= 0x8000_0000 {
        0x8000_0000
    } else {
        let next: u128 = n + 1;
        let len2 = bit_len(next as u64);
        proof {
            lemma_bit_length_below(next as nat, 32);
        }
        let e: u32 = len2 - 1;
        let pe = power_of_two(e);
        let u: u32 = if next == pe { 54 - e } else { 53 - e };
        let pu = power_of_two(u);
        proof {
            assert(len2 >= 1);
            assert(u <= 54);
            lemma2_to64_rest();
            if u < 54 {
                lemma_pow2_strictly_increases(u as nat, 54);
            }
            assert(pu <= 0x40_0000_0000_0000);
        }
        assert(m * pu <= 0x4000_0000_0000_0400 * 0x40_0000_0000_0000) by (nonlinear_arith)
            requires
                m <= 0x4000_0000_0000_0400,
                pu <= 0x40_0000_0000_0000,
        ;
        assert(next * pu <= 0x8000_0000 * 0x40_0000_0000_0000) by (nonlinear_arith)
            requires
                next <= 0x8000_0000,
                pu <= 0x40_0000_0000_0000,
        ;
        assert(next * pu * b <= 0x8000_0000 * 0x40_0000_0000_0000 * 0x8000_0000) by (nonlinear_arith)
            requires
                next <= 0x8000_0000,
                pu <= 0x40_0000_0000_0000,
                b <= 0x8000_0000,
        ;
        if m * pu + b >= next * pu * b {
            next
        } else {
            n
        }
    };
    if p >= 0 {
        if t > 0x7fff_ffff {
            i32::MAX
        } else {
            t as i32
        }
    } else {
        (0i64 - (t as i64)) as i32
    }
}

/// A point scaled from one resolution to another; the point itself when
/// either resolution has a side that is not positive.
pub open spec fn scaled_point(
    base_coordinate: (i32, i32),
    base_resolution: (i32, i32),
    actual_resolution: (i32, i32),
) -> (i32, i32) {
    if actual_resolution.0 <= 0 || actual_resolution.1 <= 0 || base_resolution.0 <= 0
        || base_resolution.1 <= 0 {
        base_coordinate
    } else {
        (
            scaled_axis(base_coordinate.0, base_resolution.0, actual_resolution.0),
            scaled_axis(base_coordinate.1, base_resolution.1, actual_resolution.1),
        )
    }
}

/// Scales a point given at `base_resolution` to a window of
/// `actual_resolution`, each coordinate as
/// `(coord as f64 * actual as f64 / base as f64) as i32` computes it, with
/// the two roundings to `f64` carried out in integer arithmetic; when
/// either resolution has a side that is not positive, the point is returned
/// unchanged.
pub fn scale_coordinate(
    base_coordinate: (i32, i32),
    base_resolution: (i32, i32),
    actual_resolution: (i32, i32),
) -> (r: (i32, i32))
    ensures
        r == scaled_point(base_coordinate, base_resolution, actual_resolution),
{
    if actual_resolution.0 <= 0 || actual_resolution.1 <= 0 || base_resolution.0 <= 0
        || base_resolution.1 <= 0 {
        return base_coordinate;
    }
    let x = scale_axis(base_coordinate.0, base_resolution.0, actual_resolution.0);
    let y = scale_axis(base_coordinate.1, base_resolution.1, actual_resolution.1);
    (x, y)
}

/// The size of a client rectangle.
pub open spec fn client_size_of(rect: Rect) -> (i32, i32) {
    ((rect.right - rect.left) as i32, (rect.bottom - rect.top) as i32)
}

/// Whether the size of the rectangle can be held in `i32`.
pub open spec fn size_fits(rect: Rect) -> bool {
    i32::MIN <= rect.right - rect.left <= i32::MAX && i32::MIN <= rect.bottom - rect.top <= i32::MAX
}

/// Where the skip button is in a game window whose client rectangle is
/// `rect`: the reference position scaled from the reference resolution to
/// the client size.
pub open spec fn skip_point_of(rect: Rect) -> (i32, i32) {
    scaled_point((SKIP_CLICK_X, SKIP_CLICK_Y), (REFERENCE_WIDTH, REFERENCE_HEIGHT), client_size_of(rect))
}

/// Where the skip button is in a game window whose client rectangle is
/// `rect`.
pub fn skip_click_point(rect: Rect) -> (r: (i32, i32))
    requires
        size_fits(rect),
    ensures
        r == skip_point_of(rect),
{
    let size = (rect.right - rect.left, rect.bottom - rect.top);
    scale_coordinate((SKIP_CLICK_X, SKIP_CLICK_Y), (REFERENCE_WIDTH, REFERENCE_HEIGHT), size)
}

/// The skip button's reference position scaled to the client size of
/// `rect`.
pub open spec fn scale_coordinate_of_client(rect: Rect) -> (i32, i32) {
    scaled_point((1407, 802), (1920, 1080), ((rect.right - rect.left) as i32, (rect.bottom - rect.top) as i32))
}

/// What one round of the click loop does: when switched on, in a game
/// window whose client rectangle could be read, click the skip button;
/// otherwise nothing.
pub open spec fn round_click_of(running: bool, title_supported: bool, client: Option<Rect>) -> Option<(i32, i32)> {
    if running && title_supported && client is Some {
        Some(skip_point_of(client->0))
    } else {
        None
    }
}

/// What one round of the click loop does. The caller reads the title only
/// when running and the client rectangle only in a game window.
pub fn round_click(running: bool, title_supported: bool, client: Option<Rect>) -> (r: Option<(i32, i32)>)
    requires
        client matches Some(rect) ==> size_fits(rect),
    ensures
        r == round_click_of(running, title_supported, client),
        r is Some <==> running && title_supported && client is Some,
        client matches Some(rect) ==> (r is Some ==> r == Some(
            scale_coordinate_of_client(rect),
        )),
{
    if running && title_supported {
        match client {
            Some(rect) => Some(skip_click_point(rect)),
            None => None,
        }
    } else {
        None
    }
}

/// The titles of the game windows that the skipper works in.
pub open spec fn supported_titles() -> Seq<Seq<char>> {
    seq!["原神"@, "崩坏：星穹铁道"@, "Genshin Impact"@]
}

/// Whether a window title is that of a game window that the skipper works in.
pub fn is_supported_title(title: &str) -> (r: bool)
    ensures
        r == supported_titles().contains(title@),
        r <==> (title@ == "原神"@ || title@ == "崩坏：星穹铁道"@ || title@ == "Genshin Impact"@),
{
    let t = title.to_owned();
    let a = "原神".to_owned();
    let b = "崩坏：星穹铁道".to_owned();
    let c = "Genshin Impact".to_owned();
    let r = t == a || t == b || t == c;
    assert(supported_titles()[0] == a@);
    assert(supported_titles()[1] == b@);
    assert(supported_titles()[2] == c@);
    if r {
        if t == a {
            assert(supported_titles()[0] == title@);
        } else if t == b {
            assert(supported_titles()[1] == title@);
        } else {
            assert(supported_titles()[2] == title@);
        }
    } else {
        assert(forall|i: int| 0 <= i < 3 ==> supported_titles()[i] != title@);
    }
    r
}

/// What the skipper announces when it is switched.
#[derive(Clone, Copy, Debug, PartialEq, Eq, Structural)]
pub enum Announcement {
    Enabled,
    Disabled,
}

/// The state after a key press, and what is announced: the toggle key in a
/// game window flips the state and announces the new one; anything else
/// changes nothing.
pub open spec fn key_press_of(running: bool, is_toggle_key: bool, title_supported: bool) -> (bool, Option<Announcement>) {
    if is_toggle_key && title_supported {
        (!running, Some(if running { Announcement::Disabled } else { Announcement::Enabled }))
    } else {
        (running, None)
    }
}

/// The state after a key press, and what is announced. The caller reads
/// the title of the foreground window only for the toggle key.
pub fn on_key_press(running: bool, is_toggle_key: bool, title_supported: bool) -> (r: (bool, Option<Announcement>))
    ensures
        r == key_press_of(running, is_toggle_key, title_supported),
        !(is_toggle_key && title_supported) ==> r == (running, None::<Announcement>),
        is_toggle_key && title_supported ==> r.0 == !running,
        is_toggle_key && title_supported ==> r.1 == Some(
            if running { Announcement::Disabled } else { Announcement::Enabled },
        ),
{
    if is_toggle_key && title_supported {
        let previous = running;
        if !previous {
            (true, Some(Announcement::Enabled))
        } else {
            (false, Some(Announcement::Disabled))
        }
    } else {
        (running, None)
    }
}

/// A key press outside a supported game window, or of any key but the
/// toggle key, changes nothing and announces nothing; the toggle key in a
/// game window flips the state and announces the state it switched to.
pub proof fn lemma_key_press_only_toggles_in_game(running: bool, is_toggle_key: bool, title_supported: bool)
    ensures
        !title_supported ==> key_press_of(running, is_toggle_key, title_supported) == (running, None::<Announcement>),
        !is_toggle_key ==> key_press_of(running, is_toggle_key, title_supported) == (running, None::<Announcement>),
        is_toggle_key && title_supported ==> key_press_of(running, is_toggle_key, title_supported).0 == !running,
        is_toggle_key && title_supported ==> (key_press_of(running, is_toggle_key, title_supported).1
            == Some(Announcement::Enabled) <==> !running),
        is_toggle_key && title_supported ==> (key_press_of(running, is_toggle_key, title_supported).1
            == Some(Announcement::Disabled) <==> running),
{
}

/// The supported titles are exactly the three game titles: a title is
/// supported if and only if it is one of them.
pub proof fn lemma_supported_titles_exactly(title: Seq<char>)
    ensures
        supported_titles().len() == 3,
        supported_titles().contains(title) <==> (title == "原神"@ || title == "崩坏：星穹铁道"@
            || title == "Genshin Impact"@),
{
    let ts = supported_titles();
    if title == "原神"@ {
        assert(ts[0] == title);
    } else if title == "崩坏：星穹铁道"@ {
        assert(ts[1] == title);
    } else if title == "Genshin Impact"@ {
        assert(ts[2] == title);
    }
}

/// Pressing the toggle key twice in a game window leaves the skipper as it
/// was, and each press announces the state it switched to.
pub proof fn lemma_toggle_twice(running: bool)
    ensures
        key_press_of(key_press_of(running, true, true).0, true, true).0 == running,
        key_press_of(running, true, true).1 == Some(
            if key_press_of(running, true, true).0 { Announcement::Enabled } else { Announcement::Disabled },
        ),
{
}

/// An integer below `2^53` is its own `f64` magnitude.
proof fn lemma_round_exact(n: nat)
    requires
        n < 0x20_0000_0000_0000,
    ensures
        round_to_double(n) == n,
{
    lemma2_to64_rest();
    lemma_bit_length_below(n, 53);
}

/// The rounding step of the quotient moves up by at most one, and not at
/// all when the division is exact.
proof fn lemma_quotient_bounds(a: nat, b: nat)
    requires
        b > 0,
        a / b < 0x8000_0000,
    ensures
        a / b <= truncated_double_quotient(a, b) <= a / b + 1,
        a % b == 0 ==> truncated_double_quotient(a, b) == a / b,
{
    let n = a / b;
    let next = n + 1;
    lemma2_to64();
    lemma_bit_length_below(next, 32);
    let e = (bit_length(next) - 1) as nat;
    let u: nat = if next == pow2(e) { (54 - e) as nat } else { (53 - e) as nat };
    assert(u >= 1);
    lemma_pow2_strictly_increases(0, u);
    let pu = pow2(u);
    if a % b == 0 {
        vstd::arithmetic::div_mod::lemma_fundamental_div_mod(a as int, b as int);
        assert(a * pu + b < next * pu * b) by (nonlinear_arith)
            requires
                a == n * b,
                next == n + 1,
                pu >= 2,
                b > 0,
        ;
    }
}

/// The rounded quotient grows with the dividend.
proof fn lemma_quotient_monotonic(a1: nat, a2: nat, b: nat)
    requires
        b > 0,
        a1 <= a2,
        a2 / b < 0x8000_0000,
    ensures
        truncated_double_quotient(a1, b) <= truncated_double_quotient(a2, b),
{
    vstd::arithmetic::div_mod::lemma_div_is_ordered(a1 as int, a2 as int, b as int);
    lemma_quotient_bounds(a1, b);
    lemma_quotient_bounds(a2, b);
    if a1 / b == a2 / b {
        let next = a1 / b + 1;
        let e = (bit_length(next) - 1) as nat;
        let u: nat = if next == pow2(e) { (54 - e) as nat } else { (53 - e) as nat };
        let pu = pow2(u);
        assert(a1 * pu <= a2 * pu) by (nonlinear_arith)
            requires
                a1 <= a2,
        ;
    }
}

/// The magnitude, before the sign, that one scaled coordinate takes.
spec fn scaled_magnitude(m: nat, b: nat) -> int {
    if m / b >= 0x8000_0000 {
        0x8000_0000
    } else {
        truncated_double_quotient(m, b) as int
    }
}

proof fn lemma_magnitude_monotonic(m1: nat, m2: nat, b: nat)
    requires
        b > 0,
        m1 <= m2,
    ensures
        0 <= scaled_magnitude(m1, b) <= scaled_magnitude(m2, b) <= 0x8000_0000,
{
    vstd::arithmetic::div_mod::lemma_div_is_ordered(m1 as int, m2 as int, b as int);
    if m2 / b < 0x8000_0000 {
        lemma_quotient_monotonic(m1, m2, b);
        lemma_quotient_bounds(m2, b);
    } else if m1 / b < 0x8000_0000 {
        lemma_quotient_bounds(m1, b);
    }
}

/// Scaling a point to the resolution it was given for leaves it unchanged,
/// wherever the products of its coordinates and the resolution are exact
/// in `f64` (below `2^53` in magnitude).
pub proof fn lemma_scale_identity(point: (i32, i32), resolution: (i32, i32))
    requires
        resolution.0 > 0,
        resolution.1 > 0,
        -0x20_0000_0000_0000 < point.0 * resolution.0 < 0x20_0000_0000_0000,
        -0x20_0000_0000_0000 < point.1 * resolution.1 < 0x20_0000_0000_0000,
    ensures
        scaled_point(point, resolution, resolution) == point,
{
    lemma_axis_identity(point.0, resolution.0);
    lemma_axis_identity(point.1, resolution.1);
}

proof fn lemma_axis_identity(c: i32, a: i32)
    requires
        a > 0,
        -0x20_0000_0000_0000 < c * a < 0x20_0000_0000_0000,
    ensures
        scaled_axis(c, a, a) == c,
{
    let p = c * a;
    let abs_c: int = if c >= 0 { c as int } else { -c };
    assert(if p >= 0 { p } else { -p } == abs_c * a) by (nonlinear_arith)
        requires
            p == c * a,
            a > 0,
            abs_c == if c >= 0 { c as int } else { -c },
    ;
    let m: nat = (abs_c * a) as nat;
    lemma_round_exact(m);
    vstd::arithmetic::div_mod::lemma_div_by_multiple(abs_c, a as int);
    vstd::arithmetic::div_mod::lemma_mod_multiples_basic(abs_c, a as int);
    assert(abs_c * a == a * abs_c) by (nonlinear_arith);
    if abs_c < 0x8000_0000 {
        lemma_quotient_bounds(m, a as nat);
    }
    assert(p >= 0 <==> c >= 0) by (nonlinear_arith)
        requires
            p == c * a,
            a > 0,
    ;
}

/// A coordinate inside the base resolution lands inside the actual one,
/// wherever the product of the base and actual resolutions is exact in
/// `f64`: the skip position of the reference screen falls inside every
/// game window.
pub proof fn lemma_scale_stays_inside(c: i32, base: i32, actual: i32)
    requires
        base > 0,
        actual > 0,
        0 <= c <= base,
        base * actual < 0x20_0000_0000_0000,
    ensures
        0 <= scaled_axis(c, base, actual) <= actual,
{
    assert(0 <= c * actual <= base * actual) by (nonlinear_arith)
        requires
            0 <= c <= base,
            actual > 0,
    ;
    let m: nat = (c * actual) as nat;
    lemma_round_exact(m);
    vstd::arithmetic::div_mod::lemma_div_is_ordered(c * actual, base * actual, base as int);
    assert(base * actual == actual * base) by (nonlinear_arith);
    vstd::arithmetic::div_mod::lemma_div_by_multiple(actual as int, base as int);
    let n = m / (base as nat);
    lemma_quotient_bounds(m, base as nat);
    if n == actual {
        vstd::arithmetic::div_mod::lemma_fundamental_div_mod(m as int, base as int);
        assert(m % (base as nat) == 0) by (nonlinear_arith)
            requires
                m == base * n + m % (base as nat),
                m <= base * actual,
                n == actual,
                0 <= m % (base as nat),
        ;
    }
}

/// A positive number lies between the powers of two that its number of
/// binary digits names.
proof fn lemma_bit_length_range(n: nat)
    requires
        n > 0,
    ensures
        bit_length(n) >= 1,
        pow2((bit_length(n) - 1) as nat) <= n < pow2(bit_length(n)),
    decreases n,
{
    if n == 1 {
        lemma2_to64();
        assert(bit_length(0) == 0);
    } else {
        lemma_bit_length_range(n / 2);
        let k = bit_length(n / 2);
        lemma_pow2_unfold(k + 1);
        if k >= 1 {
            lemma_pow2_unfold(k);
        }
    }
}

/// A larger number has at least as many binary digits.
proof fn lemma_bit_length_monotonic(n1: nat, n2: nat)
    requires
        n1 <= n2,
    ensures
        bit_length(n1) <= bit_length(n2),
{
    if n1 > 0 {
        lemma_bit_length_range(n1);
        lemma_bit_length_range(n2);
        if bit_length(n1) > bit_length(n2) {
            if bit_length(n2) < (bit_length(n1) - 1) as nat {
                lemma_pow2_strictly_increases(bit_length(n2), (bit_length(n1) - 1) as nat);
            }
        }
    }
}

/// Rounding a positive number to `f64` keeps it between the powers of two
/// that its number of binary digits names.
proof fn lemma_round_range(n: nat)
    requires
        n > 0,
    ensures
        pow2((bit_length(n) - 1) as nat) <= round_to_double(n) <= pow2(bit_length(n)),
{
    lemma_bit_length_range(n);
    let len = bit_length(n);
    if len > 53 {
        let s = (len - 53) as nat;
        let unit = pow2(s);
        lemma_pow2_pos(s);
        lemma_pow2_adds(52, s);
        lemma_pow2_adds(53, s);
        assert((52 + s) as nat == (len - 1) as nat);
        assert((53 + s) as nat == len);
        let kept = n / unit;
        vstd::arithmetic::div_mod::lemma_fundamental_div_mod(n as int, unit as int);
        vstd::arithmetic::div_mod::lemma_mod_pos_bound(n as int, unit as int);
        let big = pow2(52);
        let top = pow2(53);
        assert(big * unit <= kept * unit) by (nonlinear_arith)
            requires
                big * unit <= n,
                n == unit * kept + n % unit,
                0 <= n % unit < unit,
                unit > 0,
        ;
        assert((kept + 1) * unit <= top * unit) by (nonlinear_arith)
            requires
                n < top * unit,
                n == unit * kept + n % unit,
                0 <= n % unit,
                unit > 0,
        ;
        assert(kept * unit <= (kept + 1) * unit) by (nonlinear_arith);
    }
}

/// Rounding to `f64` keeps the order of numbers.
proof fn lemma_round_monotonic(n1: nat, n2: nat)
    requires
        n1 <= n2,
    ensures
        round_to_double(n1) <= round_to_double(n2),
{
    if n1 == 0 {
        assert(bit_length(0) == 0);
    } else {
        lemma_bit_length_monotonic(n1, n2);
        lemma_round_range(n1);
        lemma_round_range(n2);
        let l1 = bit_length(n1);
        let l2 = bit_length(n2);
        if l1 < l2 {
            if l1 < (l2 - 1) as nat {
                lemma_pow2_strictly_increases(l1, (l2 - 1) as nat);
            }
        } else if l1 > 53 {
            let unit = pow2((l1 - 53) as nat);
            lemma_pow2_pos((l1 - 53) as nat);
            let k1 = n1 / unit;
            let k2 = n2 / unit;
            vstd::arithmetic::div_mod::lemma_div_is_ordered(n1 as int, n2 as int, unit as int);
            if k1 == k2 {
                vstd::arithmetic::div_mod::lemma_fundamental_div_mod(n1 as int, unit as int);
                vstd::arithmetic::div_mod::lemma_fundamental_div_mod(n2 as int, unit as int);
                assert(n1 % unit <= n2 % unit);
                let half = unit / 2;
                let up1 = n1 % unit > half || (n1 % unit == half && k1 % 2 == 1);
                let up2 = n2 % unit > half || (n2 % unit == half && k2 % 2 == 1);
                assert(up1 ==> up2);
                assert(round_to_double(n1) == (if up1 { k1 + 1 } else { k1 }) * unit);
                assert(round_to_double(n2) == (if up2 { k2 + 1 } else { k2 }) * unit);
                assert(k1 * unit <= (k1 + 1) * unit) by (nonlinear_arith);
            } else {
                assert((k1 + 1) * unit <= k2 * unit) by (nonlinear_arith)
                    requires
                        k1 < k2,
                        unit > 0,
                ;
                assert(k1 * unit <= (k1 + 1) * unit) by (nonlinear_arith);
                assert(k2 * unit <= (k2 + 1) * unit) by (nonlinear_arith);
                assert(round_to_double(n1) <= (k1 + 1) * unit);
                assert(round_to_double(n2) >= k2 * unit);
            }
        }
    }
}

/// Scaling keeps the order of coordinates: rounding the product to `f64`,
/// dividing by a positive base, rounding again, truncating toward zero and
/// saturating are each order-preserving.
pub proof fn lemma_scale_monotonic(c1: i32, c2: i32, base: i32, actual: i32)
    requires
        base > 0,
        actual > 0,
        c1 <= c2,
    ensures
        scaled_axis(c1, base, actual) <= scaled_axis(c2, base, actual),
{
    let p1 = c1 * actual;
    let p2 = c2 * actual;
    assert(p1 <= p2) by (nonlinear_arith)
        requires
            p1 == c1 * actual,
            p2 == c2 * actual,
            c1 <= c2,
            actual > 0,
    ;
    let b = base as nat;
    let m1: nat = if p1 >= 0 { p1 as nat } else { (-p1) as nat };
    let m2: nat = if p2 >= 0 { p2 as nat } else { (-p2) as nat };
    let r1 = round_to_double(m1);
    let r2 = round_to_double(m2);
    if p1 >= 0 {
        lemma_round_monotonic(m1, m2);
        lemma_magnitude_monotonic(r1, r2, b);
    } else if p2 < 0 {
        lemma_round_monotonic(m2, m1);
        lemma_magnitude_monotonic(r2, r1, b);
    } else {
        lemma_magnitude_monotonic(0, r1, b);
        lemma_magnitude_monotonic(0, r2, b);
    }
}

/// Scaling a point keeps the order of each coordinate, for every pair of
/// resolutions with positive sides.
pub proof fn lemma_scale_coordinate_monotonic(
    c: (i32, i32),
    d: (i32, i32),
    base_resolution: (i32, i32),
    actual_resolution: (i32, i32),
)
    requires
        base_resolution.0 > 0,
        base_resolution.1 > 0,
        actual_resolution.0 > 0,
        actual_resolution.1 > 0,
        c.0 <= d.0,
        c.1 <= d.1,
    ensures
        scaled_point(c, base_resolution, actual_resolution).0 <= scaled_point(
            d,
            base_resolution,
            actual_resolution,
        ).0,
        scaled_point(c, base_resolution, actual_resolution).1 <= scaled_point(
            d,
            base_resolution,
            actual_resolution,
        ).1,
{
    lemma_scale_monotonic(c.0, d.0, base_resolution.0, actual_resolution.0);
    lemma_scale_monotonic(c.1, d.1, base_resolution.1, actual_resolution.1);
}

/// What `send_activate_message` hands to the game window: nothing for a
/// null handle, else `WM_ACTIVATE`/`WA_ACTIVE` delivered as the mode says.
/// The caller pauses 10 ms after handing it over.
pub fn activation_for(hwnd: WindowHandle, mode: Mode) -> (r: Option<Delivery>)
    ensures
        r == (if hwnd.spec_is_invalid() { None } else { Some(activation_of(hwnd, mode is PostMessage)) }),
{
    let use_post = match mode {
        Mode::PostMessage => true,
        Mode::SendMessage => false,
    };
    crate::input_utils::activation_delivery(hwnd, use_post)
}

/// Where a left click stands.
#[derive(Clone, Copy, Debug, PartialEq, Eq, Structural)]
pub enum ClickStage {
    Start,
    AwaitActivated,
    AwaitActivationPause,
    AwaitScreenPoint,
    AwaitCursorSet,
    AwaitMoveDelivered,
    AwaitMovePause,
    AwaitDownDelivered,
    AwaitDownPause,
    AwaitUpDelivered,
    Done,
}

/// What the caller reports back after carrying out an action.
#[derive(Clone, Copy, Debug, PartialEq, Eq, Structural)]
pub enum ClickEvent {
    /// The action was carried out (or, at the start, nothing has been done yet).
    Completed,
    /// The point in screen coordinates, or `None` when `ClientToScreen` failed.
    Converted(Option<Point>),
    /// Whether the call succeeded (a sent message always reports `true`).
    Answer(bool),
}

/// Why a left click failed.
#[derive(Clone, Copy, Debug, PartialEq, Eq, Structural)]
pub enum ClickError {
    /// `ClientToScreen` failed.
    ClientToScreen,
    /// `SetCursorPos` failed.
    SetCursorPos,
    /// `PostMessageW` failed.
    DeliveryFailed,
}

/// The outside work that a left click asks for.
#[derive(Clone, Copy, Debug, PartialEq, Eq)]
pub enum ClickAction {
    /// Send or post the message; report `Answer`.
    Deliver(Delivery),
    /// Pause for the given number of milliseconds; report `Completed`.
    Sleep(u64),
    /// `ClientToScreen(hwnd, point)`; report `Converted`.
    ClientToScreen(Point),
    /// `SetCursorPos(x, y)`; report `Answer`.
    SetCursorPos(Point),
    /// The click is over, with this outcome.
    Finish(Result<(), ClickError>),
}

/// A left click at client point (`x`, `y`) of the game window, in progress:
/// activate the window, put the real cursor over the point, then deliver
/// the left button's move, press and release messages with 10 ms between
/// them, all carrying the point.
#[derive(Clone, Copy, Debug, PartialEq, Eq, Structural)]
pub struct ClickTask {
    pub hwnd: WindowHandle,
    pub x: i32,
    pub y: i32,
    pub mode: Mode,
    pub stage: ClickStage,
}

/// Whether the event is the kind of report that the stage waits for.
pub open spec fn click_accepts(stage: ClickStage, event: ClickEvent) -> bool {
    match stage {
        ClickStage::AwaitScreenPoint => event is Converted,
        ClickStage::AwaitActivated | ClickStage::AwaitCursorSet | ClickStage::AwaitMoveDelivered
        | ClickStage::AwaitDownDelivered | ClickStage::AwaitUpDelivered => event is Answer,
        ClickStage::Done => false,
        _ => event is Completed,
    }
}

/// A message of the click: one of the left button's messages, to the game
/// window, carrying the click point.
pub open spec fn click_delivery(t: ClickTask, message: u32, w_param: usize) -> Delivery {
    Delivery { method: method_of(t.mode), target: t.hwnd, message, w_param, l_param: lparam_of(t.x, t.y) }
}

/// Whether a delivery report ends the click with a failure: only a failed
/// post does.
pub open spec fn click_delivery_failed(t: ClickTask, e: ClickEvent) -> bool {
    t.mode is PostMessage && e != ClickEvent::Answer(true)
}

/// One step of a left click.
pub open spec fn click_next(t: ClickTask, e: ClickEvent) -> (ClickTask, ClickAction) {
    let done_with = |err: ClickError| (ClickTask { stage: ClickStage::Done, ..t }, ClickAction::Finish(Err(err)));
    match t.stage {
        ClickStage::Start => if t.hwnd.spec_is_invalid() {
            (ClickTask { stage: ClickStage::AwaitScreenPoint, ..t }, ClickAction::ClientToScreen(Point { x: t.x, y: t.y }))
        } else {
            (
                ClickTask { stage: ClickStage::AwaitActivated, ..t },
                ClickAction::Deliver(activation_of(t.hwnd, t.mode is PostMessage)),
            )
        },
        ClickStage::AwaitActivated => (ClickTask { stage: ClickStage::AwaitActivationPause, ..t }, ClickAction::Sleep(10)),
        ClickStage::AwaitActivationPause => (
            ClickTask { stage: ClickStage::AwaitScreenPoint, ..t },
            ClickAction::ClientToScreen(Point { x: t.x, y: t.y }),
        ),
        ClickStage::AwaitScreenPoint => match e {
            ClickEvent::Converted(Some(p)) => (ClickTask { stage: ClickStage::AwaitCursorSet, ..t }, ClickAction::SetCursorPos(p)),
            _ => done_with(ClickError::ClientToScreen),
        },
        ClickStage::AwaitCursorSet => if e == ClickEvent::Answer(true) {
            (
                ClickTask { stage: ClickStage::AwaitMoveDelivered, ..t },
                ClickAction::Deliver(click_delivery(
                    t,
                    mouse_move_message_of(Contact::Left).message,
                    mouse_move_message_of(Contact::Left).w_param,
                )),
            )
        } else {
            done_with(ClickError::SetCursorPos)
        },
        ClickStage::AwaitMoveDelivered => if click_delivery_failed(t, e) {
            done_with(ClickError::DeliveryFailed)
        } else {
            (ClickTask { stage: ClickStage::AwaitMovePause, ..t }, ClickAction::Sleep(10))
        },
        ClickStage::AwaitMovePause => (
            ClickTask { stage: ClickStage::AwaitDownDelivered, ..t },
            ClickAction::Deliver(click_delivery(
                t,
                mouse_down_message_of(Contact::Left).message,
                mouse_down_message_of(Contact::Left).w_param,
            )),
        ),
        ClickStage::AwaitDownDelivered => if click_delivery_failed(t, e) {
            done_with(ClickError::DeliveryFailed)
        } else {
            (ClickTask { stage: ClickStage::AwaitDownPause, ..t }, ClickAction::Sleep(10))
        },
        ClickStage::AwaitDownPause => (
            ClickTask { stage: ClickStage::AwaitUpDelivered, ..t },
            ClickAction::Deliver(click_delivery(
                t,
                mouse_up_message_of(Contact::Left).message,
                mouse_up_message_of(Contact::Left).w_param,
            )),
        ),
        ClickStage::AwaitUpDelivered => if click_delivery_failed(t, e) {
            done_with(ClickError::DeliveryFailed)
        } else {
            (ClickTask { stage: ClickStage::Done, ..t }, ClickAction::Finish(Ok(())))
        },
        ClickStage::Done => (t, ClickAction::Finish(Ok(()))),
    }
}

/// How many steps at most remain before a click finishes.
pub open spec fn click_steps_left(stage: ClickStage) -> nat {
    match stage {
        ClickStage::Start => 10,
        ClickStage::AwaitActivated => 9,
        ClickStage::AwaitActivationPause => 8,
        ClickStage::AwaitScreenPoint => 7,
        ClickStage::AwaitCursorSet => 6,
        ClickStage::AwaitMoveDelivered => 5,
        ClickStage::AwaitMovePause => 4,
        ClickStage::AwaitDownDelivered => 3,
        ClickStage::AwaitDownPause => 2,
        ClickStage::AwaitUpDelivered => 1,
        ClickStage::Done => 0,
    }
}

impl ClickTask {
    /// A left click at client point (`x`, `y`) of `hwnd`, before any step.
    pub fn new(hwnd: WindowHandle, x: i32, y: i32, mode: Mode) -> (t: ClickTask)
        ensures
            t == (ClickTask { hwnd, x, y, mode, stage: ClickStage::Start }),
    {
        ClickTask { hwnd, x, y, mode, stage: ClickStage::Start }
    }

    fn deliver(&self, info: crate::input_utils::MouseMessageInfo) -> (d: Delivery)
        ensures
            d == click_delivery(*self, info.message, info.w_param),
    {
        Delivery {
            method: self.mode.delivery_method(),
            target: self.hwnd,
            message: info.message,
            w_param: info.w_param,
            l_param: make_lparam(self.x, self.y),
        }
    }

    fn failed(&self, event: ClickEvent) -> (r: bool)
        ensures
            r == click_delivery_failed(*self, event),
    {
        match self.mode {
            Mode::PostMessage => match event {
                ClickEvent::Answer(b) => !b,
                _ => true,
            },
            Mode::SendMessage => false,
        }
    }

    /// Takes the report of the last action (`Completed` for the first step)
    /// and returns the next action; the caller carries it out and reports
    /// back, until the action is `Finish`.
    pub fn step(&mut self, event: ClickEvent) -> (action: ClickAction)
        requires
            click_accepts(old(self).stage, event),
        ensures
            (*final(self), action) == click_next(*old(self), event),
            action is Finish <==> final(self).stage is Done,
            !(action is Finish) ==> click_steps_left(final(self).stage) < click_steps_left(old(self).stage),
    {
        let left = Contact::Left;
        match self.stage {
            ClickStage::Start => if self.hwnd.is_invalid() {
                self.stage = ClickStage::AwaitScreenPoint;
                ClickAction::ClientToScreen(Point { x: self.x, y: self.y })
            } else {
                let d = activation_for(self.hwnd, self.mode);
                self.stage = ClickStage::AwaitActivated;
                match d {
                    Some(d) => ClickAction::Deliver(d),
                    None => ClickAction::Finish(Ok(())),
                }
            },
            ClickStage::AwaitActivated => {
                self.stage = ClickStage::AwaitActivationPause;
                ClickAction::Sleep(10)
            },
            ClickStage::AwaitActivationPause => {
                self.stage = ClickStage::AwaitScreenPoint;
                ClickAction::ClientToScreen(Point { x: self.x, y: self.y })
            },
            ClickStage::AwaitScreenPoint => match event {
                ClickEvent::Converted(Some(p)) => {
                    self.stage = ClickStage::AwaitCursorSet;
                    ClickAction::SetCursorPos(p)
                },
                _ => {
                    self.stage = ClickStage::Done;
                    ClickAction::Finish(Err(ClickError::ClientToScreen))
                },
            },
            ClickStage::AwaitCursorSet => {
                let ok = match event {
                    ClickEvent::Answer(b) => b,
                    _ => false,
                };
                if ok {
                    let d = self.deliver(left.to_mouse_move_message());
                    self.stage = ClickStage::AwaitMoveDelivered;
                    ClickAction::Deliver(d)
                } else {
                    self.stage = ClickStage::Done;
                    ClickAction::Finish(Err(ClickError::SetCursorPos))
                }
            },
            ClickStage::AwaitMoveDelivered => if self.failed(event) {
                self.stage = ClickStage::Done;
                ClickAction::Finish(Err(ClickError::DeliveryFailed))
            } else {
                self.stage = ClickStage::AwaitMovePause;
                ClickAction::Sleep(10)
            },
            ClickStage::AwaitMovePause => {
                let d = self.deliver(left.to_mouse_down_message());
                self.stage = ClickStage::AwaitDownDelivered;
                ClickAction::Deliver(d)
            },
            ClickStage::AwaitDownDelivered => if self.failed(event) {
                self.stage = ClickStage::Done;
                ClickAction::Finish(Err(ClickError::DeliveryFailed))
            } else {
                self.stage = ClickStage::AwaitDownPause;
                ClickAction::Sleep(10)
            },
            ClickStage::AwaitDownPause => {
                let d = self.deliver(left.to_mouse_up_message());
                self.stage = ClickStage::AwaitUpDelivered;
                ClickAction::Deliver(d)
            },
            ClickStage::AwaitUpDelivered => if self.failed(event) {
                self.stage = ClickStage::Done;
                ClickAction::Finish(Err(ClickError::DeliveryFailed))
            } else {
                self.stage = ClickStage::Done;
                ClickAction::Finish(Ok(()))
            },
            ClickStage::Done => ClickAction::Finish(Ok(())),
        }
    }
}

/// The actions after a series of reports.
pub open spec fn click_run(t: ClickTask, events: Seq<ClickEvent>) -> (ClickTask, Seq<ClickAction>)
    decreases events.len(),
{
    if events.len() == 0 {
        (t, Seq::empty())
    } else {
        let first = click_next(t, events[0]);
        let rest = click_run(first.0, events.drop_first());
        (rest.0, seq![first.1] + rest.1)
    }
}

/// A click in which every call succeeds: the window is activated, the
/// cursor is put over the point, and `WM_MOUSEMOVE` and `WM_LBUTTONDOWN`
/// with `MK_LBUTTON`, then `WM_LBUTTONUP` with no key state, all at the
/// point, are delivered 10 ms apart; the click succeeds.
pub proof fn lemma_click_success(hwnd: WindowHandle, x: i32, y: i32, mode: Mode, screen: Point)
    requires
        !hwnd.spec_is_invalid(),
    ensures
        ({
            let t = ClickTask { hwnd, x, y, mode, stage: ClickStage::Start };
            let yes = ClickEvent::Answer(true);
            let events = seq![
                ClickEvent::Completed,
                yes,
                ClickEvent::Completed,
                ClickEvent::Converted(Some(screen)),
                yes,
                yes,
                ClickEvent::Completed,
                yes,
                ClickEvent::Completed,
                yes,
            ];
            let at = |message: u32, w_param: usize| Delivery {
                method: method_of(mode),
                target: hwnd,
                message,
                w_param,
                l_param: lparam_of(x, y),
            };
            click_run(t, events).1 == seq![
                ClickAction::Deliver(activation_of(hwnd, mode is PostMessage)),
                ClickAction::Sleep(10),
                ClickAction::ClientToScreen(Point { x, y }),
                ClickAction::SetCursorPos(screen),
                ClickAction::Deliver(at(crate::win32::WM_MOUSEMOVE, crate::win32::MK_LBUTTON as usize)),
                ClickAction::Sleep(10),
                ClickAction::Deliver(at(crate::win32::WM_LBUTTONDOWN, crate::win32::MK_LBUTTON as usize)),
                ClickAction::Sleep(10),
                ClickAction::Deliver(at(crate::win32::WM_LBUTTONUP, 0)),
                ClickAction::Finish(Ok(())),
            ]
        }),
{
    reveal_with_fuel(click_run, 11);
    let yes = ClickEvent::Answer(true);
    let events = seq![
        ClickEvent::Completed,
        yes,
        ClickEvent::Completed,
        ClickEvent::Converted(Some(screen)),
        yes,
        yes,
        ClickEvent::Completed,
        yes,
        ClickEvent::Completed,
        yes,
    ];
    assert(events.drop_first().drop_first().drop_first().drop_first().drop_first().drop_first().drop_first()
        .drop_first().drop_first().drop_first() =~= Seq::<ClickEvent>::empty());
}

} // verus!
