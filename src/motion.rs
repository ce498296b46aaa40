use vstd::prelude::*;
use crate::consts::{HEIGHT, MAX_HEADING, WIDTH};

verus! {

/// An axis-aligned box: top-left corner `(x, y)`, width `w`, height `h`.
#[derive(Clone, Copy, Debug, PartialEq, Eq, Structural)]
pub struct Rect {
    pub x: i64,
    pub y: i64,
    pub w: i64,
    pub h: i64,
}

/// A point of the arena.
#[derive(Clone, Copy, Debug, PartialEq, Eq, Structural)]
pub struct Point {
    pub x: i64,
    pub y: i64,
}

/// `r` is the integer square root of `q`.
pub open spec fn is_root(q: int, r: int) -> bool {
    0 <= r && r * r <= q && q < (r + 1) * (r + 1)
}

pub open spec fn sign(c: int) -> int {
    if c > 0 {
        1
    } else if c < 0 {
        -1
    } else {
        0
    }
}

pub open spec fn abs(c: int) -> int {
    if c < 0 {
        -c
    } else {
        c
    }
}

/// `d` is the component along `c` of a displacement of length `s` toward the
/// heading `(c, o)`, rounded toward zero: `|d| = floor(sqrt(s² c² / (c² + o²)))`.
pub open spec fn is_component(d: int, c: int, o: int, s: int) -> bool {
    (d == 0 || sign(d) == sign(c)) && is_root((s * s * (c * c)) / (c * c + o * o), abs(d))
}

/// The integer square root of `q`, counted up from zero.
pub open spec fn root(q: nat) -> nat
    decreases q,
{
    if q == 0 {
        0
    } else {
        let r = root((q - 1) as nat);
        if (r + 1) * (r + 1) <= q {
            r + 1
        } else {
            r
        }
    }
}

pub proof fn lemma_root(q: nat)
    ensures
        is_root(q as int, root(q) as int),
    decreases q,
{
    if q > 0 {
        lemma_root((q - 1) as nat);
        let r = root((q - 1) as nat) as int;
        if (r + 1) * (r + 1) <= q {
            assert(q < (r + 2) * (r + 2)) by (nonlinear_arith)
                requires q - 1 < (r + 1) * (r + 1), r >= 0;
        }
    }
}

pub proof fn lemma_root_unique(q: int, a: int, b: int)
    requires
        is_root(q, a),
        is_root(q, b),
    ensures
        a == b,
{
    if a < b {
        assert((a + 1) * (a + 1) <= b * b) by (nonlinear_arith)
            requires a + 1 <= b, a >= 0;
    }
    if b < a {
        assert((b + 1) * (b + 1) <= a * a) by (nonlinear_arith)
            requires b + 1 <= a, b >= 0;
    }
}

/// The component along `c` of a displacement of length `s` toward the
/// heading `(c, o)`, rounded toward zero.
pub open spec fn component_spec(c: int, o: int, s: int) -> int {
    sign(c) * root(((s * s * (c * c)) / (c * c + o * o)) as nat)
}

/// A heading vector that the motion code accepts.
pub open spec fn heading_ok(hx: int, hy: int) -> bool {
    -MAX_HEADING <= hx <= MAX_HEADING && -MAX_HEADING <= hy <= MAX_HEADING && (hx != 0 || hy
        != 0)
}

/// The integer square root of `q`.
pub fn isqrt(q: u128) -> (r: u64)
    requires
        q < 0x1_0000_0000_0000_0000_0000,
    ensures
        is_root(q as int, r as int),
{
    let mut lo: u128 = 0;
    let mut hi: u128 = 0x100_0000_0000;
    assert(q < hi * hi) by (nonlinear_arith)
        requires
            q < 0x1_0000_0000_0000_0000_0000,
            hi == 0x100_0000_0000,
    ;
    while lo + 1 < hi
        invariant
            lo < hi <= 0x100_0000_0000,
            lo * lo <= q,
            q < hi * hi,
        decreases hi - lo,
    {
        let mid: u128 = lo + (hi - lo) / 2;
        assert(mid * mid <= 0x100_0000_0000 * 0x100_0000_0000) by (nonlinear_arith)
            requires
                mid <= 0x100_0000_0000,
        ;
        if mid * mid <= q {
            lo = mid;
        } else {
            hi = mid;
        }
    }
    assert(hi == lo + 1);
    lo as u64
}


/// Largest length of a displacement that `step_along` accepts.
pub const MAX_STEP: i64 = 0x8_0000_0000;

/// The component along `c` of a displacement of length `s` toward the
/// heading `(c, o)`, rounded toward zero.
pub fn component(c: i64, o: i64, s: i64) -> (d: i64)
    requires
        heading_ok(c as int, o as int),
        0 <= s <= MAX_STEP,
    ensures
        is_component(d as int, c as int, o as int, s as int),
        d == component_spec(c as int, o as int, s as int),
        -s <= d <= s,
{
    let ca: u128 = if c < 0 { (0i128 - c as i128) as u128 } else { c as u128 };
    let oa: u128 = if o < 0 { (0i128 - o as i128) as u128 } else { o as u128 };
    let su: u128 = s as u128;
    assert(ca * ca <= 0x100_0000_0000_0000) by (nonlinear_arith)
        requires ca <= 0x1000_0000;
    assert(oa * oa <= 0x100_0000_0000_0000) by (nonlinear_arith)
        requires oa <= 0x1000_0000;
    assert(su * su <= 0x40_0000_0000_0000_0000) by (nonlinear_arith)
        requires su <= 0x8_0000_0000;
    let c2: u128 = ca * ca;
    let o2: u128 = oa * oa;
    let s2: u128 = su * su;
    assert(c2 > 0 || o2 > 0) by (nonlinear_arith)
        requires c2 == ca * ca, o2 == oa * oa, ca > 0 || oa > 0;
    assert(s2 * c2 <= 0x40_0000_0000_0000_0000 * 0x100_0000_0000_0000) by (nonlinear_arith)
        requires s2 <= 0x40_0000_0000_0000_0000, c2 <= 0x100_0000_0000_0000;
    let n: u128 = c2 + o2;
    let q: u128 = s2 * c2 / n;
    assert(q <= s2) by (nonlinear_arith)
        requires n >= c2, n > 0, q == (s2 * c2) as int / n as int;
    let r: u64 = isqrt(q);
    assert(r <= s) by (nonlinear_arith)
        requires r * r <= q, q <= s2, s2 == s * s, s >= 0, r >= 0;
    assert(c as int * c as int == c2 as int && o as int * o as int == o2 as int
        && s as int * s as int == s2 as int) by (nonlinear_arith)
        requires ca == abs(c as int), oa == abs(o as int), su == s, c2 == ca * ca,
            o2 == oa * oa, s2 == su * su;
    proof {
        lemma_root(q as nat);
        lemma_root_unique(q as int, r as int, root(q as nat) as int);
    }
    if c < 0 {
        0 - r as i64
    } else if c > 0 {
        r as i64
    } else {
        assert(c2 == 0) by (nonlinear_arith) requires ca == 0, c2 == ca * ca;
        assert(q == 0) by (nonlinear_arith) requires c2 == 0, q == (s2 * c2) as int / n as int, n > 0;
        assert(r == 0) by (nonlinear_arith) requires r * r <= q, q == 0;
        0
    }
}

/// A displacement of length `s` toward the heading `(hx, hy)`, each
/// component rounded toward zero.
pub fn step_along(hx: i64, hy: i64, s: i64) -> (r: (i64, i64))
    requires
        heading_ok(hx as int, hy as int),
        0 <= s <= MAX_STEP,
    ensures
        is_component(r.0 as int, hx as int, hy as int, s as int),
        is_component(r.1 as int, hy as int, hx as int, s as int),
        r.0 == component_spec(hx as int, hy as int, s as int),
        r.1 == component_spec(hy as int, hx as int, s as int),
        -s <= r.0 <= s,
        -s <= r.1 <= s,
{
    (component(hx, hy, s), component(hy, hx, s))
}


/// The horizontal step direction of the movement intents: right wins over left.
pub open spec fn intent_x(left: bool, right: bool) -> int {
    if right {
        1
    } else if left {
        -1
    } else {
        0
    }
}

/// The vertical step direction of the movement intents: down wins over up.
pub open spec fn intent_y(up: bool, down: bool) -> int {
    if down {
        1
    } else if up {
        -1
    } else {
        0
    }
}

/// The step direction `(x, y)`, each in `{-1, 0, 1}`, that four held
/// movement intents ask for.
pub fn move_intent(left: bool, right: bool, up: bool, down: bool) -> (r: (i64, i64))
    ensures
        r.0 == intent_x(left, right),
        r.1 == intent_y(up, down),
{
    let mut x: i64 = 0;
    let mut y: i64 = 0;
    if left {
        x = -1;
    }
    if right {
        x = 1;
    }
    if up {
        y = -1;
    }
    if down {
        y = 1;
    }
    (x, y)
}

pub open spec fn clamp_spec(v: int, lo: int, hi: int) -> int {
    if v < lo {
        lo
    } else if v > hi {
        hi
    } else {
        v
    }
}

/// `r` moved, if need be, so that it lies wholly inside the arena.
pub fn clamp_to_arena(r: Rect) -> (c: Rect)
    requires
        0 <= r.w <= WIDTH,
        0 <= r.h <= HEIGHT,
    ensures
        c.x == clamp_spec(r.x as int, 0, WIDTH - r.w),
        c.y == clamp_spec(r.y as int, 0, HEIGHT - r.h),
        c.w == r.w,
        c.h == r.h,
        0 <= c.x <= WIDTH - c.w,
        0 <= c.y <= HEIGHT - c.h,
{
    let mut c = r;
    if c.x < 0 {
        c.x = 0;
    } else if c.x > WIDTH - r.w {
        c.x = WIDTH - r.w;
    }
    if c.y < 0 {
        c.y = 0;
    } else if c.y > HEIGHT - r.h {
        c.y = HEIGHT - r.h;
    }
    c
}

pub open spec fn off_screen_spec(r: Rect) -> bool {
    r.x > WIDTH || r.x < -r.w || r.y > HEIGHT || r.y < -r.h
}

/// Whether `r` lies wholly outside the arena, on any side; touching an
/// edge is not enough.
pub fn is_off_screen(r: Rect) -> (b: bool)
    requires
        r.w >= 0,
        r.h >= 0,
    ensures
        b == off_screen_spec(r),
{
    r.x > WIDTH || r.x < -r.w || r.y > HEIGHT || r.y < -r.h
}

proof fn lemma_component_bounds(d: int, c: int, o: int, s: int)
    requires
        heading_ok(c, o),
        s >= 0,
        is_component(d, c, o, s),
    ensures
        (c * c + o * o) * (d * d) <= s * s * (c * c),
        s * s * (c * c) < (c * c + o * o) * ((abs(d) + 1) * (abs(d) + 1)),
{
    let n = c * c + o * o;
    let a = s * s * (c * c);
    let q = a / n;
    let e = abs(d);
    assert(n > 0) by (nonlinear_arith)
        requires c != 0 || o != 0, n == c * c + o * o;
    assert(a >= 0) by (nonlinear_arith)
        requires a == s * s * (c * c), s >= 0;
    assert(d * d == e * e) by (nonlinear_arith)
        requires e == abs(d);
    assert(n * q <= a && a < n * (q + 1)) by (nonlinear_arith)
        requires q == a / n, n > 0, a >= 0;
    assert(n * (e * e) <= n * q) by (nonlinear_arith)
        requires e * e <= q, n > 0;
    assert(n * (q + 1) <= n * ((e + 1) * (e + 1))) by (nonlinear_arith)
        requires q < (e + 1) * (e + 1), n > 0;
}

/// A step toward any heading has the length asked for, up to rounding:
/// its length is at most `s`, and one sub-unit more on each non-zero axis
/// would make it longer than `s`. A step along an axis has length `s`
/// exactly.
pub proof fn lemma_step_length(hx: int, hy: int, s: int, dx: int, dy: int)
    requires
        heading_ok(hx, hy),
        s >= 0,
        is_component(dx, hx, hy, s),
        is_component(dy, hy, hx, s),
    ensures
        dx * dx + dy * dy <= s * s,
        s * s < (abs(dx) + 1) * (abs(dx) + 1) + (abs(dy) + 1) * (abs(dy) + 1),
        hy == 0 ==> abs(dx) == s && dy == 0,
        hx == 0 ==> abs(dy) == s && dx == 0,
{
    let n = hx * hx + hy * hy;
    assert(n > 0) by (nonlinear_arith)
        requires hx != 0 || hy != 0, n == hx * hx + hy * hy;
    lemma_component_bounds(dx, hx, hy, s);
    lemma_component_bounds(dy, hy, hx, s);
    assert(hy * hy + hx * hx == n);
    assert(n * (dx * dx + dy * dy) <= n * (s * s)) by (nonlinear_arith)
        requires
            n * (dx * dx) <= s * s * (hx * hx),
            n * (dy * dy) <= s * s * (hy * hy),
            n == hx * hx + hy * hy;
    assert(dx * dx + dy * dy <= s * s) by (nonlinear_arith)
        requires n * (dx * dx + dy * dy) <= n * (s * s), n > 0;
    let ex = abs(dx) + 1;
    let ey = abs(dy) + 1;
    assert(n * (s * s) < n * (ex * ex + ey * ey)) by (nonlinear_arith)
        requires
            s * s * (hx * hx) < n * (ex * ex),
            s * s * (hy * hy) < n * (ey * ey),
            n == hx * hx + hy * hy;
    assert(s * s < ex * ex + ey * ey) by (nonlinear_arith)
        requires n * (s * s) < n * (ex * ex + ey * ey), n > 0;
    if hy == 0 {
        assert(n == hx * hx);
        assert((s * s * (hx * hx)) / n == s * s) by (nonlinear_arith)
            requires n == hx * hx, n > 0;
        let e = abs(dx);
        assert(e == s) by (nonlinear_arith)
            requires e * e <= s * s, s * s < (e + 1) * (e + 1), e >= 0, s >= 0;
        assert(dy == 0) by (nonlinear_arith)
            requires n * (dy * dy) <= s * s * (hy * hy), hy == 0, n > 0;
    }
    if hx == 0 {
        assert(n == hy * hy);
        assert((s * s * (hy * hy)) / n == s * s) by (nonlinear_arith)
            requires n == hy * hy, n > 0;
        let e = abs(dy);
        assert(e == s) by (nonlinear_arith)
            requires e * e <= s * s, s * s < (e + 1) * (e + 1), e >= 0, s >= 0;
        assert(dx == 0) by (nonlinear_arith)
            requires n * (dx * dx) <= s * s * (hx * hx), hx == 0, n > 0;
    }
}

}
