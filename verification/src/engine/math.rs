//! Fixed-point arithmetic, integer square roots, a rational sine, and plane
//! vectors.

use vstd::prelude::*;

verus! {

/// One whole unit as a fixed-point number.
pub const UNIT: i32 = 1000;

/// Half a turn in thousandths of a radian.
pub const HALF_TURN: i32 = 3142;

/// The value of `v` cut off at the ends of the 32-bit range.
pub open spec fn saturated(v: int) -> int {
    if v < -0x8000_0000 {
        -0x8000_0000
    } else if v > 0x7fff_ffff {
        0x7fff_ffff
    } else {
        v
    }
}

/// The quotient of `a` by a positive `b`, rounded toward zero.
pub open spec fn quotient(a: int, b: int) -> int {
    if a >= 0 {
        a / b
    } else {
        -((-a) / b)
    }
}

/// `r` is the integer square root of `n`: the largest number whose square
/// does not exceed `n`.
pub open spec fn is_root(n: int, r: int) -> bool {
    0 <= r && r * r <= n && n < (r + 1) * (r + 1)
}

/// The integer square root of `n`, for `n >= 0`.
pub open spec fn root(n: int) -> int {
    choose|r: int| is_root(n, r)
}

/// Every natural number has an integer square root.
pub proof fn lemma_root_exists(n: int)
    requires
        n >= 0,
    ensures
        is_root(n, root(n)),
    decreases n,
{
    if n == 0 {
        assert(is_root(0, 0));
    } else {
        lemma_root_exists(n - 1);
        let r = root(n - 1);
        if (r + 1) * (r + 1) <= n {
            assert((r + 1) * (r + 1) == n);
            assert(n < (r + 2) * (r + 2)) by (nonlinear_arith)
                requires
                    (r + 1) * (r + 1) == n,
                    r >= 0,
            ;
            assert(is_root(n, r + 1));
        } else {
            assert(is_root(n, r));
        }
    }
}

/// A number has at most one integer square root.
pub proof fn lemma_root_unique(n: int, r1: int, r2: int)
    requires
        is_root(n, r1),
        is_root(n, r2),
    ensures
        r1 == r2,
{
    if r1 < r2 {
        assert((r1 + 1) * (r1 + 1) <= r2 * r2) by (nonlinear_arith)
            requires
                0 <= r1,
                r1 + 1 <= r2,
        ;
    } else if r2 < r1 {
        assert((r2 + 1) * (r2 + 1) <= r1 * r1) by (nonlinear_arith)
            requires
                0 <= r2,
                r2 + 1 <= r1,
        ;
    }
}

/// Whoever finds a root has found `root(n)`.
pub proof fn lemma_root_is(n: int, r: int)
    requires
        is_root(n, r),
    ensures
        root(n) == r,
{
    lemma_root_unique(n, r, root(n));
}

/// The root lies below a bound exactly when the number lies below the
/// bound's square.
pub proof fn lemma_root_below(n: int, bound: int)
    requires
        n >= 0,
        bound >= 0,
    ensures
        root(n) < bound <==> n < bound * bound,
{
    lemma_root_exists(n);
    let r = root(n);
    if r < bound {
        assert((r + 1) * (r + 1) <= bound * bound) by (nonlinear_arith)
            requires
                0 <= r,
                r + 1 <= bound,
        ;
    } else {
        assert(bound * bound <= r * r) by (nonlinear_arith)
            requires
                0 <= bound,
                bound <= r,
        ;
    }
}

/// Cuts a wide value off at the ends of the 32-bit range.
pub fn saturate(v: i64) -> (r: i32)
    ensures
        r == saturated(v as int),
{
    if v < -0x8000_0000 {
        -0x8000_0000
    } else if v > 0x7fff_ffff {
        0x7fff_ffff
    } else {
        v as i32
    }
}

/// Computes the integer square root by bisection.
pub fn isqrt(n: u64) -> (r: u32)
    ensures
        is_root(n as int, r as int),
        r == root(n as int),
{
    let mut lo: u64 = 0;
    let mut hi: u64 = 0x1_0000_0000;
    assert(n < hi * hi) by (nonlinear_arith)
        requires
            hi == 0x1_0000_0000,
            n <= 0xffff_ffff_ffff_ffff,
    ;
    while hi - lo > 1
        invariant
            lo < hi <= 0x1_0000_0000,
            lo * lo <= n,
            n < hi * hi,
        decreases hi - lo,
    {
        let mid: u64 = lo + (hi - lo) / 2;
        assert(mid * mid <= 0xffff_ffff * 0xffff_ffff) by (nonlinear_arith)
            requires
                mid <= 0xffff_ffff,
        ;
        if mid * mid <= n {
            lo = mid;
        } else {
            hi = mid;
        }
    }
    proof {
        assert(hi == lo + 1);
        lemma_root_is(n as int, lo as int);
    }
    lo as u32
}

/// The rising and falling half of the sine wave: for `0 <= t <= HALF_TURN`,
/// a rational approximation of `1000 * sin(t / 1000)`.
pub open spec fn arc(t: int) -> int {
    let p = t * (3142 - t);
    (16000 * p) / (5 * 3142 * 3142 - 4 * p)
}

/// The sine of an angle given in thousandths of a radian, in thousandths.
pub open spec fn sine(a: int) -> int {
    let r = a % 6284;
    if r < 3142 {
        arc(r)
    } else {
        -arc(r - 3142)
    }
}

/// The cosine of an angle given in thousandths of a radian, in thousandths.
pub open spec fn cosine(a: int) -> int {
    sine(a + 1571)
}

/// The half wave stays between 0 and one unit.
pub proof fn lemma_arc_bounds(t: int)
    requires
        0 <= t <= 3142,
    ensures
        0 <= arc(t) <= 1000,
{
    let p = t * (3142 - t);
    let d = 5 * 3142 * 3142 - 4 * p;
    assert(0 <= p && 4 * p <= 3142 * 3142) by (nonlinear_arith)
        requires
            0 <= t <= 3142,
            p == t * (3142 - t),
    ;
    assert(d > 0);
    assert(16000 * p <= 1000 * d);
    assert(0 <= (16000 * p) / d <= 1000) by (nonlinear_arith)
        requires
            d > 0,
            0 <= 16000 * p <= 1000 * d,
    ;
}

/// Computes the half wave.
fn half_wave(t: i64) -> (s: i64)
    requires
        0 <= t <= 3142,
    ensures
        s == arc(t as int),
        0 <= s <= 1000,
{
    proof {
        lemma_arc_bounds(t as int);
        assert(0 <= t * (3142 - t) && 4 * (t * (3142 - t)) <= 3142 * 3142) by (nonlinear_arith)
            requires
                0 <= t <= 3142,
        ;
    }
    let p: i64 = t * (3142 - t);
    (16000 * p) / (5 * 3142 * 3142 - 4 * p)
}

/// Computes the sine of an angle given in thousandths of a radian.
pub fn sin_milli(a: i32) -> (s: i32)
    ensures
        s == sine(a as int),
        -1000 <= s <= 1000,
{
    let m: i64 = (a as i64) % 6284;
    let r: i64 = if m < 0 {
        m + 6284
    } else {
        m
    };
    assert(r == (a as int) % 6284);
    if r < 3142 {
        half_wave(r) as i32
    } else {
        (-half_wave(r - 3142)) as i32
    }
}

/// Computes the cosine of an angle given in thousandths of a radian.
pub fn cos_milli(a: i32) -> (c: i32)
    ensures
        c == cosine(a as int),
        -1000 <= c <= 1000,
{
    let m: i64 = (a as i64 + 1571) % 6284;
    let r: i64 = if m < 0 {
        m + 6284
    } else {
        m
    };
    assert(r == (a as int + 1571) % 6284);
    if r < 3142 {
        half_wave(r) as i32
    } else {
        (-half_wave(r - 3142)) as i32
    }
}

/// A point or a direction in the plane, in fixed-point coordinates.
#[derive(Clone, Copy, PartialEq, Eq, Structural, Debug)]
pub struct Vec2 {
    pub x: i32,
    pub y: i32,
}

impl Vec2 {
    /// The squared length, as an exact integer.
    pub open spec fn norm_sq(self) -> int {
        self.x * self.x + self.y * self.y
    }

    /// The length, rounded down to a whole thousandth.
    pub open spec fn len(self) -> int {
        root(self.norm_sq())
    }

    /// The vector shrunk or stretched to one unit of length: each
    /// coordinate divided by the exact length and rounded toward zero.
    pub open spec fn normalized(self) -> Vec2 {
        Vec2 {
            x: unit_part(self.x as int, self.norm_sq()) as i32,
            y: unit_part(self.y as int, self.norm_sq()) as i32,
        }
    }

    /// The sum of two vectors, each coordinate saturating.
    pub open spec fn plus(self, v: Vec2) -> Vec2 {
        Vec2 { x: saturated(self.x + v.x) as i32, y: saturated(self.y + v.y) as i32 }
    }

    /// The difference of two vectors, each coordinate saturating.
    pub open spec fn minus(self, v: Vec2) -> Vec2 {
        Vec2 { x: saturated(self.x - v.x) as i32, y: saturated(self.y - v.y) as i32 }
    }

    /// The vector multiplied by the fixed-point factor `f`, each coordinate
    /// rounded toward zero and saturating.
    pub open spec fn scaled(self, f: int) -> Vec2 {
        Vec2 {
            x: saturated(quotient(self.x * f, 1000)) as i32,
            y: saturated(quotient(self.y * f, 1000)) as i32,
        }
    }

    /// The length of a vector is zero only for the zero vector, and no
    /// coordinate is longer than the vector.
    pub proof fn lemma_len_bounds(self)
        ensures
            is_root(self.norm_sq(), self.len()),
            self.len() < 0x1_0000_0000,
            -self.len() <= self.x <= self.len(),
            -self.len() <= self.y <= self.len(),
            self.len() == 0 <==> (self.x == 0 && self.y == 0),
    {
        let n = self.norm_sq();
        let x = self.x as int;
        let y = self.y as int;
        assert(0 <= x * x && 0 <= y * y && x * x <= 0x4000_0000_0000_0000 && y * y
            <= 0x4000_0000_0000_0000) by (nonlinear_arith)
            requires
                -0x8000_0000 <= x <= 0x7fff_ffff,
                -0x8000_0000 <= y <= 0x7fff_ffff,
        ;
        lemma_root_exists(n);
        let l = self.len();
        lemma_root_below(n, 0x1_0000_0000);
        lemma_root_below(x * x, l + 1);
        lemma_root_below(y * y, l + 1);
        let ax = if x >= 0 { x } else { -x };
        let ay = if y >= 0 { y } else { -y };
        assert(ax * ax == x * x && ay * ay == y * y) by (nonlinear_arith)
            requires
                ax == x || ax == -x,
                ay == y || ay == -y,
        ;
        assert(is_root(x * x, ax)) by (nonlinear_arith)
            requires
                ax >= 0,
                ax * ax == x * x,
        ;
        assert(is_root(y * y, ay)) by (nonlinear_arith)
            requires
                ay >= 0,
                ay * ay == y * y,
        ;
        lemma_root_is(x * x, ax);
        lemma_root_is(y * y, ay);
        if x != 0 || y != 0 {
            assert(n >= 1) by (nonlinear_arith)
                requires
                    n == x * x + y * y,
                    x != 0 || y != 0,
            ;
        }
    }

    /// Makes a vector from its coordinates.
    pub fn new(x: i32, y: i32) -> (v: Vec2)
        ensures
            v == (Vec2 { x, y }),
    {
        Vec2 { x, y }
    }

    /// Measures the vector.
    pub fn length(&self) -> (l: u32)
        ensures
            l == self.len(),
            is_root(self.norm_sq(), l as int),
    {
        let x: i64 = self.x as i64;
        let y: i64 = self.y as i64;
        assert(0 <= x * x <= 0x4000_0000_0000_0000 && 0 <= y * y <= 0x4000_0000_0000_0000)
            by (nonlinear_arith)
            requires
                -0x8000_0000 <= x <= 0x7fff_ffff,
                -0x8000_0000 <= y <= 0x7fff_ffff,
        ;
        let n: u64 = (x * x) as u64 + (y * y) as u64;
        isqrt(n)
    }

    /// Brings a vector other than zero to one unit of length.
    pub fn normalize(&mut self)
        requires
            old(self).x != 0 || old(self).y != 0,
        ensures
            *final(self) == old(self).normalized(),
            -1000 <= final(self).x <= 1000,
            -1000 <= final(self).y <= 1000,
    {
        let x: i64 = self.x as i64;
        let y: i64 = self.y as i64;
        assert(0 <= x * x <= 0x4000_0000_0000_0000 && 0 <= y * y <= 0x4000_0000_0000_0000 && x * x
            + y * y > 0) by (nonlinear_arith)
            requires
                -0x8000_0000 <= x <= 0x7fff_ffff,
                -0x8000_0000 <= y <= 0x7fff_ffff,
                x != 0 || y != 0,
        ;
        let n: u64 = (x * x) as u64 + (y * y) as u64;
        self.x = unit_coordinate(self.x, n);
        self.y = unit_coordinate(self.y, n);
    }

    /// Adds `v` to this vector.
    pub fn add(&mut self, v: &Vec2)
        ensures
            *final(self) == old(self).plus(*v),
    {
        self.x = saturate(self.x as i64 + v.x as i64);
        self.y = saturate(self.y as i64 + v.y as i64);
    }

    /// Multiplies this vector by the fixed-point factor `f`.
    pub fn scale(&mut self, f: i32)
        ensures
            *final(self) == old(self).scaled(f as int),
    {
        let x: i64 = self.x as i64;
        let y: i64 = self.y as i64;
        let g: i64 = f as i64;
        assert(-0x4000_0000_0000_0000 <= x * g <= 0x4000_0000_0000_0000 && -0x4000_0000_0000_0000
            <= y * g <= 0x4000_0000_0000_0000) by (nonlinear_arith)
            requires
                -0x8000_0000 <= x <= 0x7fff_ffff,
                -0x8000_0000 <= y <= 0x7fff_ffff,
                -0x8000_0000 <= g <= 0x7fff_ffff,
        ;
        self.x = saturate((x * g) / 1000);
        self.y = saturate((y * g) / 1000);
    }
}

/// The size of a number without its sign.
pub open spec fn magnitude(v: int) -> int {
    if v >= 0 {
        v
    } else {
        -v
    }
}

/// The share that a coordinate `c` has in a vector of squared length `n`,
/// as a fixed-point number rounded toward zero: `1000 * c` divided by the
/// exact square root of `n`.
pub open spec fn unit_part(c: int, n: int) -> int {
    let m = root((1000000 * (c * c)) / n);
    if c >= 0 {
        m
    } else {
        -m
    }
}

/// The share of a coordinate is the exact quotient rounded toward zero:
/// its square times the squared length does not exceed the square of
/// `1000 * c`, one thousandth more would, and it is at most one unit.
pub proof fn lemma_unit_part_brackets(c: int, n: int)
    requires
        n > 0,
        0 <= c * c <= n,
    ensures
        0 <= (1000000 * (c * c)) / n <= 1000000,
        0 <= magnitude(unit_part(c, n)) <= 1000,
        c >= 0 ==> unit_part(c, n) >= 0,
        c <= 0 ==> unit_part(c, n) <= 0,
        magnitude(unit_part(c, n)) * magnitude(unit_part(c, n)) * n <= 1000000 * (c * c),
        1000000 * (c * c) < (magnitude(unit_part(c, n)) + 1) * (magnitude(unit_part(c, n)) + 1)
            * n,
{
    let top = 1000000 * (c * c);
    let q = top / n;
    assert(q * n <= top && top < (q + 1) * n && q >= 0) by (nonlinear_arith)
        requires
            n > 0,
            top >= 0,
            q == top / n,
    ;
    assert(q <= 1000000) by (nonlinear_arith)
        requires
            q * n <= top,
            top <= 1000000 * n,
            n > 0,
    ;
    lemma_root_exists(q);
    lemma_root_below(q, 1001);
    let m = root(q);
    if c == 0 {
        assert(is_root(0, 0));
        lemma_root_is(0, 0);
    }
    assert(magnitude(unit_part(c, n)) == m);
    assert(m * m * n <= q * n) by (nonlinear_arith)
        requires
            m * m <= q,
            n > 0,
    ;
    assert((q + 1) * n <= (m + 1) * (m + 1) * n) by (nonlinear_arith)
        requires
            q + 1 <= (m + 1) * (m + 1),
            n > 0,
    ;
}

/// Computes the share of a coordinate in a vector of squared length `n`.
pub fn unit_coordinate(c: i32, n: u64) -> (r: i32)
    requires
        n > 0,
        c * c <= n,
    ensures
        r == unit_part(c as int, n as int),
        -1000 <= r <= 1000,
{
    let wide: i64 = c as i64;
    assert(0 <= wide * wide <= 0x4000_0000_0000_0000) by (nonlinear_arith)
        requires
            -0x8000_0000 <= wide <= 0x7fff_ffff,
    ;
    proof {
        lemma_unit_part_brackets(c as int, n as int);
    }
    let square: u128 = (wide * wide) as u128;
    let q: u128 = (1000000 * square) / (n as u128);
    assert(q == (1000000 * (c * c)) / (n as int));
    assert(q <= 1000000);
    let m: i32 = isqrt(q as u64) as i32;
    if c >= 0 {
        m
    } else {
        -m
    }
}

/// A normalized vector has unit length up to rounding: it is never longer
/// than one unit, it is longer than 0.997 units, and no coordinate is
/// longer than one unit or points the other way.
pub proof fn lemma_normalized_is_unit(v: Vec2)
    requires
        v.x != 0 || v.y != 0,
    ensures
        995998 < v.normalized().norm_sq() <= 1000000,
        -1000 <= v.normalized().x <= 1000,
        -1000 <= v.normalized().y <= 1000,
        v.x >= 0 ==> v.normalized().x >= 0,
        v.x <= 0 ==> v.normalized().x <= 0,
        v.y >= 0 ==> v.normalized().y >= 0,
        v.y <= 0 ==> v.normalized().y <= 0,
{
    let x = v.x as int;
    let y = v.y as int;
    let n = v.norm_sq();
    assert(0 <= x * x && 0 <= y * y && n > 0) by (nonlinear_arith)
        requires
            n == x * x + y * y,
            x != 0 || y != 0,
    ;
    lemma_unit_part_brackets(x, n);
    lemma_unit_part_brackets(y, n);
    let a = magnitude(unit_part(x, n));
    let b = magnitude(unit_part(y, n));
    assert(v.normalized().x == unit_part(x, n) && v.normalized().y == unit_part(y, n));
    let u = v.normalized().norm_sq();
    assert(u == a * a + b * b) by (nonlinear_arith)
        requires
            u == unit_part(x, n) * unit_part(x, n) + unit_part(y, n) * unit_part(y, n),
            a == unit_part(x, n) || a == -unit_part(x, n),
            b == unit_part(y, n) || b == -unit_part(y, n),
    ;
    assert((a * a + b * b) * n == a * a * n + b * b * n) by (nonlinear_arith);
    assert(((a + 1) * (a + 1) + (b + 1) * (b + 1)) * n == (a + 1) * (a + 1) * n + (b + 1) * (b
        + 1) * n) by (nonlinear_arith);
    assert(1000000 * (x * x) + 1000000 * (y * y) == 1000000 * n);
    assert(u <= 1000000) by (nonlinear_arith)
        requires
            u * n <= 1000000 * n,
            n > 0,
    ;
    assert((a + 1) * (a + 1) + (b + 1) * (b + 1) > 1000000) by (nonlinear_arith)
        requires
            1000000 * n < ((a + 1) * (a + 1) + (b + 1) * (b + 1)) * n,
            n > 0,
    ;
    assert((a + 1) * (a + 1) + (b + 1) * (b + 1) == u + 2 * a + 2 * b + 2) by (nonlinear_arith)
        requires
            u == a * a + b * b,
    ;
}

/// Scaling a vector of at most unit length by a whole number of units
/// multiplies each coordinate by that number.
pub proof fn lemma_scaled_by_units(v: Vec2, k: int)
    requires
        -1000 <= v.x <= 1000,
        -1000 <= v.y <= 1000,
        0 <= k <= 1000,
    ensures
        v.scaled(k * 1000).x == k * v.x,
        v.scaled(k * 1000).y == k * v.y,
{
    lemma_quotient_of_multiple(v.x as int, k);
    lemma_quotient_of_multiple(v.y as int, k);
    assert(-1000000 <= k * v.x <= 1000000 && -1000000 <= k * v.y <= 1000000) by (nonlinear_arith)
        requires
            -1000 <= v.x <= 1000,
            -1000 <= v.y <= 1000,
            0 <= k <= 1000,
    ;
}

/// Dividing a multiple of one unit by one unit gives the multiplier back.
pub proof fn lemma_quotient_of_multiple(x: int, k: int)
    requires
        0 <= k,
    ensures
        quotient(x * (k * 1000), 1000) == k * x,
{
    if x * (k * 1000) >= 0 {
        assert((x * (k * 1000)) / 1000 == k * x) by (nonlinear_arith);
    } else {
        assert((-(x * (k * 1000))) / 1000 == -(k * x)) by (nonlinear_arith);
    }
}

/// The distance between two points, rounded down to a whole thousandth.
pub open spec fn distance(a: Vec2, b: Vec2) -> int {
    b.minus(a).len()
}

/// Two points are closer than `reach` exactly when the squared length of
/// their difference is below the square of `reach`.
pub proof fn lemma_distance_below(a: Vec2, b: Vec2, reach: int)
    requires
        reach >= 0,
    ensures
        distance(a, b) < reach <==> b.minus(a).norm_sq() < reach * reach,
{
    let d = b.minus(a);
    d.lemma_len_bounds();
    assert(d.norm_sq() >= 0) by {
        let r = d.len();
        assert(0 <= r * r) by (nonlinear_arith);
    }
    lemma_root_below(d.norm_sq(), reach);
}

/// Measures the distance between two points.
pub fn vec2_distance(v1: &Vec2, v2: &Vec2) -> (d: u32)
    ensures
        d == distance(*v1, *v2),
{
    Vec2::new(saturate(v2.x as i64 - v1.x as i64), saturate(v2.y as i64 - v1.y as i64)).length()
}

} // verus!
