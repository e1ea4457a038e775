//! Fixed-point line geometry.
//!
//! Every linear quantity (coordinate, length, translation) is an `i64` in
//! subpixel units: `SCALE` units make one pixel.  A rotation is a pair of
//! fixed-point components scaled by `SCALE`, so the unit vector (1, 0) is
//! stored as `(SCALE, 0)`.
//!
//! A line from (x1, y1) to (x2, y2) is rendered as a thin rectangle: its
//! length is the Euclidean distance between the endpoints (rounded down to
//! a whole subpixel) and its rotation is the direction vector divided by
//! that length, approximating (cos a, sin a) for the line's polar angle a:
//! the pair's squared norm stays within a few units of SCALE of
//! SCALE * SCALE (`lemma_rotation_unit_norm`), as the vertex pipeline's
//! unit cosine/sine convention demands.

use vstd::prelude::*;

verus! {

/// Subpixel units per pixel.
pub const SCALE: i64 = 1000;

/// Thickness of a drawn line, in subpixel units (5 pixels).
pub const LINE_THICKNESS: i64 = 5000;

/// Largest coordinate magnitude (in subpixel units) the geometry accepts;
/// keeps every intermediate product inside the 64-bit range.
pub const COORD_MAX: i64 = 1_000_000_000;

/// The integer square root: the largest r with r * r <= n.
pub open spec fn sqrt_floor(n: nat) -> nat
    decreases n,
{
    if n == 0 {
        0
    } else {
        let r = sqrt_floor((n - 1) as nat);
        if (r + 1) * (r + 1) <= n {
            r + 1
        } else {
            r
        }
    }
}

/// `sqrt_floor(n)` lies between the two consecutive squares around n.
pub proof fn lemma_sqrt_floor_bounds(n: nat)
    ensures
        sqrt_floor(n) * sqrt_floor(n) <= n,
        n < (sqrt_floor(n) + 1) * (sqrt_floor(n) + 1),
    decreases n,
{
    if n > 0 {
        lemma_sqrt_floor_bounds((n - 1) as nat);
        let r = sqrt_floor((n - 1) as nat);
        assert(sqrt_floor(n) == if (r + 1) * (r + 1) <= n {
            r + 1
        } else {
            r
        });
        let s = sqrt_floor(n);
        if (r + 1) * (r + 1) <= n {
            assert(n <= s * s);
            assert(n < (s + 1) * (s + 1)) by (nonlinear_arith)
                requires
                    n <= s * s,
            ;
        } else {
            assert(n < (s + 1) * (s + 1)) by (nonlinear_arith)
                requires
                    s == r,
                    n < (r + 1) * (r + 1),
            ;
        }
    } else {
        let s = sqrt_floor(n);
        assert(n < (s + 1) * (s + 1)) by (nonlinear_arith)
            requires
                s == 0,
                n == 0,
        ;
    }
}

/// Any r that brackets n between consecutive squares is the square root.
pub proof fn lemma_sqrt_unique(n: nat, r: nat)
    requires
        r * r <= n,
        n < (r + 1) * (r + 1),
    ensures
        r == sqrt_floor(n),
{
    lemma_sqrt_floor_bounds(n);
    let s = sqrt_floor(n);
    assert(r == s) by (nonlinear_arith)
        requires
            r * r <= n,
            n < (r + 1) * (r + 1),
            s * s <= n,
            n < (s + 1) * (s + 1),
    ;
}

/// Integer square root by bisection.
pub fn isqrt(n: u64) -> (r: u64)
    ensures
        r == sqrt_floor(n as nat),
{
    if n == 0 {
        proof {
            assert(sqrt_floor(0) == 0);
        }
        return 0;
    }
    let mut lo: u64 = 0;
    let mut hi: u64 = 4_294_967_296;  // 2^32, whose square exceeds every u64
    assert(4_294_967_296int * 4_294_967_296int == 18_446_744_073_709_551_616int);
    while hi - lo > 1
        invariant
            lo < hi <= 4_294_967_296,
            (lo as int) * (lo as int) <= n as int,
            (n as int) < (hi as int) * (hi as int),
        decreases hi - lo,
    {
        let mid: u64 = lo + (hi - lo) / 2;
        assert(lo < mid < hi);
        assert((mid as int) * (mid as int) <= u64::MAX as int) by (nonlinear_arith)
            requires
                0 <= mid as int <= 4_294_967_295int,
        ;
        let sq: u64 = mid * mid;
        if sq <= n {
            lo = mid;
        } else {
            hi = mid;
        }
    }
    proof {
        lemma_sqrt_unique(n as nat, lo as nat);
    }
    lo
}

/// The squared length of the vector between the two points.
pub open spec fn dist_sq_spec(x1: int, y1: int, x2: int, y2: int) -> int {
    (x2 - x1) * (x2 - x1) + (y2 - y1) * (y2 - y1)
}

/// The Euclidean distance between the two points, rounded down to a whole
/// subpixel.
pub open spec fn distance_spec(x1: int, y1: int, x2: int, y2: int) -> int {
    sqrt_floor(dist_sq_spec(x1, y1, x2, y2) as nat) as int
}

/// Applies the sign of `sign_of` to a nonnegative magnitude.
pub open spec fn signed(sign_of: int, magnitude: int) -> int {
    if sign_of >= 0 {
        magnitude
    } else {
        -magnitude
    }
}

/// The fixed-point rotation for direction (dx, dy): the direction divided
/// by its length, approximating (cos a, sin a) scaled by SCALE for the
/// direction's polar angle a.  A direction shorter than one pixel is
/// first scaled up by SCALE, so that the integer length it is divided by
/// always carries at least three significant digits; the squared norm of
/// the pair then stays within a few units of SCALE of SCALE * SCALE
/// (`lemma_rotation_unit_norm`).  A zero vector rotates by angle 0,
/// giving exactly (SCALE, 0).
pub open spec fn rotation_spec(dx: int, dy: int) -> (int, int) {
    let q = dx * dx + dy * dy;
    if q == 0 {
        (SCALE as int, 0int)
    } else if q < SCALE * SCALE {
        let d = sqrt_floor((SCALE * SCALE * q) as nat) as int;
        (
            signed(dx, ((vstd::math::abs(dx) * SCALE) * SCALE) / d),
            signed(dy, ((vstd::math::abs(dy) * SCALE) * SCALE) / d),
        )
    } else {
        let d = sqrt_floor(q as nat) as int;
        (
            signed(dx, (vstd::math::abs(dx) * SCALE) / d),
            signed(dy, (vstd::math::abs(dy) * SCALE) / d),
        )
    }
}

/// Magnitude of v as a u64 (v must stay clear of i64::MIN).
fn abs_u64(v: i64) -> (a: u64)
    requires
        -0x7fff_ffff_ffff_ffff <= v,
    ensures
        a == vstd::math::abs(v as int),
{
    if v >= 0 {
        v as u64
    } else {
        (-v) as u64
    }
}

/// Euclidean distance between two points, all in subpixel units.
pub fn distance(x1: i64, y1: i64, x2: i64, y2: i64) -> (d: i64)
    requires
        -COORD_MAX <= x1 <= COORD_MAX,
        -COORD_MAX <= y1 <= COORD_MAX,
        -COORD_MAX <= x2 <= COORD_MAX,
        -COORD_MAX <= y2 <= COORD_MAX,
    ensures
        d == distance_spec(x1 as int, y1 as int, x2 as int, y2 as int),
        0 <= d <= 3_000_000_000,
{
    let dx: i64 = x2 - x1;
    let dy: i64 = y2 - y1;
    let ax: u64 = abs_u64(dx);
    let ay: u64 = abs_u64(dy);
    assert((ax as int) * (ax as int) == (dx as int) * (dx as int)
        && (ax as int) * (ax as int) <= 4_000_000_000_000_000_000int) by (nonlinear_arith)
        requires
            ax == vstd::math::abs(dx as int),
            -2_000_000_000 <= dx as int <= 2_000_000_000,
    ;
    assert((ay as int) * (ay as int) == (dy as int) * (dy as int)
        && (ay as int) * (ay as int) <= 4_000_000_000_000_000_000int) by (nonlinear_arith)
        requires
            ay == vstd::math::abs(dy as int),
            -2_000_000_000 <= dy as int <= 2_000_000_000,
    ;
    let sq: u64 = ax * ax + ay * ay;
    let r: u64 = isqrt(sq);
    proof {
        lemma_sqrt_floor_bounds(sq as nat);
        assert(r <= 3_000_000_000) by (nonlinear_arith)
            requires
                (r as int) * (r as int) <= 8_000_000_000_000_000_000int,
        ;
    }
    r as i64
}

/// The fixed-point rotation of the direction from (x1, y1) to (x2, y2);
/// both components lie in [-SCALE, SCALE], and the pair is a unit vector
/// up to rounding: its squared norm deviates from SCALE * SCALE by at
/// most a few units of SCALE.
pub fn rotation(x1: i64, y1: i64, x2: i64, y2: i64) -> (rot: (i64, i64))
    requires
        -COORD_MAX <= x1 <= COORD_MAX,
        -COORD_MAX <= y1 <= COORD_MAX,
        -COORD_MAX <= x2 <= COORD_MAX,
        -COORD_MAX <= y2 <= COORD_MAX,
    ensures
        (rot.0 as int, rot.1 as int) == rotation_spec((x2 - x1) as int, (y2 - y1) as int),
        -SCALE <= rot.0 <= SCALE,
        -SCALE <= rot.1 <= SCALE,
        SCALE * SCALE - 4 * SCALE - 1 <= rot.0 * rot.0 + rot.1 * rot.1,
        rot.0 * rot.0 + rot.1 * rot.1 <= SCALE * SCALE + 2 * SCALE + 1,
{
    let dx: i64 = x2 - x1;
    let dy: i64 = y2 - y1;
    let ax: u64 = abs_u64(dx);
    let ay: u64 = abs_u64(dy);
    assert((ax as int) * (ax as int) == (dx as int) * (dx as int)
        && (ax as int) * (ax as int) <= 4_000_000_000_000_000_000int) by (nonlinear_arith)
        requires
            ax == vstd::math::abs(dx as int),
            -2_000_000_000 <= dx as int <= 2_000_000_000,
    ;
    assert((ay as int) * (ay as int) == (dy as int) * (dy as int)
        && (ay as int) * (ay as int) <= 4_000_000_000_000_000_000int) by (nonlinear_arith)
        requires
            ay == vstd::math::abs(dy as int),
            -2_000_000_000 <= dy as int <= 2_000_000_000,
    ;
    let sq: u64 = ax * ax + ay * ay;
    proof {
        lemma_rotation_unit_norm(dx as int, dy as int);
    }
    if sq == 0 {
        proof {
            assert(dx as int == 0 && dy as int == 0) by (nonlinear_arith)
                requires
                    (dx as int) * (dx as int) + (dy as int) * (dy as int) == 0,
            ;
        }
        (SCALE, 0)
    } else if sq < 1_000_000 {
        // a short direction: scale the deltas up by SCALE before
        // normalizing, so the integer length keeps its precision
        proof {
            assert(ax <= 999 && ay <= 999) by (nonlinear_arith)
                requires
                    (ax as int) * (ax as int) + (ay as int) * (ay as int) < 1_000_000,
                    0 <= ax as int,
                    0 <= ay as int,
            ;
        }
        let axs: u64 = ax * 1000;
        let ays: u64 = ay * 1000;
        proof {
            assert((axs as int) * (axs as int) + (ays as int) * (ays as int) == 1_000_000
                * (sq as int) <= 2_000_000_000_000int) by (nonlinear_arith)
                requires
                    axs == 1000 * (ax as int),
                    ays == 1000 * (ay as int),
                    sq == (ax as int) * (ax as int) + (ay as int) * (ay as int) < 1_000_000,
            ;
        }
        let sq2: u64 = axs * axs + ays * ays;
        let d2: u64 = isqrt(sq2);
        proof {
            lemma_sqrt_floor_bounds(sq2 as nat);
            assert(axs <= d2 && ays <= d2 && d2 > 0) by (nonlinear_arith)
                requires
                    (axs as int) * (axs as int) <= sq2 as int,
                    (ays as int) * (ays as int) <= sq2 as int,
                    (sq2 as int) < (d2 as int + 1) * (d2 as int + 1),
                    sq2 >= 1_000_000,
                    0 <= axs as int,
                    0 <= ays as int,
                    0 <= d2 as int,
            ;
        }
        let qx: u64 = (axs * 1000) / d2;
        let qy: u64 = (ays * 1000) / d2;
        proof {
            assert(qx <= 1000 && qy <= 1000) by (nonlinear_arith)
                requires
                    qx == (axs as int * 1000) / (d2 as int),
                    qy == (ays as int * 1000) / (d2 as int),
                    axs <= d2,
                    ays <= d2,
                    0 < d2 as int,
            ;
            // the scaled squared length is the spec's scaled square
            assert(sq2 as int == (SCALE * SCALE) * ((dx as int) * (dx as int) + (dy as int)
                * (dy as int))) by (nonlinear_arith)
                requires
                    sq2 == 1_000_000 * (sq as int),
                    sq == (ax as int) * (ax as int) + (ay as int) * (ay as int),
                    (ax as int) * (ax as int) == (dx as int) * (dx as int),
                    (ay as int) * (ay as int) == (dy as int) * (dy as int),
                    SCALE == 1000,
            ;
            // the exec numerators are the spec's numerators
            assert(axs as int * 1000 == (vstd::math::abs(dx as int) * SCALE) * SCALE
                && ays as int * 1000 == (vstd::math::abs(dy as int) * SCALE)
                * SCALE) by (nonlinear_arith)
                requires
                    axs == 1000 * (ax as int),
                    ays == 1000 * (ay as int),
                    ax == vstd::math::abs(dx as int),
                    ay == vstd::math::abs(dy as int),
                    SCALE == 1000,
            ;
        }
        let rx: i64 = if dx >= 0 {
            qx as i64
        } else {
            -(qx as i64)
        };
        let ry: i64 = if dy >= 0 {
            qy as i64
        } else {
            -(qy as i64)
        };
        (rx, ry)
    } else {
        let d: u64 = isqrt(sq);
        proof {
            lemma_sqrt_floor_bounds(sq as nat);
            // each delta magnitude is at most the whole length
            assert(ax <= d && ay <= d && d > 0) by (nonlinear_arith)
                requires
                    (ax as int) * (ax as int) <= sq as int,
                    (ay as int) * (ay as int) <= sq as int,
                    (sq as int) < (d as int + 1) * (d as int + 1),
                    sq >= 1_000_000,
                    0 <= ax as int,
                    0 <= ay as int,
                    0 <= d as int,
            ;
        }
        let qx: u64 = (ax * 1000) / d;
        let qy: u64 = (ay * 1000) / d;
        proof {
            assert(qx <= 1000 && qy <= 1000) by (nonlinear_arith)
                requires
                    qx == (ax as int * 1000) / (d as int),
                    qy == (ay as int * 1000) / (d as int),
                    ax <= d,
                    ay <= d,
                    0 < d as int,
            ;
            // the exec numerators are the spec's numerators
            assert(ax as int * 1000 == vstd::math::abs(dx as int) * SCALE && ay as int * 1000
                == vstd::math::abs(dy as int) * SCALE) by (nonlinear_arith)
                requires
                    ax == vstd::math::abs(dx as int),
                    ay == vstd::math::abs(dy as int),
                    SCALE == 1000,
            ;
        }
        let rx: i64 = if dx >= 0 {
            qx as i64
        } else {
            -(qx as i64)
        };
        let ry: i64 = if dy >= 0 {
            qy as i64
        } else {
            -(qy as i64)
        };
        (rx, ry)
    }
}

/// The six vertices (x, y interleaved) of the quad for a rectangle of the
/// given width and height, before rotation and translation.  The quad's
/// x-extent carries `height` and its y-extent carries `width`: the vertex
/// pipeline's rotation convention relies on exactly this orientation to
/// point a line's length along its direction vector.
pub open spec fn quad_seq(width: i64, height: i64) -> Seq<i64> {
    seq![
        0i64,
        0i64,
        height,
        0i64,
        0i64,
        width,
        0i64,
        width,
        height,
        0i64,
        height,
        width,
    ]
}

/// Builds the vertex quad for a rectangle of the given size.
pub fn rectangle_vertices(width: i64, height: i64) -> (v: Vec<i64>)
    ensures
        v@ == quad_seq(width, height),
{
    let mut v: Vec<i64> = Vec::new();
    v.push(0);
    v.push(0);
    v.push(height);
    v.push(0);
    v.push(0);
    v.push(width);
    v.push(0);
    v.push(width);
    v.push(height);
    v.push(0);
    v.push(height);
    v.push(width);
    proof {
        assert(v@ =~= quad_seq(width, height));
    }
    v
}

/// Converts whole pixels to subpixel units.
pub fn px(p: i64) -> (r: i64)
    requires
        -1_000_000 <= p <= 1_000_000,
    ensures
        r == p * SCALE,
        -COORD_MAX <= r <= COORD_MAX,
{
    p * SCALE
}

/// The computed distance is the Euclidean distance between the two
/// points, rounded down to a whole subpixel: it is nonnegative and its
/// square brackets the squared distance (dx * dx + dy * dy) from below,
/// with the next square strictly above.
pub proof fn lemma_distance_euclidean(x1: int, y1: int, x2: int, y2: int)
    ensures
        0 <= distance_spec(x1, y1, x2, y2),
        distance_spec(x1, y1, x2, y2) * distance_spec(x1, y1, x2, y2) <= dist_sq_spec(
            x1,
            y1,
            x2,
            y2,
        ),
        dist_sq_spec(x1, y1, x2, y2) < (distance_spec(x1, y1, x2, y2) + 1) * (distance_spec(
            x1,
            y1,
            x2,
            y2,
        ) + 1),
{
    let dx = x2 - x1;
    let dy = y2 - y1;
    assert(dx * dx >= 0 && dy * dy >= 0) by (nonlinear_arith);
    lemma_sqrt_floor_bounds(dist_sq_spec(x1, y1, x2, y2) as nat);
}

/// Norm bounds for one normalization step: with the squared length of
/// (a, b) bracketed by the consecutive squares of d, and d at least s,
/// a pair of sign-adjusted truncated quotients a * s / d and b * s / d
/// has a squared norm within [s * s - 4 * s - 1, s * s + 2 * s + 1].
proof fn lemma_div_norm_bounds(a: int, b: int, d: int, s: int, rx: int, ry: int)
    requires
        a >= 0,
        b >= 0,
        s > 0,
        d >= s,
        d * d <= a * a + b * b,
        a * a + b * b < (d + 1) * (d + 1),
        rx == (a * s) / d || rx == -((a * s) / d),
        ry == (b * s) / d || ry == -((b * s) / d),
    ensures
        s * s - 4 * s - 1 <= rx * rx + ry * ry,
        rx * rx + ry * ry <= s * s + 2 * s + 1,
{
    let px = (a * s) / d;
    let py = (b * s) / d;
    vstd::arithmetic::div_mod::lemma_fundamental_div_mod(a * s, d);
    vstd::arithmetic::div_mod::lemma_mod_bound(a * s, d);
    vstd::arithmetic::div_mod::lemma_fundamental_div_mod(b * s, d);
    vstd::arithmetic::div_mod::lemma_mod_bound(b * s, d);
    assert(px * d <= a * s && a * s < (px + 1) * d && py * d <= b * s && b * s < (py + 1)
        * d) by (nonlinear_arith)
        requires
            a * s == d * px + (a * s) % d,
            b * s == d * py + (b * s) % d,
            0 <= (a * s) % d < d,
            0 <= (b * s) % d < d,
    ;
    assert(a <= d && b <= d) by (nonlinear_arith)
        requires
            a >= 0,
            b >= 0,
            d >= 0,
            a * a + b * b < (d + 1) * (d + 1),
    ;
    assert(0 <= px <= s && 0 <= py <= s) by (nonlinear_arith)
        requires
            px * d <= a * s,
            a * s < (px + 1) * d,
            py * d <= b * s,
            b * s < (py + 1) * d,
            0 <= a <= d,
            0 <= b <= d,
            s > 0,
            d > 0,
    ;
    assert(0 <= a * s && 0 <= b * s) by (nonlinear_arith)
        requires
            a >= 0,
            b >= 0,
            s > 0,
    ;
    // ring identities that let the scaled sums be compared term by term
    assert((px * px + py * py) * (d * d) == (px * d) * (px * d) + (py * d) * (py
        * d)) by (nonlinear_arith);
    assert((a * a + b * b) * (s * s) == (a * s) * (a * s) + (b * s) * (b * s)) by (nonlinear_arith);
    assert(((px + 1) * (px + 1) + (py + 1) * (py + 1)) * (d * d) == ((px + 1) * d) * ((px + 1)
        * d) + ((py + 1) * d) * ((py + 1) * d)) by (nonlinear_arith);
    // upper bound: the scaled quotients undershoot the scaled deltas
    assert((px * d) * (px * d) <= (a * s) * (a * s) && (py * d) * (py * d) <= (b * s) * (b
        * s)) by (nonlinear_arith)
        requires
            0 <= px,
            0 <= py,
            d > 0,
            px * d <= a * s,
            py * d <= b * s,
    ;
    assert(px * px + py * py <= s * s + 2 * s + 1) by (nonlinear_arith)
        requires
            (px * px + py * py) * (d * d) <= (a * a + b * b) * (s * s),
            a * a + b * b < (d + 1) * (d + 1),
            d >= s,
            s > 0,
    ;
    // lower bound: the quotients plus one overshoot the scaled deltas
    assert((a * s) * (a * s) < ((px + 1) * d) * ((px + 1) * d) && (b * s) * (b * s) < ((py + 1)
        * d) * ((py + 1) * d)) by (nonlinear_arith)
        requires
            0 <= a * s,
            0 <= b * s,
            a * s < (px + 1) * d,
            b * s < (py + 1) * d,
    ;
    assert((d * d) * (s * s) <= (a * a + b * b) * (s * s)) by (nonlinear_arith)
        requires
            d * d <= a * a + b * b,
            s > 0,
    ;
    assert(s * s < (px + 1) * (px + 1) + (py + 1) * (py + 1)) by (nonlinear_arith)
        requires
            (d * d) * (s * s) < ((px + 1) * (px + 1) + (py + 1) * (py + 1)) * (d * d),
            d > 0,
    ;
    assert(s * s - 4 * s - 1 <= px * px + py * py) by (nonlinear_arith)
        requires
            s * s < (px + 1) * (px + 1) + (py + 1) * (py + 1),
            0 <= px <= s,
            0 <= py <= s,
    ;
    assert(rx * rx + ry * ry == px * px + py * py) by (nonlinear_arith)
        requires
            rx == px || rx == -px,
            ry == py || ry == -py,
    ;
}

/// The rotation pair is a unit vector up to rounding: for every
/// direction, its squared norm deviates from SCALE * SCALE by at most
/// 4 * SCALE + 1 below and 2 * SCALE + 1 above (a relative error of a
/// few tenths of a percent).  The zero direction gives exactly
/// (SCALE, 0).
pub proof fn lemma_rotation_unit_norm(dx: int, dy: int)
    ensures
        SCALE * SCALE - 4 * SCALE - 1 <= rotation_spec(dx, dy).0 * rotation_spec(dx, dy).0
            + rotation_spec(dx, dy).1 * rotation_spec(dx, dy).1,
        rotation_spec(dx, dy).0 * rotation_spec(dx, dy).0 + rotation_spec(dx, dy).1
            * rotation_spec(dx, dy).1 <= SCALE * SCALE + 2 * SCALE + 1,
{
    let s = SCALE as int;
    let q = dx * dx + dy * dy;
    let ax = vstd::math::abs(dx) as int;
    let ay = vstd::math::abs(dy) as int;
    assert(ax * ax == dx * dx && ay * ay == dy * dy && ax >= 0 && ay >= 0) by (nonlinear_arith)
        requires
            ax == vstd::math::abs(dx),
            ay == vstd::math::abs(dy),
    ;
    if q == 0 {
        assert(rotation_spec(dx, dy).0 * rotation_spec(dx, dy).0 + rotation_spec(dx, dy).1
            * rotation_spec(dx, dy).1 == s * s) by (nonlinear_arith)
            requires
                rotation_spec(dx, dy).0 == s,
                rotation_spec(dx, dy).1 == 0,
        ;
    } else if q < s * s {
        let d = sqrt_floor((SCALE * SCALE * q) as nat) as int;
        assert(s * s * q >= s * s && q >= 1) by (nonlinear_arith)
            requires
                s > 0,
                q > 0,
        ;
        lemma_sqrt_floor_bounds((SCALE * SCALE * q) as nat);
        let a2 = ax * s;
        let b2 = ay * s;
        assert(a2 * a2 + b2 * b2 == s * s * q && a2 >= 0 && b2 >= 0) by (nonlinear_arith)
            requires
                a2 == ax * s,
                b2 == ay * s,
                ax * ax == dx * dx,
                ay * ay == dy * dy,
                q == dx * dx + dy * dy,
                ax >= 0,
                ay >= 0,
                s > 0,
    ;
        assert(d >= s) by (nonlinear_arith)
            requires
                s * s * q < (d + 1) * (d + 1),
                s * s * q >= s * s,
                d >= 0,
                s > 0,
        ;
        assert(rotation_spec(dx, dy).0 == (a2 * s) / d || rotation_spec(dx, dy).0 == -((a2 * s)
            / d));
        assert(rotation_spec(dx, dy).1 == (b2 * s) / d || rotation_spec(dx, dy).1 == -((b2 * s)
            / d));
        lemma_div_norm_bounds(a2, b2, d, s, rotation_spec(dx, dy).0, rotation_spec(dx, dy).1);
    } else {
        let d = sqrt_floor(q as nat) as int;
        lemma_sqrt_floor_bounds(q as nat);
        assert(d >= s) by (nonlinear_arith)
            requires
                q < (d + 1) * (d + 1),
                q >= s * s,
                d >= 0,
                s > 0,
        ;
        assert(rotation_spec(dx, dy).0 == (ax * s) / d || rotation_spec(dx, dy).0 == -((ax * s)
            / d));
        assert(rotation_spec(dx, dy).1 == (ay * s) / d || rotation_spec(dx, dy).1 == -((ay * s)
            / d));
        lemma_div_norm_bounds(ax, ay, d, s, rotation_spec(dx, dy).0, rotation_spec(dx, dy).1);
    }
}

/// An axis-aligned direction rotates exactly: a direction along +x keeps
/// rotation (SCALE, 0) (angle 0), along -x gives (-SCALE, 0) (angle pi),
/// along +y gives (0, SCALE) (angle pi/2) and along -y gives (0, -SCALE).
pub proof fn lemma_axis_rotation(dx: int, dy: int)
    requires
        dx != 0 || dy != 0,
        dx == 0 || dy == 0,
    ensures
        dx > 0 && dy == 0 ==> rotation_spec(dx, dy) == (SCALE as int, 0int),
        dx < 0 && dy == 0 ==> rotation_spec(dx, dy) == (-SCALE as int, 0int),
        dx == 0 && dy > 0 ==> rotation_spec(dx, dy) == (0int, SCALE as int),
        dx == 0 && dy < 0 ==> rotation_spec(dx, dy) == (0int, -SCALE as int),
{
    let a: int = if dx != 0 {
        vstd::math::abs(dx) as int
    } else {
        vstd::math::abs(dy) as int
    };
    let z: int = if dx != 0 {
        vstd::math::abs(dy) as int
    } else {
        vstd::math::abs(dx) as int
    };
    let q = dx * dx + dy * dy;
    assert(q == a * a && a > 0 && z == 0) by (nonlinear_arith)
        requires
            dx != 0 || dy != 0,
            dx == 0 || dy == 0,
            q == dx * dx + dy * dy,
            a == if dx != 0 {
                vstd::math::abs(dx)
            } else {
                vstd::math::abs(dy)
            },
            z == if dx != 0 {
                vstd::math::abs(dy)
            } else {
                vstd::math::abs(dx)
            },
            vstd::math::abs(dx) == (if dx < 0 {
                -dx
            } else {
                dx
            }),
            vstd::math::abs(dy) == (if dy < 0 {
                -dy
            } else {
                dy
            }),
    ;
    if q < SCALE * SCALE {
        assert(SCALE * SCALE * q == (SCALE * a) * (SCALE * a) && SCALE * a > 0 && (SCALE * a)
            * (SCALE * a) < (SCALE * a + 1) * (SCALE * a + 1)) by (nonlinear_arith)
            requires
                q == a * a,
                a > 0,
                SCALE == 1000,
        ;
        lemma_sqrt_unique((SCALE * SCALE * q) as nat, (SCALE * a) as nat);
        let d = sqrt_floor((SCALE * SCALE * q) as nat) as int;
        assert(((a * SCALE) * SCALE) / d == SCALE && ((z * SCALE) * SCALE) / d
            == 0) by (nonlinear_arith)
            requires
                d == SCALE * a,
                a > 0,
                z == 0,
                SCALE == 1000,
        ;
    } else {
        assert(a * a <= q < (a + 1) * (a + 1)) by (nonlinear_arith)
            requires
                q == a * a,
                a >= 0,
        ;
        lemma_sqrt_unique(q as nat, a as nat);
        let d = sqrt_floor(q as nat) as int;
        assert((a * SCALE) / d == SCALE && (z * SCALE) / d == 0) by (nonlinear_arith)
            requires
                d == a,
                a > 0,
                z == 0,
                SCALE == 1000,
        ;
    }
}

/// A zero-length line has distance 0, and the zero direction rotates by
/// angle 0: its rotation is the fixed-point (cos 0, sin 0) = (SCALE, 0).
pub proof fn lemma_zero_length_line(x: int, y: int)
    ensures
        distance_spec(x, y, x, y) == 0,
        rotation_spec(0, 0) == (SCALE as int, 0int),
{
    assert(dist_sq_spec(x, y, x, y) == 0) by (nonlinear_arith);
    assert(sqrt_floor(0) == 0);
}

} // verus!
