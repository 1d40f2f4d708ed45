//! The pointer-tracking eyes: pupil placement inside an elliptical socket.
//!
//! The pupil moves from the socket center toward the pointer by six tenths
//! of each socket radius along the unit direction vector; when the pointer
//! sits exactly on the socket center the pupil stays centered. The unit
//! vector is formed with an integer square root rounded up, so the computed
//! offset never overshoots the exact one and the pupil provably stays inside
//! the socket.

use vstd::arithmetic::div_mod::lemma_div_pos_is_pos;
use vstd::arithmetic::div_mod::lemma_fundamental_div_mod;
use vstd::arithmetic::div_mod::lemma_mod_bound;
use vstd::prelude::*;

verus! {

/// Largest coordinate the eye geometry accepts, in hundredths of a pixel.
pub const COORD_MAX: i64 = 1_000_000_000;

/// Largest socket radius the eye geometry accepts, in hundredths of a pixel.
pub const SOCKET_RADIUS_MAX: i64 = 1_000_000;

/// One eye: an elliptical socket at a fixed offset from the dial center and
/// the radius of its pupil. Lengths in hundredths of a pixel.
#[derive(Clone, Copy, PartialEq, Eq, Structural, Debug)]
pub struct EyeSocket {
    pub center_x: i64,
    pub center_y: i64,
    pub radius_x: i64,
    pub radius_y: i64,
    pub pupil_radius: i64,
}

impl EyeSocket {
    /// Positive, bounded radii and bounded center coordinates.
    pub open spec fn wf(self) -> bool {
        &&& 0 < self.radius_x <= SOCKET_RADIUS_MAX
        &&& 0 < self.radius_y <= SOCKET_RADIUS_MAX
        &&& 0 < self.pupil_radius <= SOCKET_RADIUS_MAX
        &&& -COORD_MAX <= self.center_x <= COORD_MAX
        &&& -COORD_MAX <= self.center_y <= COORD_MAX
    }
}

/// `r` is the square root of `n` rounded up: the smallest non-negative
/// integer whose square reaches `n`.
pub open spec fn is_sqrt_ceil(n: int, r: int) -> bool {
    &&& r >= 0
    &&& n <= r * r
    &&& (r == 0 || (r - 1) * (r - 1) < n)
}

/// The square root of `n` rounded up, and zero for non-positive `n`.
pub open spec fn sqrt_ceil(n: int) -> int
    decreases n,
{
    if n <= 0 {
        0
    } else if sqrt_ceil(n - 1) * sqrt_ceil(n - 1) >= n {
        sqrt_ceil(n - 1)
    } else {
        sqrt_ceil(n - 1) + 1
    }
}

/// `sqrt_ceil` meets its characterization.
pub proof fn lemma_sqrt_ceil_is_sqrt_ceil(n: int)
    ensures
        is_sqrt_ceil(n, sqrt_ceil(n)),
    decreases n,
{
    if n <= 0 {
    } else {
        lemma_sqrt_ceil_is_sqrt_ceil(n - 1);
        let s = sqrt_ceil(n - 1);
        if s * s >= n {
            if s > 0 {
                assert((s - 1) * (s - 1) < n - 1 || n - 1 <= 0);
            }
        } else {
            assert(n <= (s + 1) * (s + 1)) by (nonlinear_arith)
                requires
                    n - 1 <= s * s,
                    s >= 0,
            ;
        }
    }
}

/// Only one integer is the rounded-up square root of `n`.
pub proof fn lemma_sqrt_ceil_unique(n: int, r1: int, r2: int)
    requires
        is_sqrt_ceil(n, r1),
        is_sqrt_ceil(n, r2),
    ensures
        r1 == r2,
{
    assert(r1 == r2) by (nonlinear_arith)
        requires
            r1 >= 0 && n <= r1 * r1 && (r1 == 0 || (r1 - 1) * (r1 - 1) < n),
            r2 >= 0 && n <= r2 * r2 && (r2 == 0 || (r2 - 1) * (r2 - 1) < n),
    ;
}

/// The square root rounded up, computed by binary search for the rounded-down
/// root and then adjusting.
fn sqrt_ceil_u64(n: u64) -> (r: u64)
    ensures
        is_sqrt_ceil(n as int, r as int),
        r == sqrt_ceil(n as int),
{
    let mut lo: u64 = 0;
    let mut hi: u64 = 0xFFFF_FFFF;
    if n >= 0xFFFF_FFFE_0000_0001 {
        lo = 0xFFFF_FFFF;
    }
    while lo < hi
        invariant
            lo <= hi <= 0xFFFF_FFFF,
            lo * lo <= n,
            n < (hi + 1) * (hi + 1),
        decreases hi - lo,
    {
        let mid: u64 = lo + (hi - lo + 1) / 2;
        assert(lo < mid <= hi);
        assert(mid * mid <= 0xFFFF_FFFE_0000_0001) by (nonlinear_arith)
            requires
                mid <= 0xFFFF_FFFF,
        ;
        if mid * mid <= n {
            lo = mid;
        } else {
            hi = mid - 1;
        }
    }
    assert(lo * lo <= 0xFFFF_FFFE_0000_0001) by (nonlinear_arith)
        requires
            lo <= 0xFFFF_FFFF,
    ;
    let r: u64 = if lo * lo == n {
        lo
    } else {
        lo + 1
    };
    proof {
        if lo * lo == n && lo > 0 {
            assert((lo - 1) * (lo - 1) < lo * lo) by (nonlinear_arith)
                requires
                    lo >= 1,
            ;
        }
        assert(is_sqrt_ceil(n as int, r as int));
        lemma_sqrt_ceil_is_sqrt_ceil(n as int);
        lemma_sqrt_ceil_unique(n as int, r as int, sqrt_ceil(n as int));
    }
    r
}

/// Magnitude of a difference of bounded coordinates.
fn abs_diff(a: i64, b: i64) -> (r: u64)
    requires
        -COORD_MAX <= a <= COORD_MAX,
        -2 * COORD_MAX <= b <= 2 * COORD_MAX,
    ensures
        r == if a >= b {
            a - b
        } else {
            b - a
        },
{
    if a >= b {
        (a - b) as u64
    } else {
        (b - a) as u64
    }
}

/// Where the pupil of `socket` sits when the pointer is at `(px, py)`: on
/// the socket center when the pointer is there, otherwise moved toward the
/// pointer by six tenths of each socket radius along the unit direction
/// vector, every division rounded down.
pub open spec fn pupil_center_spec(socket: EyeSocket, px: int, py: int) -> (int, int) {
    let dx = px - socket.center_x;
    let dy = py - socket.center_y;
    let d2 = dx * dx + dy * dy;
    if d2 == 0 {
        (socket.center_x as int, socket.center_y as int)
    } else {
        let q = sqrt_ceil(d2);
        let ox = 6 * socket.radius_x * abs_of(dx) / (10 * q);
        let oy = 6 * socket.radius_y * abs_of(dy) / (10 * q);
        (socket.center_x + sign_of(dx) * ox, socket.center_y + sign_of(dy) * oy)
    }
}

/// The absolute value of an integer.
pub open spec fn abs_of(a: int) -> int {
    if a >= 0 {
        a
    } else {
        -a
    }
}

/// The sign of an integer: -1, 0 or 1.
pub open spec fn sign_of(a: int) -> int {
    if a > 0 {
        1
    } else if a == 0 {
        0
    } else {
        -1
    }
}

/// Computes the pupil center for one socket and the current pointer sample.
pub fn pupil_center(socket: &EyeSocket, px: i64, py: i64) -> (r: (i64, i64))
    requires
        socket.wf(),
        -COORD_MAX <= px <= COORD_MAX,
        -COORD_MAX <= py <= COORD_MAX,
    ensures
        (r.0 as int, r.1 as int) == pupil_center_spec(*socket, px as int, py as int),
        socket.center_x - socket.radius_x <= r.0 <= socket.center_x + socket.radius_x,
        socket.center_y - socket.radius_y <= r.1 <= socket.center_y + socket.radius_y,
{
    let adx: u64 = abs_diff(px, socket.center_x);
    let ady: u64 = abs_diff(py, socket.center_y);
    let ghost dx = px - socket.center_x;
    let ghost dy = py - socket.center_y;
    assert(adx * adx <= 4_410_000_000_000_000_000) by (nonlinear_arith)
        requires
            0 <= adx <= 2_100_000_000,
    ;
    assert(ady * ady <= 4_410_000_000_000_000_000) by (nonlinear_arith)
        requires
            0 <= ady <= 2_100_000_000,
    ;
    let d2: u64 = adx * adx + ady * ady;
    proof {
        assert(d2 == dx * dx + dy * dy) by (nonlinear_arith)
            requires
                d2 == adx * adx + ady * ady,
                adx == dx || adx == -dx,
                ady == dy || ady == -dy,
        ;
    }
    if d2 == 0 {
        return (socket.center_x, socket.center_y);
    }
    let q: u64 = sqrt_ceil_u64(d2);
    proof {
        assert(q >= adx && q >= ady && q >= 1) by (nonlinear_arith)
            requires
                d2 <= q * q,
                d2 == adx * adx + ady * ady,
                d2 > 0,
                q >= 0,
                adx >= 0,
                ady >= 0,
        ;
        assert(6 * (socket.radius_x as int) * adx <= 12_600_000_000_000_000) by (nonlinear_arith)
            requires
                0 < socket.radius_x <= 1_000_000,
                0 <= adx <= 2_100_000_000,
        ;
        assert(6 * (socket.radius_y as int) * ady <= 12_600_000_000_000_000) by (nonlinear_arith)
            requires
                0 < socket.radius_y <= 1_000_000,
                0 <= ady <= 2_100_000_000,
        ;
        assert(q <= 0x1_0000_0000) by (nonlinear_arith)
            requires
                q >= 1,
                (q - 1) * (q - 1) < d2,
                d2 <= 0xFFFF_FFFF_FFFF_FFFF,
        ;
    }
    let ox: u64 = 6 * (socket.radius_x as u64) * adx / (10 * q);
    let oy: u64 = 6 * (socket.radius_y as u64) * ady / (10 * q);
    proof {
        lemma_offset_at_most_radius(socket.radius_x as int, adx as int, q as int);
        lemma_offset_at_most_radius(socket.radius_y as int, ady as int, q as int);
    }
    let rx: i64 = if px >= socket.center_x {
        socket.center_x + ox as i64
    } else {
        socket.center_x - ox as i64
    };
    let ry: i64 = if py >= socket.center_y {
        socket.center_y + oy as i64
    } else {
        socket.center_y - oy as i64
    };
    proof {
        assert(dx * dx + dy * dy > 0);
        assert(q as int == sqrt_ceil(dx * dx + dy * dy));
        assert(ox as int == 6 * (socket.radius_x as int) * abs_of(dx) / (10 * (q as int)));
        assert(oy as int == 6 * (socket.radius_y as int) * abs_of(dy) / (10 * (q as int)));
        if dx == 0 {
            assert(adx == 0);
            assert(6 * (socket.radius_x as int) * (adx as int) == 0) by (nonlinear_arith)
                requires
                    adx == 0,
            ;
            assert(0int / (10 * (q as int)) == 0) by (nonlinear_arith)
                requires
                    q >= 1,
            ;
            assert(ox == 0);
        }
        if dy == 0 {
            assert(ady == 0);
            assert(6 * (socket.radius_y as int) * (ady as int) == 0) by (nonlinear_arith)
                requires
                    ady == 0,
            ;
            assert(0int / (10 * (q as int)) == 0) by (nonlinear_arith)
                requires
                    q >= 1,
            ;
            assert(oy == 0);
        }
        lemma_signed_offset(dx, ox as int, socket.center_x as int, rx as int);
        lemma_signed_offset(dy, oy as int, socket.center_y as int, ry as int);
    }
    (rx, ry)
}

/// Applying a non-negative offset in the direction of `dx` is the same as
/// adding the sign-scaled offset.
proof fn lemma_signed_offset(dx: int, ox: int, c: int, r: int)
    requires
        ox >= 0,
        dx == 0 ==> ox == 0,
        r == if dx >= 0 {
            c + ox
        } else {
            c - ox
        },
    ensures
        r == c + sign_of(dx) * ox,
{
    if dx > 0 {
        assert(sign_of(dx) * ox == ox) by (nonlinear_arith)
            requires
                sign_of(dx) == 1,
        ;
    } else if dx == 0 {
        assert(sign_of(dx) * ox == 0) by (nonlinear_arith)
            requires
                sign_of(dx) == 0,
        ;
    } else {
        assert(sign_of(dx) * ox == -ox) by (nonlinear_arith)
            requires
                sign_of(dx) == -1,
        ;
    }
}

/// The larger socket radius.
pub open spec fn socket_radius_max(socket: EyeSocket) -> int {
    if socket.radius_x >= socket.radius_y {
        socket.radius_x as int
    } else {
        socket.radius_y as int
    }
}

/// A pointer exactly on the socket center leaves the pupil exactly on the
/// socket center: the direction vector is the zero vector, nothing is
/// divided, nothing moves.
pub proof fn lemma_pupil_at_socket_center(socket: EyeSocket, px: int, py: int)
    requires
        px == socket.center_x,
        py == socket.center_y,
    ensures
        pupil_center_spec(socket, px, py) == (socket.center_x as int, socket.center_y as int),
{
}

/// One truncated offset component, squared and cross-multiplied to avoid
/// division: from `o == 6 * radius * a / (10 * q)` rounded down it follows
/// that `100 * q^2 * o^2` stays under `36 * radius^2 * a^2`.
proof fn lemma_offset_component_sq(radius: int, a: int, q: int, o: int)
    requires
        0 <= radius,
        0 <= a,
        1 <= q,
        o == 6 * radius * a / (10 * q),
    ensures
        0 <= o,
        100 * (q * q) * (o * o) <= 36 * (radius * radius) * (a * a),
{
    let num = 6 * radius * a;
    let den = 10 * q;
    assert(num >= 0) by (nonlinear_arith)
        requires
            num == 6 * radius * a,
            0 <= radius,
            0 <= a,
    ;
    lemma_div_pos_is_pos(num, den);
    lemma_fundamental_div_mod(num, den);
    lemma_mod_bound(num, den);
    assert(den * o <= num);
    assert((den * o) * (den * o) <= num * num) by (nonlinear_arith)
        requires
            0 <= den * o,
            den * o <= num,
    ;
    assert((den * o) * (den * o) == 100 * (q * q) * (o * o)) by (nonlinear_arith)
        requires
            den == 10 * q,
    ;
    assert(num * num == 36 * (radius * radius) * (a * a)) by (nonlinear_arith)
        requires
            num == 6 * radius * a,
    ;
}

/// The pupil stays inside the socket: for every pointer position, the
/// distance from the pupil center to the socket center is at most six
/// tenths of the larger socket radius. Stated exactly over integers with
/// both sides squared and scaled by 100.
pub proof fn lemma_pupil_within_socket(socket: EyeSocket, px: int, py: int)
    requires
        socket.wf(),
    ensures
        ({
            let (ux, uy) = pupil_center_spec(socket, px, py);
            let m = socket_radius_max(socket);
            100 * ((ux - socket.center_x) * (ux - socket.center_x) + (uy - socket.center_y)
                * (uy - socket.center_y)) <= 36 * (m * m)
        }),
{
    let dx = px - socket.center_x;
    let dy = py - socket.center_y;
    let d2 = dx * dx + dy * dy;
    let m = socket_radius_max(socket);
    assert(0 < m);
    if d2 == 0 {
        let (ux, uy) = pupil_center_spec(socket, px, py);
        assert(ux == socket.center_x && uy == socket.center_y);
        assert((ux - socket.center_x) * (ux - socket.center_x) == 0 && (uy - socket.center_y) * (
        uy - socket.center_y) == 0 && 36 * (m * m) >= 0) by (nonlinear_arith)
            requires
                ux == socket.center_x,
                uy == socket.center_y,
                0 < m,
        ;
    } else {
        assert(d2 > 0) by (nonlinear_arith)
            requires
                d2 == dx * dx + dy * dy,
                d2 != 0,
        ;
        lemma_sqrt_ceil_is_sqrt_ceil(d2);
        let q = sqrt_ceil(d2);
        assert(q >= 1) by (nonlinear_arith)
            requires
                d2 > 0,
                d2 <= q * q,
                q >= 0,
        ;
        let adx = abs_of(dx);
        let ady = abs_of(dy);
        let ox = 6 * socket.radius_x * adx / (10 * q);
        let oy = 6 * socket.radius_y * ady / (10 * q);
        lemma_offset_component_sq(socket.radius_x as int, adx, q, ox);
        lemma_offset_component_sq(socket.radius_y as int, ady, q, oy);
        if dx == 0 {
            assert(6 * socket.radius_x * adx == 0) by (nonlinear_arith)
                requires
                    adx == 0,
            ;
            assert(0int / (10 * q) == 0) by (nonlinear_arith)
                requires
                    q >= 1,
            ;
            assert(ox == 0);
        }
        if dy == 0 {
            assert(6 * socket.radius_y * ady == 0) by (nonlinear_arith)
                requires
                    ady == 0,
            ;
            assert(0int / (10 * q) == 0) by (nonlinear_arith)
                requires
                    q >= 1,
            ;
            assert(oy == 0);
        }
        let (ux, uy) = pupil_center_spec(socket, px, py);
        assert((ux - socket.center_x) * (ux - socket.center_x) == ox * ox) by (nonlinear_arith)
            requires
                ux - socket.center_x == sign_of(dx) * ox,
                dx != 0 || ox == 0,
                sign_of(dx) == 1 || sign_of(dx) == -1 || (sign_of(dx) == 0 && dx == 0),
        ;
        assert((uy - socket.center_y) * (uy - socket.center_y) == oy * oy) by (nonlinear_arith)
            requires
                uy - socket.center_y == sign_of(dy) * oy,
                dy != 0 || oy == 0,
                sign_of(dy) == 1 || sign_of(dy) == -1 || (sign_of(dy) == 0 && dy == 0),
        ;
        assert(36 * ((socket.radius_x as int) * (socket.radius_x as int)) * (adx * adx) + 36 * (
        (socket.radius_y as int) * (socket.radius_y as int)) * (ady * ady) <= 36 * (m * m)
            * d2) by (nonlinear_arith)
            requires
                0 < socket.radius_x <= m,
                0 < socket.radius_y <= m,
                d2 == dx * dx + dy * dy,
                adx == abs_of(dx) && (adx == dx || adx == -dx),
                ady == abs_of(dy) && (ady == dy || ady == -dy),
        ;
        assert(36 * (m * m) * d2 <= 36 * (m * m) * (q * q)) by (nonlinear_arith)
            requires
                d2 <= q * q,
                0 < m,
        ;
        assert(100 * (q * q) * (ox * ox + oy * oy) <= 36 * (m * m) * (q * q)) by (nonlinear_arith)
            requires
                100 * (q * q) * (ox * ox) + 100 * (q * q) * (oy * oy) <= 36 * (m * m) * (q * q),
        ;
        assert(100 * (ox * ox + oy * oy) <= 36 * (m * m)) by (nonlinear_arith)
            requires
                100 * (q * q) * (ox * ox + oy * oy) <= 36 * (m * m) * (q * q),
                q >= 1,
                ox * ox + oy * oy >= 0,
        ;
    }
}

/// One truncated pupil offset stays within its socket radius: the direction
/// component never exceeds the rounded-up distance.
proof fn lemma_offset_at_most_radius(radius: int, a: int, q: int)
    requires
        0 < radius,
        0 <= a <= q,
        1 <= q,
    ensures
        6 * radius * a / (10 * q) <= radius,
{
    assert(6 * radius * a <= 10 * q * radius) by (nonlinear_arith)
        requires
            0 < radius,
            0 <= a <= q,
    ;
    assert(6 * radius * a / (10 * q) <= radius) by (nonlinear_arith)
        requires
            6 * radius * a <= 10 * q * radius,
            0 < radius,
            1 <= q,
    ;
}

} // verus!
