//! Procedural initial contents for the field buffers, computed on the host
//! in fixed-point arithmetic and bulk-uploaded at startup.
//!
//! Two deterministic generators are provided: a divergence-free rotational
//! (tornado-shaped) velocity field, and a radially decaying density blob.
//! Samples are fixed-point numbers with `Q16_ONE` standing for one; the
//! application converts them to the device's half-precision channel words
//! before packing and uploading.

use vstd::prelude::*;
use vstd::arithmetic::div_mod::{
    lemma_div_is_ordered, lemma_div_is_ordered_by_denominator, lemma_div_multiples_vanish,
    lemma_div_pos_is_pos, lemma_fundamental_div_mod_converse, lemma_mod_bound,
    lemma_multiply_divide_le, lemma_multiply_divide_lt,
};
use vstd::arithmetic::mul::{lemma_mul_inequality, lemma_mul_strict_inequality};
use vstd::arithmetic::power2::{lemma2_to64, lemma_pow2_pos, lemma_pow2_strictly_increases, pow2};
use vstd::bits::lemma_u32_shr_is_div;
use crate::texture::voxel_index;

verus! {

/// The fixed-point scale of every generated sample: `Q16_ONE` stands for
/// one, so a sample `v` stands for the real number `v / 65536`.
pub const Q16_ONE: u32 = 65536;

/// The integer square root: the largest `s` with `s * s <= v`.
pub open spec fn sqrt_floor(v: nat) -> nat
    decreases v,
{
    if v == 0 {
        0
    } else {
        let s = sqrt_floor((v - 1) as nat);
        if (s + 1) * (s + 1) <= v {
            s + 1
        } else {
            s
        }
    }
}

/// `sqrt_floor` really is the floor of the square root.
pub proof fn lemma_sqrt_floor_bounds(v: nat)
    ensures
        sqrt_floor(v) * sqrt_floor(v) <= v,
        v < (sqrt_floor(v) + 1) * (sqrt_floor(v) + 1),
    decreases v,
{
    if v > 0 {
        lemma_sqrt_floor_bounds((v - 1) as nat);
        let s = sqrt_floor((v - 1) as nat);
        if (s + 1) * (s + 1) <= v {
            // the induction hypothesis gives v <= (s + 1) * (s + 1), so the
            // new root is exact and one step larger still brackets v
            assert(sqrt_floor(v) == s + 1);
            assert((s + 1 + 1) * (s + 1 + 1) > (s + 1) * (s + 1)) by (nonlinear_arith);
        } else {
            assert(sqrt_floor(v) == s);
        }
    } else {
        assert(v < (sqrt_floor(v) + 1) * (sqrt_floor(v) + 1)) by (nonlinear_arith)
            requires
                v == 0,
                sqrt_floor(v) == 0,
        ;
    }
}

/// No two naturals bracket `v` the way the floor square root does.
pub proof fn lemma_sqrt_floor_unique(v: nat, r: nat)
    requires
        r * r <= v,
        v < (r + 1) * (r + 1),
    ensures
        r == sqrt_floor(v),
{
    lemma_sqrt_floor_bounds(v);
    let s = sqrt_floor(v);
    if r < s {
        assert((r + 1) * (r + 1) <= s * s) by (nonlinear_arith)
            requires
                r + 1 <= s,
        ;
    } else if s < r {
        assert((s + 1) * (s + 1) <= r * r) by (nonlinear_arith)
            requires
                s + 1 <= r,
        ;
    }
}

/// The integer square root, by bisection.
pub fn isqrt64(v: u64) -> (r: u64)
    requires
        v < 0x4000000000000000,
    ensures
        r == sqrt_floor(v as nat),
        r * r <= v,
        v < (r + 1) * (r + 1),
{
    let mut lo: u64 = 0;
    let mut hi: u64 = 0x80000000;
    while lo + 1 < hi
        invariant
            lo < hi <= 0x80000000,
            lo * lo <= v,
            (v as int) < (hi as int) * (hi as int),
        decreases hi - lo,
    {
        let mid = lo + (hi - lo) / 2;
        proof {
            assert(lo < mid < hi);
            assert((mid as int) * (mid as int) < 0x4000000000000000) by (nonlinear_arith)
                requires
                    0 <= (mid as int) < 0x80000000,
            ;
        }
        if mid * mid <= v {
            lo = mid;
        } else {
            hi = mid;
        }
    }
    proof {
        lemma_sqrt_floor_unique(v as nat, lo as nat);
    }
    lo
}

/// The fixed-point coordinate of the center of grid cell `i` out of `n`,
/// mapped into the unit interval from minus one to one: the value
/// `((2 i + 1) / n - 1)` scaled by `Q16_ONE`, rounded toward zero.
pub open spec fn unit_coord_q16_spec(i: int, n: int) -> int {
    if 2 * i + 1 >= n {
        ((2 * i + 1 - n) * 65536) / n
    } else {
        -(((n - 2 * i - 1) * 65536) / n)
    }
}

/// Maps the cell index `i` of a grid axis of `n` cells to the fixed-point
/// coordinate of the cell's center within the axis-aligned unit box.
pub fn unit_coord_q16(i: u32, n: u32) -> (r: i32)
    requires
        0 < n <= 65536,
        i < n,
    ensures
        r == unit_coord_q16_spec(i as int, n as int),
        -65536 < r < 65536,
{
    let two_i_plus_1: u64 = 2 * (i as u64) + 1;
    if two_i_plus_1 >= n as u64 {
        let num = two_i_plus_1 - (n as u64);
        let q = (num * 65536) / (n as u64);
        proof {
            lemma_mul_strict_inequality(num as int, n as int, 65536);
            lemma_multiply_divide_lt((num * 65536) as int, n as int, 65536);
        }
        q as i32
    } else {
        let num = (n as u64) - two_i_plus_1;
        let q = (num * 65536) / (n as u64);
        proof {
            lemma_mul_strict_inequality(num as int, n as int, 65536);
            lemma_multiply_divide_lt((num * 65536) as int, n as int, 65536);
        }
        -(q as i32)
    }
}

/// Fixed-point division of a sample by a magnitude: `(a / s)` scaled by
/// `Q16_ONE`, rounded toward zero.
pub open spec fn scale_div_q16_spec(a: int, s: int) -> int {
    if a >= 0 {
        (a * 65536) / s
    } else {
        -((-a * 65536) / s)
    }
}

/// Divides the fixed-point sample `a` by the magnitude `s`, staying in
/// fixed point.  The magnitude must dominate the sample, so the quotient
/// never leaves the unit range.
fn scale_div_q16(a: i32, s: u64) -> (r: i32)
    requires
        1 <= s < 0x80000000,
        -65537 < a < 65537,
        (a as int) * (a as int) <= (s as int) * (s as int),
    ensures
        r == scale_div_q16_spec(a as int, s as int),
        -65536 <= r <= 65536,
{
    proof {
        if a >= 0 {
            assert(a as int <= s as int) by (nonlinear_arith)
                requires
                    0 <= a as int,
                    1 <= s as int,
                    (a as int) * (a as int) <= (s as int) * (s as int),
            ;
        } else {
            assert(-(a as int) <= s as int) by (nonlinear_arith)
                requires
                    (a as int) < 0,
                    1 <= s as int,
                    (a as int) * (a as int) <= (s as int) * (s as int),
            ;
        }
    }
    if a >= 0 {
        let q = ((a as u64) * 65536) / s;
        proof {
            lemma_mul_inequality(a as int, s as int, 65536);
            lemma_multiply_divide_le((a as int) * 65536, s as int, 65536);
        }
        q as i32
    } else {
        let m = (-a) as u64;
        let q = (m * 65536) / s;
        proof {
            lemma_mul_inequality(m as int, s as int, 65536);
            lemma_multiply_divide_le((m as int) * 65536, s as int, 65536);
        }
        -(q as i32)
    }
}

/// Squared distance below which a point counts as lying on the grid's
/// vertical axis, where the rotational direction is undefined; in the
/// squared fixed-point scale this is about one millionth.
pub const TORNADO_EPS_Q32: i64 = 4295;

/// One fixed-point sample of the tornado velocity field: a 3-vector.
#[derive(Clone, Copy, Debug, PartialEq, Eq, Structural)]
pub struct VelocityQ16 {
    pub x: i32,
    pub y: i32,
    pub z: i32,
}

/// An integer whose square stays under the next square is itself bounded by
/// the root.
proof fn lemma_square_dominated(a: int, s: int)
    requires
        s >= 0,
        a * a < (s + 1) * (s + 1),
    ensures
        a * a <= s * s,
        -s <= a <= s,
{
    assert(-s <= a <= s) by (nonlinear_arith)
        requires
            s >= 0,
            a * a < (s + 1) * (s + 1),
    ;
    assert(a * a <= s * s) by (nonlinear_arith)
        requires
            -s <= a <= s,
    ;
}

/// The tornado velocity at the cell column `(x, z)` of a grid of side
/// length `n`: the unit tangent around the grid's vertical axis, in fixed
/// point — the normalized vector `(pz, 0, -px)` for the cell center
/// `(px, pz)` of the horizontal unit box, or zero on the axis itself.
pub open spec fn tornado_velocity_spec(x: int, z: int, n: int) -> (int, int, int) {
    let px = unit_coord_q16_spec(x, n);
    let pz = unit_coord_q16_spec(z, n);
    let r2 = px * px + pz * pz;
    if r2 < TORNADO_EPS_Q32 {
        (0, 0, 0)
    } else {
        let s = sqrt_floor(r2 as nat) as int;
        (scale_div_q16_spec(pz, s), 0, scale_div_q16_spec(-px, s))
    }
}

/// Computes the tornado velocity sample of one grid cell column.  The
/// vertical component is always zero and the horizontal components never
/// leave the fixed-point unit range.
pub fn tornado_velocity_at(x: u32, z: u32, n: u32) -> (v: VelocityQ16)
    requires
        0 < n <= 65536,
        x < n,
        z < n,
    ensures
        (v.x as int, v.y as int, v.z as int) == tornado_velocity_spec(x as int, z as int, n as int),
        -65536 <= v.x <= 65536,
        v.y == 0,
        -65536 <= v.z <= 65536,
{
    let px = unit_coord_q16(x, n);
    let pz = unit_coord_q16(z, n);
    proof {
        assert(0 <= (px as int) * (px as int) < 0x100000000 && 0 <= (pz as int) * (pz as int)
            < 0x100000000) by (nonlinear_arith)
            requires
                -65536 < (px as int) < 65536,
                -65536 < (pz as int) < 65536,
        ;
    }
    let r2: i64 = (px as i64) * (px as i64) + (pz as i64) * (pz as i64);
    if r2 < TORNADO_EPS_Q32 {
        VelocityQ16 { x: 0, y: 0, z: 0 }
    } else {
        let s = isqrt64(r2 as u64);
        proof {
            assert(s >= 1) by (nonlinear_arith)
                requires
                    (r2 as int) >= TORNADO_EPS_Q32,
                    (r2 as int) < ((s as int) + 1) * ((s as int) + 1),
                    s >= 0,
            ;
            assert((s as int) < 0x80000000) by (nonlinear_arith)
                requires
                    (s as int) * (s as int) <= (r2 as int),
                    (r2 as int) < 0x200000000,
                    s >= 0,
            ;
            lemma_square_dominated(pz as int, s as int);
            lemma_square_dominated(px as int, s as int);
            assert((-(px as int)) * (-(px as int)) == (px as int) * (px as int))
                by (nonlinear_arith);
        }
        let vx = scale_div_q16(pz, s);
        let vz = scale_div_q16(-px, s);
        VelocityQ16 { x: vx, y: 0, z: vz }
    }
}

/// Recovers the grid coordinates of a row-major linear index: the layout
/// `voxel_index` is a bijection between cells and indices.
pub proof fn lemma_voxel_index_decompose(x: int, y: int, z: int, n: int)
    requires
        0 < n,
        0 <= x < n,
        0 <= y < n,
        0 <= z < n,
    ensures
        ({
            let ix = voxel_index(x, y, z, n, n);
            &&& 0 <= ix < n * n * n
            &&& ix % n == x
            &&& (ix / n) % n == y
            &&& ix / (n * n) == z
        }),
{
    let ix = voxel_index(x, y, z, n, n);
    assert(x + n * (y + n * z) == (y + n * z) * n + x) by (nonlinear_arith);
    lemma_fundamental_div_mod_converse(ix, n, y + n * z, x);
    assert(y + n * z == z * n + y) by (nonlinear_arith);
    lemma_fundamental_div_mod_converse(y + n * z, n, z, y);
    assert(0 <= x + n * y < n * n) by (nonlinear_arith)
        requires
            0 <= x < n,
            0 <= y < n,
    ;
    assert(x + n * (y + n * z) == z * (n * n) + (x + n * y)) by (nonlinear_arith);
    lemma_fundamental_div_mod_converse(ix, n * n, z, x + n * y);
    assert(0 <= z * (n * n) + (x + n * y) < n * n * n) by (nonlinear_arith)
        requires
            0 <= x + n * y < n * n,
            0 <= z < n,
    ;
}

/// Generates the whole tornado velocity field in row-major voxel order, one
/// fixed-point 3-vector per voxel, ready for conversion to channel words
/// and one bulk upload.
pub fn tornado_velocity_field(n: u32) -> (field: Vec<VelocityQ16>)
    requires
        0 < n <= 256,
    ensures
        field@.len() == (n as int) * (n as int) * (n as int),
        forall|x: int, y: int, z: int|
            #![trigger voxel_index(x, y, z, n as int, n as int)]
            0 <= x < n && 0 <= y < n && 0 <= z < n ==> {
                let v = field@[voxel_index(x, y, z, n as int, n as int)];
                (v.x as int, v.y as int, v.z as int) == tornado_velocity_spec(x, z, n as int)
            },
{
    proof {
        assert((n as int) * (n as int) <= 65536 && (n as int) * (n as int) * (n as int)
            <= 0x1000000) by (nonlinear_arith)
            requires
                0 < (n as int) <= 256,
        ;
    }
    let nn: u32 = n * n;
    let total: usize = (nn as usize) * (n as usize);
    let mut field: Vec<VelocityQ16> = Vec::new();
    let mut i: usize = 0;
    while i < total
        invariant
            0 < n <= 256,
            nn == (n as int) * (n as int),
            total == (n as int) * (n as int) * (n as int),
            total <= 0x1000000,
            i <= total,
            field@.len() == i,
            forall|j: int|
                #![trigger field@[j]]
                0 <= j < i ==> {
                    let v = field@[j];
                    (v.x as int, v.y as int, v.z as int) == tornado_velocity_spec(
                        j % (n as int),
                        j / ((n as int) * (n as int)),
                        n as int,
                    )
                },
        decreases total - i,
    {
        let x: u32 = (i as u32) % n;
        let z: u32 = (i as u32) / nn;
        proof {
            lemma_mod_bound(i as int, n as int);
            lemma_multiply_divide_lt(i as int, (n as int) * (n as int), n as int);
        }
        let v = tornado_velocity_at(x, z, n);
        field.push(v);
        i = i + 1;
    }
    proof {
        assert forall|x: int, y: int, z: int|
            #![trigger voxel_index(x, y, z, n as int, n as int)]
            0 <= x < n && 0 <= y < n && 0 <= z < n implies {
            let v = field@[voxel_index(x, y, z, n as int, n as int)];
            (v.x as int, v.y as int, v.z as int) == tornado_velocity_spec(x, z, n as int)
        } by {
            lemma_voxel_index_decompose(x, y, z, n as int);
        }
    }
    field
}

/// Squared distance between the voxel `(x, y, z)` and the blob center.
pub open spec fn dist2_spec(x: int, y: int, z: int, cx: int, cy: int, cz: int) -> int {
    (x - cx) * (x - cx) + (y - cy) * (y - cy) + (z - cz) * (z - cz)
}

/// The fixed-point density of the blob at squared distance `d2` from its
/// center, for squared radius `r2` and peak value `peak`: the peak halved
/// once for every eighth of the squared radius — a fixed-point bell profile
/// that equals the peak at the center and has fallen below a 256th of it at
/// the radius.
pub open spec fn blob_value_spec(d2: int, r2: int, peak: int) -> int
    recommends
        r2 > 0,
        peak >= 0,
{
    let q = (8 * d2) / r2;
    if q >= 32 {
        0
    } else {
        peak / (pow2(q as nat) as int)
    }
}

/// Computes the blob density at squared distance `d2`, in fixed point.
pub fn blob_value(d2: u64, radius: u32, peak: u32) -> (v: u32)
    requires
        1 <= radius <= 65536,
        d2 < 0x1000000000000000,
    ensures
        v == blob_value_spec(d2 as int, (radius as int) * (radius as int), peak as int),
{
    proof {
        assert(1 <= (radius as int) * (radius as int) <= 0x100000000) by (nonlinear_arith)
            requires
                1 <= (radius as int) <= 65536,
        ;
    }
    let r2: u64 = (radius as u64) * (radius as u64);
    let q: u64 = (8 * d2) / r2;
    if q >= 32 {
        0
    } else {
        proof {
            lemma_u32_shr_is_div(peak, q as u32);
        }
        peak >> (q as u32)
    }
}

/// Computes the blob density of one voxel from its coordinates and the
/// blob's center, radius (in voxels) and fixed-point peak value.
pub fn blob_density_at(
    x: u32,
    y: u32,
    z: u32,
    center: (u32, u32, u32),
    radius: u32,
    peak: u32,
) -> (v: u32)
    requires
        1 <= radius <= 65536,
        x <= 65536 && y <= 65536 && z <= 65536,
        center.0 <= 65536 && center.1 <= 65536 && center.2 <= 65536,
    ensures
        v == blob_value_spec(
            dist2_spec(
                x as int,
                y as int,
                z as int,
                center.0 as int,
                center.1 as int,
                center.2 as int,
            ),
            (radius as int) * (radius as int),
            peak as int,
        ),
{
    let dx: u64 = if x >= center.0 {
        (x - center.0) as u64
    } else {
        (center.0 - x) as u64
    };
    let dy: u64 = if y >= center.1 {
        (y - center.1) as u64
    } else {
        (center.1 - y) as u64
    };
    let dz: u64 = if z >= center.2 {
        (z - center.2) as u64
    } else {
        (center.2 - z) as u64
    };
    proof {
        assert((dx as int) * (dx as int) == ((x as int) - (center.0 as int)) * ((x as int)
            - (center.0 as int)) && (dx as int) * (dx as int) <= 0x100000000) by (nonlinear_arith)
            requires
                dx == if (x as int) >= (center.0 as int) {
                    (x as int) - (center.0 as int)
                } else {
                    (center.0 as int) - (x as int)
                },
                (x as int) <= 65536 && (center.0 as int) <= 65536,
        ;
        assert((dy as int) * (dy as int) == ((y as int) - (center.1 as int)) * ((y as int)
            - (center.1 as int)) && (dy as int) * (dy as int) <= 0x100000000) by (nonlinear_arith)
            requires
                dy == if (y as int) >= (center.1 as int) {
                    (y as int) - (center.1 as int)
                } else {
                    (center.1 as int) - (y as int)
                },
                (y as int) <= 65536 && (center.1 as int) <= 65536,
        ;
        assert((dz as int) * (dz as int) == ((z as int) - (center.2 as int)) * ((z as int)
            - (center.2 as int)) && (dz as int) * (dz as int) <= 0x100000000) by (nonlinear_arith)
            requires
                dz == if (z as int) >= (center.2 as int) {
                    (z as int) - (center.2 as int)
                } else {
                    (center.2 as int) - (z as int)
                },
                (z as int) <= 65536 && (center.2 as int) <= 65536,
        ;
    }
    let d2: u64 = dx * dx + dy * dy + dz * dz;
    blob_value(d2, radius, peak)
}

/// Generates the whole blob density field in row-major voxel order, one
/// fixed-point scalar per voxel.
pub fn blob_density_field(n: u32, center: (u32, u32, u32), radius: u32, peak: u32) -> (field: Vec<
    u32,
>)
    requires
        0 < n <= 256,
        1 <= radius <= 65536,
        center.0 <= 65536 && center.1 <= 65536 && center.2 <= 65536,
    ensures
        field@.len() == (n as int) * (n as int) * (n as int),
        forall|x: int, y: int, z: int|
            #![trigger voxel_index(x, y, z, n as int, n as int)]
            0 <= x < n && 0 <= y < n && 0 <= z < n ==> field@[voxel_index(
                x,
                y,
                z,
                n as int,
                n as int,
            )] == blob_value_spec(
                dist2_spec(x, y, z, center.0 as int, center.1 as int, center.2 as int),
                (radius as int) * (radius as int),
                peak as int,
            ),
{
    proof {
        assert((n as int) * (n as int) <= 65536 && (n as int) * (n as int) * (n as int)
            <= 0x1000000) by (nonlinear_arith)
            requires
                0 < (n as int) <= 256,
        ;
    }
    let nn: u32 = n * n;
    let total: usize = (nn as usize) * (n as usize);
    let mut field: Vec<u32> = Vec::new();
    let mut i: usize = 0;
    while i < total
        invariant
            0 < n <= 256,
            1 <= radius <= 65536,
            center.0 <= 65536 && center.1 <= 65536 && center.2 <= 65536,
            nn == (n as int) * (n as int),
            total == (n as int) * (n as int) * (n as int),
            total <= 0x1000000,
            i <= total,
            field@.len() == i,
            forall|j: int|
                #![trigger field@[j]]
                0 <= j < i ==> field@[j] == blob_value_spec(
                    dist2_spec(
                        j % (n as int),
                        (j / (n as int)) % (n as int),
                        j / ((n as int) * (n as int)),
                        center.0 as int,
                        center.1 as int,
                        center.2 as int,
                    ),
                    (radius as int) * (radius as int),
                    peak as int,
                ),
        decreases total - i,
    {
        let x: u32 = (i as u32) % n;
        let y: u32 = ((i as u32) / n) % n;
        let z: u32 = (i as u32) / nn;
        proof {
            lemma_mod_bound(i as int, n as int);
            lemma_mod_bound((i as int) / (n as int), n as int);
            lemma_multiply_divide_lt(i as int, (n as int) * (n as int), n as int);
        }
        let v = blob_density_at(x, y, z, center, radius, peak);
        field.push(v);
        i = i + 1;
    }
    proof {
        assert forall|x: int, y: int, z: int|
            #![trigger voxel_index(x, y, z, n as int, n as int)]
            0 <= x < n && 0 <= y < n && 0 <= z < n implies field@[voxel_index(
            x,
            y,
            z,
            n as int,
            n as int,
        )] == blob_value_spec(
            dist2_spec(x, y, z, center.0 as int, center.1 as int, center.2 as int),
            (radius as int) * (radius as int),
            peak as int,
        ) by {
            lemma_voxel_index_decompose(x, y, z, n as int);
        }
    }
    field
}

/// At the blob's center the generated density is exactly the peak value.
pub proof fn lemma_blob_peak_at_center(r2: int, peak: int)
    requires
        r2 > 0,
        peak >= 0,
    ensures
        blob_value_spec(0, r2, peak) == peak,
{
    assert((8 * 0int) / r2 == 0) by (nonlinear_arith)
        requires
            r2 > 0,
    ;
    lemma2_to64();
    assert(peak / (pow2(0) as int) == peak);
}

/// The generated density never grows with distance from the blob's center.
pub proof fn lemma_blob_monotone(d2a: int, d2b: int, r2: int, peak: int)
    requires
        0 <= d2a <= d2b,
        r2 > 0,
        peak >= 0,
    ensures
        blob_value_spec(d2a, r2, peak) >= blob_value_spec(d2b, r2, peak),
{
    lemma_div_is_ordered(8 * d2a, 8 * d2b, r2);
    let qa = (8 * d2a) / r2;
    let qb = (8 * d2b) / r2;
    assert(qa >= 0) by {
        lemma_div_pos_is_pos(8 * d2a, r2);
    }
    lemma_pow2_pos(qa as nat);
    lemma_pow2_pos(qb as nat);
    if qb >= 32 {
        lemma_div_pos_is_pos(peak, pow2(qa as nat) as int);
    } else {
        if qa < qb {
            lemma_pow2_strictly_increases(qa as nat, qb as nat);
        }
        lemma_div_is_ordered_by_denominator(peak, pow2(qa as nat) as int, pow2(qb as nat) as int);
    }
}

/// The generated density never exceeds the peak value and never goes
/// negative.
pub proof fn lemma_blob_bounded(d2: int, r2: int, peak: int)
    requires
        0 <= d2,
        r2 > 0,
        peak >= 0,
    ensures
        0 <= blob_value_spec(d2, r2, peak) <= peak,
{
    lemma_blob_peak_at_center(r2, peak);
    lemma_blob_monotone(0, d2, r2, peak);
    let q = (8 * d2) / r2;
    if q < 32 {
        lemma_pow2_pos(q as nat);
        lemma_div_pos_is_pos(peak, pow2(q as nat) as int);
    }
}

/// At and beyond the blob's radius the generated density has decayed to at
/// most a 256th of the peak.
pub proof fn lemma_blob_decayed_outside_radius(d2: int, r2: int, peak: int)
    requires
        d2 >= r2,
        r2 > 0,
        peak >= 0,
    ensures
        blob_value_spec(d2, r2, peak) <= peak / 256,
{
    let q = (8 * d2) / r2;
    assert((8 * r2) / r2 == 8) by {
        lemma_div_multiples_vanish(8, r2);
    }
    lemma_div_is_ordered(8 * r2, 8 * d2, r2);
    assert(q >= 8);
    if q >= 32 {
        lemma_div_pos_is_pos(peak, 256);
    } else {
        lemma2_to64();
        if q > 8 {
            lemma_pow2_strictly_increases(8, q as nat);
        }
        lemma_div_is_ordered_by_denominator(peak, 256, pow2(q as nat) as int);
    }
}

} // verus!
