//! Dense 3x3 matrix kernel over exact integer fractions.
//!
//! Colorimetric matrices are ratios of exact decimal table entries, so the
//! kernel works on integer numerators; a surrounding fraction type carries a
//! shared positive denominator.  Inversion is exact: the inverse of an integer
//! matrix is its adjugate over its determinant, so no precision is lost and the
//! defining identity `adj(A) * A == det(A) * I` is proved once and reused by
//! every client of the kernel.

use vstd::prelude::*;

verus! {

/// Entry magnitude accepted by the exec kernel operations; keeps every
/// intermediate product of a determinant or adjugate well inside `i128`.
pub const MAT_ENTRY_LIMIT: i128 = 1_000_000_000_000;

/// Vector entry magnitude accepted by matrix-vector multiplication.
pub const VEC_ENTRY_LIMIT: i128 = 1_000_000_000_000_000_000_000_000;

/// A column vector of three exact integer coordinates.
#[derive(Clone, Copy, Debug, PartialEq, Eq, Structural)]
pub struct Vec3 {
    pub x: i128,
    pub y: i128,
    pub z: i128,
}

/// A row-major 3x3 integer matrix: `r0`, `r1`, `r2` are its rows.
#[derive(Clone, Copy, Debug, PartialEq, Eq, Structural)]
pub struct Mat3 {
    pub r0: Vec3,
    pub r1: Vec3,
    pub r2: Vec3,
}

/// Mathematical image of `Vec3`: unbounded integer coordinates.
pub ghost struct SVec3 {
    pub x: int,
    pub y: int,
    pub z: int,
}

/// Mathematical image of `Mat3`.
pub ghost struct SMat3 {
    pub r0: SVec3,
    pub r1: SVec3,
    pub r2: SVec3,
}

impl View for Vec3 {
    type V = SVec3;

    open spec fn view(&self) -> SVec3 {
        SVec3 { x: self.x as int, y: self.y as int, z: self.z as int }
    }
}

impl View for Mat3 {
    type V = SMat3;

    open spec fn view(&self) -> SMat3 {
        SMat3 { r0: self.r0@, r1: self.r1@, r2: self.r2@ }
    }
}

/// All three coordinates within `b` in magnitude.
pub open spec fn svec_bounded(v: SVec3, b: int) -> bool {
    -b <= v.x <= b && -b <= v.y <= b && -b <= v.z <= b
}

/// All nine entries within `b` in magnitude.
pub open spec fn smat_bounded(m: SMat3, b: int) -> bool {
    svec_bounded(m.r0, b) && svec_bounded(m.r1, b) && svec_bounded(m.r2, b)
}

/// Dot product of two integer 3-vectors.
pub open spec fn sdot(a: SVec3, b: SVec3) -> int {
    a.x * b.x + a.y * b.y + a.z * b.z
}

/// Row-major matrix times column vector.
pub open spec fn smul_vec(m: SMat3, v: SVec3) -> SVec3 {
    SVec3 { x: sdot(m.r0, v), y: sdot(m.r1, v), z: sdot(m.r2, v) }
}

/// Column `j` of `m` as a vector.
pub open spec fn scol(m: SMat3, j: int) -> SVec3 {
    if j == 0 {
        SVec3 { x: m.r0.x, y: m.r1.x, z: m.r2.x }
    } else if j == 1 {
        SVec3 { x: m.r0.y, y: m.r1.y, z: m.r2.y }
    } else {
        SVec3 { x: m.r0.z, y: m.r1.z, z: m.r2.z }
    }
}

/// Row-major matrix product `a * b`.
pub open spec fn smul_mat(a: SMat3, b: SMat3) -> SMat3 {
    SMat3 {
        r0: SVec3 { x: sdot(a.r0, scol(b, 0)), y: sdot(a.r0, scol(b, 1)), z: sdot(a.r0, scol(b, 2)) },
        r1: SVec3 { x: sdot(a.r1, scol(b, 0)), y: sdot(a.r1, scol(b, 1)), z: sdot(a.r1, scol(b, 2)) },
        r2: SVec3 { x: sdot(a.r2, scol(b, 0)), y: sdot(a.r2, scol(b, 1)), z: sdot(a.r2, scol(b, 2)) },
    }
}

/// Every entry of `m` scaled by `k`.
pub open spec fn sscale_mat(k: int, m: SMat3) -> SMat3 {
    SMat3 {
        r0: SVec3 { x: k * m.r0.x, y: k * m.r0.y, z: k * m.r0.z },
        r1: SVec3 { x: k * m.r1.x, y: k * m.r1.y, z: k * m.r1.z },
        r2: SVec3 { x: k * m.r2.x, y: k * m.r2.y, z: k * m.r2.z },
    }
}

/// The identity matrix.
pub open spec fn sidentity() -> SMat3 {
    SMat3 {
        r0: SVec3 { x: 1, y: 0, z: 0 },
        r1: SVec3 { x: 0, y: 1, z: 0 },
        r2: SVec3 { x: 0, y: 0, z: 1 },
    }
}

/// Determinant by cofactor expansion along the first row.
pub open spec fn sdet(m: SMat3) -> int {
    m.r0.x * (m.r1.y * m.r2.z - m.r1.z * m.r2.y)
        - m.r0.y * (m.r1.x * m.r2.z - m.r1.z * m.r2.x)
        + m.r0.z * (m.r1.x * m.r2.y - m.r1.y * m.r2.x)
}

/// Adjugate (transposed cofactor matrix), the exact unscaled inverse.
pub open spec fn sadj(m: SMat3) -> SMat3 {
    SMat3 {
        r0: SVec3 {
            x: m.r1.y * m.r2.z - m.r1.z * m.r2.y,
            y: m.r0.z * m.r2.y - m.r0.y * m.r2.z,
            z: m.r0.y * m.r1.z - m.r0.z * m.r1.y,
        },
        r1: SVec3 {
            x: m.r1.z * m.r2.x - m.r1.x * m.r2.z,
            y: m.r0.x * m.r2.z - m.r0.z * m.r2.x,
            z: m.r0.z * m.r1.x - m.r0.x * m.r1.z,
        },
        r2: SVec3 {
            x: m.r1.x * m.r2.y - m.r1.y * m.r2.x,
            y: m.r0.y * m.r2.x - m.r0.x * m.r2.y,
            z: m.r0.x * m.r1.y - m.r0.y * m.r1.x,
        },
    }
}

/// Numerator of the exact inverse, sign-normalized so that the paired
/// denominator [`sinv_den`] is positive whenever the matrix is invertible.
pub open spec fn sinv_num(m: SMat3) -> SMat3 {
    if sdet(m) >= 0 {
        sadj(m)
    } else {
        sscale_mat(-1, sadj(m))
    }
}

/// Denominator of the exact inverse: the absolute value of the determinant.
pub open spec fn sinv_den(m: SMat3) -> int {
    if sdet(m) >= 0 {
        sdet(m)
    } else {
        -sdet(m)
    }
}

/// Column `j` of `n` scaled by the `j`-th coordinate of `t`: entry `(i, j)`
/// becomes `n[i][j] * t[j]`.
pub open spec fn scol_scale(t: SVec3, n: SMat3) -> SMat3 {
    SMat3 {
        r0: SVec3 { x: n.r0.x * t.x, y: n.r0.y * t.y, z: n.r0.z * t.z },
        r1: SVec3 { x: n.r1.x * t.x, y: n.r1.y * t.y, z: n.r1.z * t.z },
        r2: SVec3 { x: n.r2.x * t.x, y: n.r2.y * t.y, z: n.r2.z * t.z },
    }
}

/// Magnitude bound on a product from magnitude bounds on its factors.
pub proof fn lemma_mul_bound(a: int, b: int, ba: int, bb: int)
    by (nonlinear_arith)
    requires
        -ba <= a <= ba,
        -bb <= b <= bb,
        0 <= ba,
        0 <= bb,
    ensures
        -(ba * bb) <= a * b <= ba * bb,
{
}

/// Bound on a dot product from bounds on both operands.
pub proof fn lemma_sdot_bound(a: SVec3, b: SVec3, ba: int, bb: int)
    by (nonlinear_arith)
    requires
        svec_bounded(a, ba),
        svec_bounded(b, bb),
        0 <= ba,
        0 <= bb,
    ensures
        -(3 * ba * bb) <= sdot(a, b) <= 3 * ba * bb,
{
}

/// Magnitude bound on a difference of two products of `b`-bounded factors,
/// the shape of every adjugate entry.
pub proof fn lemma_prod_diff_bound(x: int, y: int, z: int, w: int, b: int)
    by (nonlinear_arith)
    requires
        -b <= x <= b,
        -b <= y <= b,
        -b <= z <= b,
        -b <= w <= b,
        0 <= b,
    ensures
        -(2 * b * b) <= x * y - z * w <= 2 * b * b,
{
}

/// The adjugate of a `b`-bounded matrix is `2 * b * b`-bounded.
pub proof fn lemma_sadj_bound(m: SMat3, b: int)
    requires
        smat_bounded(m, b),
        0 <= b,
    ensures
        smat_bounded(sadj(m), 2 * b * b),
{
    lemma_prod_diff_bound(m.r1.y, m.r2.z, m.r1.z, m.r2.y, b);
    lemma_prod_diff_bound(m.r0.z, m.r2.y, m.r0.y, m.r2.z, b);
    lemma_prod_diff_bound(m.r0.y, m.r1.z, m.r0.z, m.r1.y, b);
    lemma_prod_diff_bound(m.r1.z, m.r2.x, m.r1.x, m.r2.z, b);
    lemma_prod_diff_bound(m.r0.x, m.r2.z, m.r0.z, m.r2.x, b);
    lemma_prod_diff_bound(m.r0.z, m.r1.x, m.r0.x, m.r1.z, b);
    lemma_prod_diff_bound(m.r1.x, m.r2.y, m.r1.y, m.r2.x, b);
    lemma_prod_diff_bound(m.r0.y, m.r2.x, m.r0.x, m.r2.y, b);
    lemma_prod_diff_bound(m.r0.x, m.r1.y, m.r0.y, m.r1.x, b);
}

/// The determinant of a `b`-bounded matrix is at most `6 * b^3` in magnitude.
pub proof fn lemma_sdet_bound(m: SMat3, b: int)
    requires
        smat_bounded(m, b),
        0 <= b,
    ensures
        -(6 * b * b * b) <= sdet(m) <= 6 * b * b * b,
{
    lemma_prod_diff_bound(m.r1.y, m.r2.z, m.r1.z, m.r2.y, b);
    lemma_prod_diff_bound(m.r1.x, m.r2.z, m.r1.z, m.r2.x, b);
    lemma_prod_diff_bound(m.r1.x, m.r2.y, m.r1.y, m.r2.x, b);
    lemma_mul_bound(m.r0.x, m.r1.y * m.r2.z - m.r1.z * m.r2.y, b, 2 * b * b);
    lemma_mul_bound(m.r0.y, m.r1.x * m.r2.z - m.r1.z * m.r2.x, b, 2 * b * b);
    lemma_mul_bound(m.r0.z, m.r1.x * m.r2.y - m.r1.y * m.r2.x, b, 2 * b * b);
    assert(3 * (b * (2 * b * b)) == 6 * b * b * b) by (nonlinear_arith);
}

/// Bound on a matrix-vector product from bounds on both operands.
pub proof fn lemma_smul_vec_bound(m: SMat3, v: SVec3, bm: int, bv: int)
    requires
        smat_bounded(m, bm),
        svec_bounded(v, bv),
        0 <= bm,
        0 <= bv,
    ensures
        svec_bounded(smul_vec(m, v), 3 * bm * bv),
{
    lemma_sdot_bound(m.r0, v, bm, bv);
    lemma_sdot_bound(m.r1, v, bm, bv);
    lemma_sdot_bound(m.r2, v, bm, bv);
}

/// Multiplication distributes over a three-term sum.
proof fn lemma_distrib3(k: int, p: int, q: int, r: int)
    by (nonlinear_arith)
    ensures
        k * (p + q + r) == k * p + k * q + k * r,
{
}

/// Distributes a row over a matrix-vector product: if the dot products of
/// row `n` with the columns of `q` are `c0`, `c1`, `c2`, then dotting `n`
/// with `q * w` weighs those constants by the coordinates of `w`.
pub proof fn lemma_row_solve(n: SVec3, q: SMat3, w: SVec3, c0: int, c1: int, c2: int)
    requires
        sdot(n, scol(q, 0)) == c0,
        sdot(n, scol(q, 1)) == c1,
        sdot(n, scol(q, 2)) == c2,
    ensures
        sdot(n, smul_vec(q, w)) == c0 * w.x + c1 * w.y + c2 * w.z,
{
    lemma_distrib3(n.x, q.r0.x * w.x, q.r0.y * w.y, q.r0.z * w.z);
    vstd::arithmetic::mul::lemma_mul_is_associative(n.x, q.r0.x, w.x);
    vstd::arithmetic::mul::lemma_mul_is_associative(n.x, q.r0.y, w.y);
    vstd::arithmetic::mul::lemma_mul_is_associative(n.x, q.r0.z, w.z);
    lemma_distrib3(n.y, q.r1.x * w.x, q.r1.y * w.y, q.r1.z * w.z);
    vstd::arithmetic::mul::lemma_mul_is_associative(n.y, q.r1.x, w.x);
    vstd::arithmetic::mul::lemma_mul_is_associative(n.y, q.r1.y, w.y);
    vstd::arithmetic::mul::lemma_mul_is_associative(n.y, q.r1.z, w.z);
    lemma_distrib3(n.z, q.r2.x * w.x, q.r2.y * w.y, q.r2.z * w.z);
    vstd::arithmetic::mul::lemma_mul_is_associative(n.z, q.r2.x, w.x);
    vstd::arithmetic::mul::lemma_mul_is_associative(n.z, q.r2.y, w.y);
    vstd::arithmetic::mul::lemma_mul_is_associative(n.z, q.r2.z, w.z);
    assert(n.x * (q.r0.x * w.x + q.r0.y * w.y + q.r0.z * w.z) == n.x * q.r0.x * w.x + n.x * q.r0.y
        * w.y + n.x * q.r0.z * w.z);
    assert(n.y * (q.r1.x * w.x + q.r1.y * w.y + q.r1.z * w.z) == n.y * q.r1.x * w.x + n.y * q.r1.y
        * w.y + n.y * q.r1.z * w.z);
    assert(n.z * (q.r2.x * w.x + q.r2.y * w.y + q.r2.z * w.z) == n.z * q.r2.x * w.x + n.z * q.r2.y
        * w.y + n.z * q.r2.z * w.z);
    assert((n.x * q.r0.x + n.y * q.r1.x + n.z * q.r2.x) * w.x == n.x * q.r0.x * w.x + n.y * q.r1.x
        * w.x + n.z * q.r2.x * w.x) by (nonlinear_arith);
    assert((n.x * q.r0.y + n.y * q.r1.y + n.z * q.r2.y) * w.y == n.x * q.r0.y * w.y + n.y * q.r1.y
        * w.y + n.z * q.r2.y * w.y) by (nonlinear_arith);
    assert((n.x * q.r0.z + n.y * q.r1.z + n.z * q.r2.z) * w.z == n.x * q.r0.z * w.z + n.y * q.r1.z
        * w.z + n.z * q.r2.z * w.z) by (nonlinear_arith);
}

/// The defining property of the adjugate: multiplying by it on either side
/// yields the determinant times the identity.  This single ring identity is
/// what makes exact inversion, whitepoint solving and the round-trip laws go
/// through.
pub proof fn lemma_adj_identity(m: SMat3)
    ensures
        smul_mat(sadj(m), m) == sscale_mat(sdet(m), sidentity()),
        smul_mat(m, sadj(m)) == sscale_mat(sdet(m), sidentity()),
{
    lemma_adj_rows(
        m.r0.x, m.r0.y, m.r0.z,
        m.r1.x, m.r1.y, m.r1.z,
        m.r2.x, m.r2.y, m.r2.z,
    );
    lemma_adj_cols(
        m.r0.x, m.r0.y, m.r0.z,
        m.r1.x, m.r1.y, m.r1.z,
        m.r2.x, m.r2.y, m.r2.z,
    );
    assert(smul_mat(sadj(m), m) == sscale_mat(sdet(m), sidentity()));
    assert(smul_mat(m, sadj(m)) == sscale_mat(sdet(m), sidentity()));
}

/// The nine scalar identities behind `adj(A) * A == det(A) * I`, written over
/// the entries `a ..= i` of `A` in row-major reading order.
proof fn lemma_adj_rows(a: int, b: int, c: int, d: int, e: int, f: int, g: int, h: int, i: int)
    ensures
        (e * i - f * h) * a + (c * h - b * i) * d + (b * f - c * e) * g == a * (e * i - f * h) - b
            * (d * i - f * g) + c * (d * h - e * g),
        (e * i - f * h) * b + (c * h - b * i) * e + (b * f - c * e) * h == 0,
        (e * i - f * h) * c + (c * h - b * i) * f + (b * f - c * e) * i == 0,
        (f * g - d * i) * a + (a * i - c * g) * d + (c * d - a * f) * g == 0,
        (f * g - d * i) * b + (a * i - c * g) * e + (c * d - a * f) * h == a * (e * i - f * h) - b
            * (d * i - f * g) + c * (d * h - e * g),
        (f * g - d * i) * c + (a * i - c * g) * f + (c * d - a * f) * i == 0,
        (d * h - e * g) * a + (b * g - a * h) * d + (a * e - b * d) * g == 0,
        (d * h - e * g) * b + (b * g - a * h) * e + (a * e - b * d) * h == 0,
        (d * h - e * g) * c + (b * g - a * h) * f + (a * e - b * d) * i == a * (e * i - f * h) - b
            * (d * i - f * g) + c * (d * h - e * g),
{
    lemma_det_expand(a, b, c, d, e, f, g, h, i);
    assert((e * i - f * h) * a == a * e * i - a * f * h) by (nonlinear_arith);
    assert((c * h - b * i) * d == c * d * h - b * d * i) by (nonlinear_arith);
    assert((b * f - c * e) * g == b * f * g - c * e * g) by (nonlinear_arith);
    assert((f * g - d * i) * b == b * f * g - b * d * i) by (nonlinear_arith);
    assert((a * i - c * g) * e == a * e * i - c * e * g) by (nonlinear_arith);
    assert((c * d - a * f) * h == c * d * h - a * f * h) by (nonlinear_arith);
    assert((d * h - e * g) * c == c * d * h - c * e * g) by (nonlinear_arith);
    assert((b * g - a * h) * f == b * f * g - a * f * h) by (nonlinear_arith);
    assert((a * e - b * d) * i == a * e * i - b * d * i) by (nonlinear_arith);
    assert((e * i - f * h) * b + (c * h - b * i) * e + (b * f - c * e) * h == 0)
        by (nonlinear_arith);
    assert((e * i - f * h) * c + (c * h - b * i) * f + (b * f - c * e) * i == 0)
        by (nonlinear_arith);
    assert((f * g - d * i) * a + (a * i - c * g) * d + (c * d - a * f) * g == 0)
        by (nonlinear_arith);
    assert((f * g - d * i) * c + (a * i - c * g) * f + (c * d - a * f) * i == 0)
        by (nonlinear_arith);
    assert((d * h - e * g) * a + (b * g - a * h) * d + (a * e - b * d) * g == 0)
        by (nonlinear_arith);
    assert((d * h - e * g) * b + (b * g - a * h) * e + (a * e - b * d) * h == 0)
        by (nonlinear_arith);
}




/// The nine scalar identities behind `A * adj(A) == det(A) * I`.
proof fn lemma_adj_cols(a: int, b: int, c: int, d: int, e: int, f: int, g: int, h: int, i: int)
    ensures
        a * (e * i - f * h) + b * (f * g - d * i) + c * (d * h - e * g) == a * (e * i - f * h) - b
            * (d * i - f * g) + c * (d * h - e * g),
        a * (c * h - b * i) + b * (a * i - c * g) + c * (b * g - a * h) == 0,
        a * (b * f - c * e) + b * (c * d - a * f) + c * (a * e - b * d) == 0,
        d * (e * i - f * h) + e * (f * g - d * i) + f * (d * h - e * g) == 0,
        d * (c * h - b * i) + e * (a * i - c * g) + f * (b * g - a * h) == a * (e * i - f * h) - b
            * (d * i - f * g) + c * (d * h - e * g),
        d * (b * f - c * e) + e * (c * d - a * f) + f * (a * e - b * d) == 0,
        g * (e * i - f * h) + h * (f * g - d * i) + i * (d * h - e * g) == 0,
        g * (c * h - b * i) + h * (a * i - c * g) + i * (b * g - a * h) == 0,
        g * (b * f - c * e) + h * (c * d - a * f) + i * (a * e - b * d) == a * (e * i - f * h) - b
            * (d * i - f * g) + c * (d * h - e * g),
{
    assert(a * (e * i - f * h) + b * (f * g - d * i) + c * (d * h - e * g) == a * (e * i - f * h)
        - b * (d * i - f * g) + c * (d * h - e * g)) by (nonlinear_arith);
    assert(a * (c * h - b * i) + b * (a * i - c * g) + c * (b * g - a * h) == 0)
        by (nonlinear_arith);
    assert(a * (b * f - c * e) + b * (c * d - a * f) + c * (a * e - b * d) == 0)
        by (nonlinear_arith);
    assert(d * (e * i - f * h) + e * (f * g - d * i) + f * (d * h - e * g) == 0)
        by (nonlinear_arith);
    lemma_det_expand(a, b, c, d, e, f, g, h, i);
    assert(d * (c * h - b * i) == c * d * h - b * d * i) by (nonlinear_arith);
    assert(e * (a * i - c * g) == a * e * i - c * e * g) by (nonlinear_arith);
    assert(f * (b * g - a * h) == b * f * g - a * f * h) by (nonlinear_arith);
    assert(d * (b * f - c * e) + e * (c * d - a * f) + f * (a * e - b * d) == 0)
        by (nonlinear_arith);
    assert(g * (e * i - f * h) + h * (f * g - d * i) + i * (d * h - e * g) == 0)
        by (nonlinear_arith);
    assert(g * (c * h - b * i) + h * (a * i - c * g) + i * (b * g - a * h) == 0)
        by (nonlinear_arith);
    assert(g * (b * f - c * e) == b * f * g - c * e * g) by (nonlinear_arith);
    assert(h * (c * d - a * f) == c * d * h - a * f * h) by (nonlinear_arith);
    assert(i * (a * e - b * d) == a * e * i - b * d * i) by (nonlinear_arith);
}



/// The determinant written out as its six signed monomials.
proof fn lemma_det_expand(a: int, b: int, c: int, d: int, e: int, f: int, g: int, h: int, i: int)
    ensures
        a * (e * i - f * h) - b * (d * i - f * g) + c * (d * h - e * g) == a * e * i - a * f * h
            - b * d * i + b * f * g + c * d * h - c * e * g,
{
    assert(a * (e * i - f * h) == a * e * i - a * f * h) by (nonlinear_arith);
    assert(b * (d * i - f * g) == b * d * i - b * f * g) by (nonlinear_arith);
    assert(c * (d * h - e * g) == c * d * h - c * e * g) by (nonlinear_arith);
}

impl Mat3 {
    /// Determinant, exactly.
    pub fn det(&self) -> (r: i128)
        requires
            smat_bounded(self@, MAT_ENTRY_LIMIT as int),
        ensures
            r == sdet(self@),
    {
        proof {
            let b = MAT_ENTRY_LIMIT as int;
            lemma_sadj_bound(self@, b);
            lemma_sdet_bound(self@, b);
            lemma_mul_bound(self.r1.y as int, self.r2.z as int, b, b);
            lemma_mul_bound(self.r1.z as int, self.r2.y as int, b, b);
            lemma_mul_bound(self.r1.x as int, self.r2.z as int, b, b);
            lemma_mul_bound(self.r1.z as int, self.r2.x as int, b, b);
            lemma_mul_bound(self.r1.x as int, self.r2.y as int, b, b);
            lemma_mul_bound(self.r1.y as int, self.r2.x as int, b, b);
            lemma_mul_bound(self.r0.x as int, (self.r1.y * self.r2.z - self.r1.z * self.r2.y) as int, b, 2 * b * b);
            lemma_mul_bound(self.r0.y as int, (self.r1.x * self.r2.z - self.r1.z * self.r2.x) as int, b, 2 * b * b);
            lemma_mul_bound(self.r0.z as int, (self.r1.x * self.r2.y - self.r1.y * self.r2.x) as int, b, 2 * b * b);
        }
        self.r0.x * (self.r1.y * self.r2.z - self.r1.z * self.r2.y)
            - self.r0.y * (self.r1.x * self.r2.z - self.r1.z * self.r2.x)
            + self.r0.z * (self.r1.x * self.r2.y - self.r1.y * self.r2.x)
    }

    /// Adjugate, exactly.
    pub fn adjugate(&self) -> (r: Mat3)
        requires
            smat_bounded(self@, MAT_ENTRY_LIMIT as int),
        ensures
            r@ == sadj(self@),
    {
        proof {
            let b = MAT_ENTRY_LIMIT as int;
            lemma_mul_bound(self.r1.y as int, self.r2.z as int, b, b);
            lemma_mul_bound(self.r1.z as int, self.r2.y as int, b, b);
            lemma_mul_bound(self.r0.z as int, self.r2.y as int, b, b);
            lemma_mul_bound(self.r0.y as int, self.r2.z as int, b, b);
            lemma_mul_bound(self.r0.y as int, self.r1.z as int, b, b);
            lemma_mul_bound(self.r0.z as int, self.r1.y as int, b, b);
            lemma_mul_bound(self.r1.z as int, self.r2.x as int, b, b);
            lemma_mul_bound(self.r1.x as int, self.r2.z as int, b, b);
            lemma_mul_bound(self.r0.x as int, self.r2.z as int, b, b);
            lemma_mul_bound(self.r0.z as int, self.r2.x as int, b, b);
            lemma_mul_bound(self.r0.z as int, self.r1.x as int, b, b);
            lemma_mul_bound(self.r0.x as int, self.r1.z as int, b, b);
            lemma_mul_bound(self.r1.x as int, self.r2.y as int, b, b);
            lemma_mul_bound(self.r1.y as int, self.r2.x as int, b, b);
            lemma_mul_bound(self.r0.y as int, self.r2.x as int, b, b);
            lemma_mul_bound(self.r0.x as int, self.r2.y as int, b, b);
            lemma_mul_bound(self.r0.x as int, self.r1.y as int, b, b);
            lemma_mul_bound(self.r0.y as int, self.r1.x as int, b, b);
        }
        Mat3 {
            r0: Vec3 {
                x: self.r1.y * self.r2.z - self.r1.z * self.r2.y,
                y: self.r0.z * self.r2.y - self.r0.y * self.r2.z,
                z: self.r0.y * self.r1.z - self.r0.z * self.r1.y,
            },
            r1: Vec3 {
                x: self.r1.z * self.r2.x - self.r1.x * self.r2.z,
                y: self.r0.x * self.r2.z - self.r0.z * self.r2.x,
                z: self.r0.z * self.r1.x - self.r0.x * self.r1.z,
            },
            r2: Vec3 {
                x: self.r1.x * self.r2.y - self.r1.y * self.r2.x,
                y: self.r0.y * self.r2.x - self.r0.x * self.r2.y,
                z: self.r0.x * self.r1.y - self.r0.y * self.r1.x,
            },
        }
    }

    /// Matrix times column vector: `out[i] = dot(row_i, v)`.
    pub fn mul_vec(&self, v: &Vec3) -> (r: Vec3)
        requires
            smat_bounded(self@, MAT_ENTRY_LIMIT as int),
            svec_bounded(v@, VEC_ENTRY_LIMIT as int),
        ensures
            r@ == smul_vec(self@, v@),
    {
        proof {
            let bm = MAT_ENTRY_LIMIT as int;
            let bv = VEC_ENTRY_LIMIT as int;
            lemma_mul_bound(self.r0.x as int, v.x as int, bm, bv);
            lemma_mul_bound(self.r0.y as int, v.y as int, bm, bv);
            lemma_mul_bound(self.r0.z as int, v.z as int, bm, bv);
            lemma_mul_bound(self.r1.x as int, v.x as int, bm, bv);
            lemma_mul_bound(self.r1.y as int, v.y as int, bm, bv);
            lemma_mul_bound(self.r1.z as int, v.z as int, bm, bv);
            lemma_mul_bound(self.r2.x as int, v.x as int, bm, bv);
            lemma_mul_bound(self.r2.y as int, v.y as int, bm, bv);
            lemma_mul_bound(self.r2.z as int, v.z as int, bm, bv);
        }
        Vec3 {
            x: self.r0.x * v.x + self.r0.y * v.y + self.r0.z * v.z,
            y: self.r1.x * v.x + self.r1.y * v.y + self.r1.z * v.z,
            z: self.r2.x * v.x + self.r2.y * v.y + self.r2.z * v.z,
        }
    }
}

/// A 3x3 matrix of exact fractions sharing one positive denominator,
/// stored row-major: the represented value is `m / den`.
#[derive(Clone, Copy, Debug, PartialEq, Eq, Structural)]
pub struct RowMatrix {
    pub m: Mat3,
    pub den: i128,
}

/// A 3x3 matrix stored as three basis columns; `c0`, `c1`, `c2` are the
/// images of the unit vectors.  The layout is an implementation convenience:
/// the logical transform is the same as the row-major form returned by
/// [`ColMatrix::to_row`].
#[derive(Clone, Copy, Debug, PartialEq, Eq, Structural)]
pub struct ColMatrix {
    pub c0: Vec3,
    pub c1: Vec3,
    pub c2: Vec3,
}

/// The row-major image of a column-major matrix.
pub open spec fn scols_to_row(c: ColMatrix) -> SMat3 {
    SMat3 {
        r0: SVec3 { x: c.c0.x as int, y: c.c1.x as int, z: c.c2.x as int },
        r1: SVec3 { x: c.c0.y as int, y: c.c1.y as int, z: c.c2.y as int },
        r2: SVec3 { x: c.c0.z as int, y: c.c1.z as int, z: c.c2.z as int },
    }
}

impl ColMatrix {
    /// Re-layout into the row-major form; the logical transform is unchanged.
    pub fn to_row(&self) -> (r: Mat3)
        ensures
            r@ == scols_to_row(*self),
    {
        Mat3 {
            r0: Vec3 { x: self.c0.x, y: self.c1.x, z: self.c2.x },
            r1: Vec3 { x: self.c0.y, y: self.c1.y, z: self.c2.y },
            r2: Vec3 { x: self.c0.z, y: self.c1.z, z: self.c2.z },
        }
    }

    /// Multiply by a column vector in column layout: `out = v.x * c0 + v.y *
    /// c1 + v.z * c2`.  The result is proved identical to the row-major
    /// product, so both layouts compute the same transform.
    pub fn mul_vec(&self, v: &Vec3) -> (r: Vec3)
        requires
            smat_bounded(scols_to_row(*self), MAT_ENTRY_LIMIT as int),
            svec_bounded(v@, VEC_ENTRY_LIMIT as int),
        ensures
            r@ == smul_vec(scols_to_row(*self), v@),
    {
        proof {
            let bm = MAT_ENTRY_LIMIT as int;
            let bv = VEC_ENTRY_LIMIT as int;
            lemma_mul_bound(self.c0.x as int, v.x as int, bm, bv);
            lemma_mul_bound(self.c0.y as int, v.x as int, bm, bv);
            lemma_mul_bound(self.c0.z as int, v.x as int, bm, bv);
            lemma_mul_bound(self.c1.x as int, v.y as int, bm, bv);
            lemma_mul_bound(self.c1.y as int, v.y as int, bm, bv);
            lemma_mul_bound(self.c1.z as int, v.y as int, bm, bv);
            lemma_mul_bound(self.c2.x as int, v.z as int, bm, bv);
            lemma_mul_bound(self.c2.y as int, v.z as int, bm, bv);
            lemma_mul_bound(self.c2.z as int, v.z as int, bm, bv);
        }
        Vec3 {
            x: self.c0.x * v.x + self.c1.x * v.y + self.c2.x * v.z,
            y: self.c0.y * v.x + self.c1.y * v.y + self.c2.y * v.z,
            z: self.c0.z * v.x + self.c1.z * v.y + self.c2.z * v.z,
        }
    }

    /// Exact inverse of the represented integer matrix, as an adjugate over a
    /// positive determinant denominator.  `None` exactly for a singular
    /// matrix.  For `Some(r)`, `r.m * self == r.den * I` holds exactly, with
    /// `r.den > 0`.
    pub fn inv(&self) -> (r: Option<RowMatrix>)
        requires
            smat_bounded(scols_to_row(*self), MAT_ENTRY_LIMIT as int),
        ensures
            r is Some <==> sdet(scols_to_row(*self)) != 0,
            r is Some ==> {
                let inv = r->Some_0;
                &&& inv.den > 0
                &&& inv.m@ == sinv_num(scols_to_row(*self))
                &&& inv.den as int == sinv_den(scols_to_row(*self))
                &&& smul_mat(inv.m@, scols_to_row(*self)) == sscale_mat(
                    inv.den as int,
                    sidentity(),
                )
            },
    {
        let rows = self.to_row();
        let d = rows.det();
        if d == 0 {
            return None;
        }
        let adj = rows.adjugate();
        proof {
            lemma_adj_identity(rows@);
            lemma_sadj_bound(rows@, MAT_ENTRY_LIMIT as int);
            lemma_sdet_bound(rows@, MAT_ENTRY_LIMIT as int);
        }
        if d > 0 {
            Some(RowMatrix { m: adj, den: d })
        } else {
            let neg = Mat3 {
                r0: Vec3 { x: -adj.r0.x, y: -adj.r0.y, z: -adj.r0.z },
                r1: Vec3 { x: -adj.r1.x, y: -adj.r1.y, z: -adj.r1.z },
                r2: Vec3 { x: -adj.r2.x, y: -adj.r2.y, z: -adj.r2.z },
            };
            proof {
                lemma_sdot_neg(adj@.r0, scol(rows@, 0));
                lemma_sdot_neg(adj@.r0, scol(rows@, 1));
                lemma_sdot_neg(adj@.r0, scol(rows@, 2));
                lemma_sdot_neg(adj@.r1, scol(rows@, 0));
                lemma_sdot_neg(adj@.r1, scol(rows@, 1));
                lemma_sdot_neg(adj@.r1, scol(rows@, 2));
                lemma_sdot_neg(adj@.r2, scol(rows@, 0));
                lemma_sdot_neg(adj@.r2, scol(rows@, 1));
                lemma_sdot_neg(adj@.r2, scol(rows@, 2));
                assert(smul_mat(neg@, rows@) == sscale_mat(-sdet(rows@), sidentity()));
            }
            proof {
                assert(neg@ == sscale_mat(-1, sadj(rows@)));
            }
            Some(RowMatrix { m: neg, den: -d })
        }
    }
}

/// Negating the second operand negates a dot product.
pub proof fn lemma_sdot_neg_right(v: SVec3, w: SVec3)
    by (nonlinear_arith)
    ensures
        sdot(v, (SVec3 { x: -w.x, y: -w.y, z: -w.z })) == -sdot(v, w),
{
}

/// Negating a vector negates its dot products.
proof fn lemma_sdot_neg(v: SVec3, w: SVec3)
    by (nonlinear_arith)
    ensures
        sdot((SVec3 { x: -v.x, y: -v.y, z: -v.z }), w) == -sdot(v, w),
{
}

} // verus!
