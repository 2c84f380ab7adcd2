use vstd::prelude::*;

verus! {

/// Fixed-point value of one unit of length, speed, force, tensor coefficient or
/// rotation-matrix entry.
pub const FIXED_ONE: i64 = 10_000;

/// A vector in fixed point (`FIXED_ONE` per unit).
#[derive(Clone, Copy, Debug, PartialEq, Eq, Structural)]
pub struct Vec3 {
    pub x: i64,
    pub y: i64,
    pub z: i64,
}

/// A 3x3 matrix in fixed point, by rows.
#[derive(Clone, Copy, Debug, PartialEq, Eq, Structural)]
pub struct Mat3 {
    pub r0: Vec3,
    pub r1: Vec3,
    pub r2: Vec3,
}

impl View for Vec3 {
    type V = (int, int, int);

    open spec fn view(&self) -> (int, int, int) {
        (self.x as int, self.y as int, self.z as int)
    }
}

impl View for Mat3 {
    type V = ((int, int, int), (int, int, int), (int, int, int));

    open spec fn view(&self) -> ((int, int, int), (int, int, int), (int, int, int)) {
        (self.r0@, self.r1@, self.r2@)
    }
}

/// Quotient of `a` by a positive `d`, rounded toward zero.
pub open spec fn tdiv(a: int, d: int) -> int {
    if a >= 0 { a / d } else { -((-a) / d) }
}

pub open spec fn tdiv_vec(v: (int, int, int), d: int) -> (int, int, int) {
    (tdiv(v.0, d), tdiv(v.1, d), tdiv(v.2, d))
}

pub open spec fn tdiv_mat(
    m: ((int, int, int), (int, int, int), (int, int, int)),
    d: int,
) -> ((int, int, int), (int, int, int), (int, int, int)) {
    (tdiv_vec(m.0, d), tdiv_vec(m.1, d), tdiv_vec(m.2, d))
}

pub open spec fn vadd(a: (int, int, int), b: (int, int, int)) -> (int, int, int) {
    (a.0 + b.0, a.1 + b.1, a.2 + b.2)
}

pub open spec fn dot(a: (int, int, int), b: (int, int, int)) -> int {
    a.0 * b.0 + a.1 * b.1 + a.2 * b.2
}

pub open spec fn cross(a: (int, int, int), b: (int, int, int)) -> (int, int, int) {
    (a.1 * b.2 - a.2 * b.1, a.2 * b.0 - a.0 * b.2, a.0 * b.1 - a.1 * b.0)
}

/// `m` applied to `v`.
pub open spec fn apply(
    m: ((int, int, int), (int, int, int), (int, int, int)),
    v: (int, int, int),
) -> (int, int, int) {
    (dot(m.0, v), dot(m.1, v), dot(m.2, v))
}

pub open spec fn transpose(
    m: ((int, int, int), (int, int, int), (int, int, int)),
) -> ((int, int, int), (int, int, int), (int, int, int)) {
    ((m.0.0, m.1.0, m.2.0), (m.0.1, m.1.1, m.2.1), (m.0.2, m.1.2, m.2.2))
}

/// The product `a * b`.
pub open spec fn mat_mul(
    a: ((int, int, int), (int, int, int), (int, int, int)),
    b: ((int, int, int), (int, int, int), (int, int, int)),
) -> ((int, int, int), (int, int, int), (int, int, int)) {
    let bt = transpose(b);
    (apply(bt, a.0), apply(bt, a.1), apply(bt, a.2))
}

pub open spec fn bounded(v: (int, int, int), b: int) -> bool {
    &&& -b <= v.0 <= b
    &&& -b <= v.1 <= b
    &&& -b <= v.2 <= b
}

pub open spec fn mat_bounded(m: ((int, int, int), (int, int, int), (int, int, int)), b: int) -> bool {
    bounded(m.0, b) && bounded(m.1, b) && bounded(m.2, b)
}

pub proof fn lemma_mul_bound(a: int, b: int, x: int, y: int) by (nonlinear_arith)
    requires
        -x <= a <= x,
        -y <= b <= y,
    ensures
        -(x * y) <= a * b <= x * y,
{
}

pub proof fn lemma_dot_bound(a: (int, int, int), b: (int, int, int), x: int, y: int)
    requires
        bounded(a, x),
        bounded(b, y),
    ensures
        -3 * (x * y) <= dot(a, b) <= 3 * (x * y),
        -(x * y) <= a.0 * b.0 <= x * y,
        -(x * y) <= a.1 * b.1 <= x * y,
        -(x * y) <= a.2 * b.2 <= x * y,
{
    lemma_mul_bound(a.0, b.0, x, y);
    lemma_mul_bound(a.1, b.1, x, y);
    lemma_mul_bound(a.2, b.2, x, y);
}

pub proof fn lemma_apply_bound(
    m: ((int, int, int), (int, int, int), (int, int, int)),
    v: (int, int, int),
    x: int,
    y: int,
)
    requires
        mat_bounded(m, x),
        bounded(v, y),
    ensures
        bounded(apply(m, v), 3 * (x * y)),
{
    lemma_dot_bound(m.0, v, x, y);
    lemma_dot_bound(m.1, v, x, y);
    lemma_dot_bound(m.2, v, x, y);
}

pub proof fn lemma_cross_bound(a: (int, int, int), b: (int, int, int), x: int, y: int)
    requires
        bounded(a, x),
        bounded(b, y),
    ensures
        bounded(cross(a, b), 2 * (x * y)),
{
    lemma_mul_bound(a.1, b.2, x, y);
    lemma_mul_bound(a.2, b.1, x, y);
    lemma_mul_bound(a.2, b.0, x, y);
    lemma_mul_bound(a.0, b.2, x, y);
    lemma_mul_bound(a.0, b.1, x, y);
    lemma_mul_bound(a.1, b.0, x, y);
}

pub proof fn lemma_tdiv_bound(a: int, d: int, k: int)
    requires
        d > 0,
        k >= 0,
        -(k * d) <= a <= k * d,
    ensures
        -k <= tdiv(a, d) <= k,
{
    if a >= 0 {
        assert(a / d <= k) by (nonlinear_arith)
            requires
                d > 0,
                0 <= a <= k * d,
        ;
        assert(a / d >= 0) by (nonlinear_arith)
            requires
                d > 0,
                0 <= a,
        ;
    } else {
        assert((-a) / d <= k) by (nonlinear_arith)
            requires
                d > 0,
                0 <= -a <= k * d,
        ;
        assert((-a) / d >= 0) by (nonlinear_arith)
            requires
                d > 0,
                0 <= -a,
        ;
    }
}

pub proof fn lemma_tdiv_neg(a: int, d: int)
    requires
        d > 0,
    ensures
        tdiv(-a, d) == -tdiv(a, d),
{
}

/// A vector with wide components, for intermediate products.
pub struct Wide {
    pub x: i128,
    pub y: i128,
    pub z: i128,
}

impl View for Wide {
    type V = (int, int, int);

    open spec fn view(&self) -> (int, int, int) {
        (self.x as int, self.y as int, self.z as int)
    }
}

pub fn widen(v: &Vec3) -> (r: Wide)
    ensures
        r@ == v@,
{
    Wide { x: v.x as i128, y: v.y as i128, z: v.z as i128 }
}

fn div_trunc(a: i128, d: i128) -> (r: i128)
    requires
        d > 0,
        a > i128::MIN,
    ensures
        r == tdiv(a as int, d as int),
{
    if a >= 0 {
        a / d
    } else {
        -((-a) / d)
    }
}

/// Divides each component by `d`, rounding toward zero, where the quotient fits.
pub fn narrow(v: &Wide, d: i128, Ghost(k): Ghost<int>) -> (r: Vec3)
    requires
        d > 0,
        0 <= k <= i64::MAX,
        k * d <= i128::MAX,
        bounded(v@, k * d),
    ensures
        r@ == tdiv_vec(v@, d as int),
        bounded(r@, k),
{
    proof {
        lemma_tdiv_bound(v.x as int, d as int, k);
        lemma_tdiv_bound(v.y as int, d as int, k);
        lemma_tdiv_bound(v.z as int, d as int, k);
        assert(k * d >= 0) by (nonlinear_arith)
            requires
                k >= 0,
                d > 0,
        ;
    }
    Vec3 { x: div_trunc(v.x, d) as i64, y: div_trunc(v.y, d) as i64, z: div_trunc(v.z, d) as i64 }
}

fn dot_wide(a: &Vec3, b: &Wide, Ghost(x): Ghost<int>, Ghost(y): Ghost<int>) -> (r: i128)
    requires
        bounded(a@, x),
        bounded(b@, y),
        3 * (x * y) <= i128::MAX,
    ensures
        r == dot(a@, b@),
{
    proof {
        lemma_dot_bound(a@, b@, x, y);
    }
    (a.x as i128) * b.x + (a.y as i128) * b.y + (a.z as i128) * b.z
}

/// `m` applied to `v`, without rounding.
pub fn apply_wide(m: &Mat3, v: &Wide, Ghost(x): Ghost<int>, Ghost(y): Ghost<int>) -> (r: Wide)
    requires
        mat_bounded(m@, x),
        bounded(v@, y),
        3 * (x * y) <= i128::MAX,
    ensures
        r@ == apply(m@, v@),
        bounded(r@, 3 * (x * y)),
{
    proof {
        lemma_apply_bound(m@, v@, x, y);
    }
    Wide {
        x: dot_wide(&m.r0, v, Ghost(x), Ghost(y)),
        y: dot_wide(&m.r1, v, Ghost(x), Ghost(y)),
        z: dot_wide(&m.r2, v, Ghost(x), Ghost(y)),
    }
}

pub fn transposed(m: &Mat3) -> (r: Mat3)
    ensures
        r@ == transpose(m@),
{
    Mat3 {
        r0: Vec3 { x: m.r0.x, y: m.r1.x, z: m.r2.x },
        r1: Vec3 { x: m.r0.y, y: m.r1.y, z: m.r2.y },
        r2: Vec3 { x: m.r0.z, y: m.r1.z, z: m.r2.z },
    }
}

/// The cross product, without rounding.
pub fn cross_wide(a: &Wide, b: &Wide, Ghost(x): Ghost<int>, Ghost(y): Ghost<int>) -> (r: Wide)
    requires
        bounded(a@, x),
        bounded(b@, y),
        2 * (x * y) <= i128::MAX,
    ensures
        r@ == cross(a@, b@),
        bounded(r@, 2 * (x * y)),
{
    proof {
        lemma_cross_bound(a@, b@, x, y);
        lemma_mul_bound(a@.1, b@.2, x, y);
        lemma_mul_bound(a@.2, b@.1, x, y);
        lemma_mul_bound(a@.2, b@.0, x, y);
        lemma_mul_bound(a@.0, b@.2, x, y);
        lemma_mul_bound(a@.0, b@.1, x, y);
        lemma_mul_bound(a@.1, b@.0, x, y);
    }
    Wide {
        x: a.y * b.z - a.z * b.y,
        y: a.z * b.x - a.x * b.z,
        z: a.x * b.y - a.y * b.x,
    }
}

/// The product of two matrices whose entries are at most one unit, back in fixed point.
pub fn compose(a: &Mat3, b: &Mat3) -> (r: Mat3)
    requires
        mat_bounded(a@, FIXED_ONE as int),
        mat_bounded(b@, FIXED_ONE as int),
    ensures
        r@ == tdiv_mat(mat_mul(a@, b@), FIXED_ONE as int),
        mat_bounded(r@, 3 * FIXED_ONE),
{
    let bt = transposed(b);
    let g = Ghost(FIXED_ONE as int);
    let one = FIXED_ONE as i128;
    let r0 = narrow(&apply_wide(&bt, &widen(&a.r0), g, g), one, Ghost(3 * FIXED_ONE));
    let r1 = narrow(&apply_wide(&bt, &widen(&a.r1), g, g), one, Ghost(3 * FIXED_ONE));
    let r2 = narrow(&apply_wide(&bt, &widen(&a.r2), g, g), one, Ghost(3 * FIXED_ONE));
    proof {
        let k = 3 * FIXED_ONE;
        let d = FIXED_ONE as int;
        lemma_tdiv_bound(r0@.0, d, k);
    }
    Mat3 { r0, r1, r2 }
}

} // verus!
