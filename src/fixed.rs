use vstd::prelude::*;
use vstd::arithmetic::div_mod::lemma_fundamental_div_mod_converse;

verus! {

/// Fixed-point steps in one unit of any physical quantity.
pub const SCALE: i64 = 1_000_000;

/// Largest scalar magnitude (thrust, authority, wind speed, rates): a million units.
pub const MAX_SCALAR: u64 = 1_000_000_000_000;

/// Largest coordinate magnitude of a position: a billion units.
pub const MAX_COORD: i64 = 1_000_000_000_000_000;

/// Bound on each component of an axis rotated by an orientation whose
/// components lie in `[-SCALE, SCALE]`.
pub const DIR_BOUND: i64 = 12_000_000;

pub open spec fn abs(a: int) -> int {
    if a < 0 {
        -a
    } else {
        a
    }
}

/// A 3-vector of fixed-point components.
#[derive(Clone, Copy, Debug, PartialEq, Eq, Structural)]
pub struct Vec3 {
    pub x: i64,
    pub y: i64,
    pub z: i64,
}

/// A rotation as a quaternion of fixed-point components.
#[derive(Clone, Copy, Debug, PartialEq, Eq, Structural)]
pub struct Quat {
    pub w: i64,
    pub x: i64,
    pub y: i64,
    pub z: i64,
}

impl Vec3 {
    /// Every component has magnitude at most `bound`.
    pub open spec fn bounded_by(self, bound: int) -> bool {
        &&& abs(self.x as int) <= bound
        &&& abs(self.y as int) <= bound
        &&& abs(self.z as int) <= bound
    }

    pub fn new(x: i64, y: i64, z: i64) -> (r: Vec3)
        ensures
            r == (Vec3 { x, y, z }),
    {
        Vec3 { x, y, z }
    }

    pub fn zero() -> (r: Vec3)
        ensures
            r == (Vec3 { x: 0, y: 0, z: 0 }),
    {
        Vec3 { x: 0, y: 0, z: 0 }
    }
}

impl Quat {
    /// Each component lies in `[-SCALE, SCALE]`, as those of a unit quaternion do.
    pub open spec fn wf(self) -> bool {
        &&& abs(self.w as int) <= SCALE
        &&& abs(self.x as int) <= SCALE
        &&& abs(self.y as int) <= SCALE
        &&& abs(self.z as int) <= SCALE
    }

    pub fn identity() -> (r: Quat)
        ensures
            r == (Quat { w: SCALE, x: 0, y: 0, z: 0 }),
            r.wf(),
    {
        Quat { w: SCALE, x: 0, y: 0, z: 0 }
    }
}

/// The product of three integers. Opaque, so that the rotation numerators
/// below read as linear sums of such products.
#[verifier::opaque]
pub open spec fn prod3(a: int, b: int, c: int) -> int {
    a * b * c
}

/// `p / d` rounded toward zero, for a positive divisor.
pub open spec fn trunc_div(p: int, d: int) -> int {
    if p >= 0 {
        p / d
    } else {
        -((-p) / d)
    }
}

/// Fixed-point product `a * b`, rounded toward zero.
pub open spec fn spec_fmul(a: int, b: int) -> int {
    trunc_div(a * b, SCALE as int)
}

/// Numerators of the rotation of `v` by `q`, scaled by `SCALE * SCALE`:
/// `v (w^2 - |u|^2) + 2 u (u . v) + 2 w (u x v)` with `u = (x, y, z)`.
pub open spec fn rot_num_x(q: Quat, v: Vec3) -> int {
    let (w, x, y, z) = (q.w as int, q.x as int, q.y as int, q.z as int);
    let (a, b, c) = (v.x as int, v.y as int, v.z as int);
    prod3(a, w, w) + prod3(a, x, x) - prod3(a, y, y) - prod3(a, z, z) + 2 * prod3(b, x, y) + 2 * prod3(c, x, z) + 2 * prod3(c, w, y) - 2 * prod3(b, w, z)
}

pub open spec fn rot_num_y(q: Quat, v: Vec3) -> int {
    let (w, x, y, z) = (q.w as int, q.x as int, q.y as int, q.z as int);
    let (a, b, c) = (v.x as int, v.y as int, v.z as int);
    prod3(b, w, w) - prod3(b, x, x) + prod3(b, y, y) - prod3(b, z, z) + 2 * prod3(a, x, y) + 2 * prod3(c, y, z) + 2 * prod3(a, w, z) - 2 * prod3(c, w, x)
}

pub open spec fn rot_num_z(q: Quat, v: Vec3) -> int {
    let (w, x, y, z) = (q.w as int, q.x as int, q.y as int, q.z as int);
    let (a, b, c) = (v.x as int, v.y as int, v.z as int);
    prod3(c, w, w) - prod3(c, x, x) - prod3(c, y, y) + prod3(c, z, z) + 2 * prod3(a, x, z) + 2 * prod3(b, y, z) + 2 * prod3(b, w, x) - 2 * prod3(a, w, y)
}

/// `v` rotated by `q`, each component rounded toward zero.
pub open spec fn spec_rotate(q: Quat, v: Vec3) -> Vec3 {
    let s2 = SCALE as int * SCALE as int;
    Vec3 {
        x: trunc_div(rot_num_x(q, v), s2) as i64,
        y: trunc_div(rot_num_y(q, v), s2) as i64,
        z: trunc_div(rot_num_z(q, v), s2) as i64,
    }
}

pub open spec fn spec_neg_vec(v: Vec3) -> Vec3 {
    Vec3 { x: (-v.x) as i64, y: (-v.y) as i64, z: (-v.z) as i64 }
}

/// `v` with every component multiplied by the fixed-point scalar `k`.
pub open spec fn spec_scale_vec(v: Vec3, k: int) -> Vec3 {
    Vec3 {
        x: spec_fmul(v.x as int, k) as i64,
        y: spec_fmul(v.y as int, k) as i64,
        z: spec_fmul(v.z as int, k) as i64,
    }
}

pub open spec fn spec_add_vec(a: Vec3, b: Vec3) -> Vec3 {
    Vec3 {
        x: (a.x + b.x) as i64,
        y: (a.y + b.y) as i64,
        z: (a.z + b.z) as i64,
    }
}

proof fn lemma_mul_abs_bound(a: int, b: int, ba: int, bb: int)
    requires
        abs(a) <= ba,
        abs(b) <= bb,
    ensures
        abs(a * b) <= ba * bb,
{
    assert(abs(a * b) == abs(a) * abs(b)) by (nonlinear_arith);
    assert(abs(a) * abs(b) <= ba * bb) by (nonlinear_arith)
        requires
            0 <= abs(a) <= ba,
            0 <= abs(b) <= bb,
    ;
}

/// `p / d` rounded toward zero, for a positive divisor.
fn div_toward_zero(p: i128, d: i128) -> (r: i128)
    requires
        d > 0,
        abs(p as int) <= 0x1000_0000_0000_0000_0000_0000_0000,
    ensures
        r == trunc_div(p as int, d as int),
{
    if p >= 0 {
        p / d
    } else {
        -((-p) / d)
    }
}

/// Bound on each component of a rotated axis scaled by a scalar quantity.
pub const PART_BOUND: i64 = 12_000_000_000_000;

/// Fixed-point product of a component and a non-negative scalar.
fn fmul(a: i64, k: u64) -> (r: i128)
    requires
        abs(a as int) <= MAX_COORD,
        k <= MAX_SCALAR,
    ensures
        r == spec_fmul(a as int, k as int),
{
    proof {
        lemma_mul_abs_bound(a as int, k as int, MAX_COORD as int, MAX_SCALAR as int);
    }
    div_toward_zero((a as i128) * (k as i128), SCALE as i128)
}

/// A fixed-point product stays within the product of the bounds of its factors.
pub proof fn lemma_fmul_bound(a: int, k: int, ba: int, bk: int, m: int)
    requires
        abs(a) <= ba,
        0 <= k <= bk,
        m == ba * bk,
    ensures
        abs(spec_fmul(a, k)) <= m / (SCALE as int),
{
    lemma_mul_abs_bound(a, k, ba, bk);
    vstd::arithmetic::div_mod::lemma_div_is_ordered(abs(a * k), m, SCALE as int);
}

/// `v` scaled by a non-negative fixed-point scalar.
pub fn scale_vec(v: &Vec3, k: u64) -> (r: Vec3)
    requires
        v.bounded_by(MAX_COORD as int),
        k <= MAX_SCALAR,
        abs(spec_fmul(v.x as int, k as int)) <= MAX_COORD,
        abs(spec_fmul(v.y as int, k as int)) <= MAX_COORD,
        abs(spec_fmul(v.z as int, k as int)) <= MAX_COORD,
    ensures
        r == spec_scale_vec(*v, k as int),
{
    let x = fmul(v.x, k);
    let y = fmul(v.y, k);
    let z = fmul(v.z, k);
    Vec3 { x: x as i64, y: y as i64, z: z as i64 }
}

/// Component-wise sum.
pub fn add_vec(a: &Vec3, b: &Vec3) -> (r: Vec3)
    requires
        a.bounded_by(MAX_COORD as int),
        b.bounded_by(MAX_COORD as int),
    ensures
        r == spec_add_vec(*a, *b),
{
    Vec3 { x: a.x + b.x, y: a.y + b.y, z: a.z + b.z }
}

/// Product of three components of magnitude at most `SCALE`.
fn mul3(a: i64, b: i64, c: i64) -> (r: i128)
    requires
        abs(a as int) <= SCALE,
        abs(b as int) <= SCALE,
        abs(c as int) <= SCALE,
    ensures
        r == prod3(a as int, b as int, c as int),
        -1_000_000_000_000_000_000 <= r <= 1_000_000_000_000_000_000,
{
    proof {
        lemma_mul_abs_bound(a as int, b as int, SCALE as int, SCALE as int);
        lemma_mul_abs_bound(a * b, c as int, SCALE as int * SCALE as int, SCALE as int);
        reveal(prod3);
    }
    (a as i128) * (b as i128) * (c as i128)
}

fn rotated_num_x(q: &Quat, v: &Vec3) -> (r: i128)
    requires
        q.wf(),
        v.bounded_by(SCALE as int),
    ensures
        r == rot_num_x(*q, *v),
        -12_000_000_000_000_000_000 <= r <= 12_000_000_000_000_000_000,
{
    let (w, x, y, z) = (q.w, q.x, q.y, q.z);
    let (a, b, c) = (v.x, v.y, v.z);
    let t1 = mul3(a, w, w);
    let t2 = mul3(a, x, x);
    let t3 = mul3(a, y, y);
    let t4 = mul3(a, z, z);
    let t5 = mul3(b, x, y);
    let t6 = mul3(c, x, z);
    let t7 = mul3(c, w, y);
    let t8 = mul3(b, w, z);
    t1 + t2 - t3 - t4 + 2 * t5 + 2 * t6 + 2 * t7 - 2 * t8
}

fn rotated_num_y(q: &Quat, v: &Vec3) -> (r: i128)
    requires
        q.wf(),
        v.bounded_by(SCALE as int),
    ensures
        r == rot_num_y(*q, *v),
        -12_000_000_000_000_000_000 <= r <= 12_000_000_000_000_000_000,
{
    let (w, x, y, z) = (q.w, q.x, q.y, q.z);
    let (a, b, c) = (v.x, v.y, v.z);
    let t1 = mul3(b, w, w);
    let t2 = mul3(b, x, x);
    let t3 = mul3(b, y, y);
    let t4 = mul3(b, z, z);
    let t5 = mul3(a, x, y);
    let t6 = mul3(c, y, z);
    let t7 = mul3(a, w, z);
    let t8 = mul3(c, w, x);
    t1 - t2 + t3 - t4 + 2 * t5 + 2 * t6 + 2 * t7 - 2 * t8
}

fn rotated_num_z(q: &Quat, v: &Vec3) -> (r: i128)
    requires
        q.wf(),
        v.bounded_by(SCALE as int),
    ensures
        r == rot_num_z(*q, *v),
        -12_000_000_000_000_000_000 <= r <= 12_000_000_000_000_000_000,
{
    let (w, x, y, z) = (q.w, q.x, q.y, q.z);
    let (a, b, c) = (v.x, v.y, v.z);
    let t1 = mul3(c, w, w);
    let t2 = mul3(c, x, x);
    let t3 = mul3(c, y, y);
    let t4 = mul3(c, z, z);
    let t5 = mul3(a, x, z);
    let t6 = mul3(b, y, z);
    let t7 = mul3(b, w, x);
    let t8 = mul3(a, w, y);
    t1 - t2 - t3 + t4 + 2 * t5 + 2 * t6 + 2 * t7 - 2 * t8
}

/// Rotates `v` by `q`.
pub fn rotate(q: &Quat, v: &Vec3) -> (r: Vec3)
    requires
        q.wf(),
        v.bounded_by(SCALE as int),
    ensures
        r == spec_rotate(*q, *v),
        r.bounded_by(DIR_BOUND as int),
{
    let nx = rotated_num_x(q, v);
    let ny = rotated_num_y(q, v);
    let nz = rotated_num_z(q, v);
    let s2: i128 = 1_000_000_000_000;
    let rx = div_toward_zero(nx, s2);
    let ry = div_toward_zero(ny, s2);
    let rz = div_toward_zero(nz, s2);
    proof {
        lemma_div_bounds(nx as int, s2 as int);
        lemma_div_bounds(ny as int, s2 as int);
        lemma_div_bounds(nz as int, s2 as int);
    }
    Vec3 { x: rx as i64, y: ry as i64, z: rz as i64 }
}

proof fn lemma_div_bounds(n: int, s2: int)
    requires
        s2 == 1_000_000_000_000,
        -12_000_000_000_000_000_000 <= n <= 12_000_000_000_000_000_000,
    ensures
        -(DIR_BOUND as int) <= trunc_div(n, s2) <= DIR_BOUND as int,
{
    vstd::arithmetic::div_mod::lemma_div_is_ordered(abs(n), 12_000_000_000_000_000_000, s2);
    vstd::arithmetic::div_mod::lemma_div_pos_is_pos(abs(n), s2);
}

proof fn lemma_prod3_bound(a: int, b: int, c: int)
    requires
        abs(a) <= SCALE,
        abs(b) <= SCALE,
        abs(c) <= SCALE,
    ensures
        -1_000_000_000_000_000_000 <= prod3(a, b, c) <= 1_000_000_000_000_000_000,
{
    reveal(prod3);
    lemma_mul_abs_bound(a, b, SCALE as int, SCALE as int);
    lemma_mul_abs_bound(a * b, c, SCALE as int * SCALE as int, SCALE as int);
}

/// Each component of a rotated vector of magnitude at most one unit per
/// component stays within `DIR_BOUND`.
pub proof fn lemma_rotate_bounded(q: Quat, v: Vec3)
    requires
        q.wf(),
        v.bounded_by(SCALE as int),
    ensures
        spec_rotate(q, v).bounded_by(DIR_BOUND as int),
        trunc_div(rot_num_x(q, v), SCALE * SCALE) == spec_rotate(q, v).x,
        trunc_div(rot_num_y(q, v), SCALE * SCALE) == spec_rotate(q, v).y,
        trunc_div(rot_num_z(q, v), SCALE * SCALE) == spec_rotate(q, v).z,
{
    assert forall|a: int, b: int, c: int| abs(a) <= SCALE && abs(b) <= SCALE && abs(c) <= SCALE implies
        -1_000_000_000_000_000_000 <= #[trigger] prod3(a, b, c) <= 1_000_000_000_000_000_000 by {
        lemma_prod3_bound(a, b, c);
    }
    let s2 = SCALE * SCALE;
    lemma_div_bounds(rot_num_x(q, v), s2);
    lemma_div_bounds(rot_num_y(q, v), s2);
    lemma_div_bounds(rot_num_z(q, v), s2);
}

/// The fixed-point product is odd in its first factor.
pub proof fn lemma_fmul_odd(a: int, k: int)
    ensures
        spec_fmul(-a, k) == -spec_fmul(a, k),
{
    assert((-a) * k == -(a * k)) by (nonlinear_arith);
}

/// Rotation is odd: the negation of a vector rotates to the negation of its image.
pub proof fn lemma_rotate_odd(q: Quat, v: Vec3)
    requires
        v.bounded_by(SCALE as int),
    ensures
        trunc_div(rot_num_x(q, spec_neg_vec(v)), SCALE * SCALE) == -trunc_div(rot_num_x(q, v), SCALE * SCALE),
        trunc_div(rot_num_y(q, spec_neg_vec(v)), SCALE * SCALE) == -trunc_div(rot_num_y(q, v), SCALE * SCALE),
        trunc_div(rot_num_z(q, spec_neg_vec(v)), SCALE * SCALE) == -trunc_div(rot_num_z(q, v), SCALE * SCALE),
        rot_num_x(q, spec_neg_vec(v)) == -rot_num_x(q, v),
        rot_num_y(q, spec_neg_vec(v)) == -rot_num_y(q, v),
        rot_num_z(q, spec_neg_vec(v)) == -rot_num_z(q, v),
{
    let n = spec_neg_vec(v);
    reveal(prod3);
    let (w, x, y, z) = (q.w as int, q.x as int, q.y as int, q.z as int);
    let (a, b, c) = (v.x as int, v.y as int, v.z as int);
    assert(n.x == -a && n.y == -b && n.z == -c);
    assert(rot_num_x(q, n) == -rot_num_x(q, v)) by (nonlinear_arith)
        requires
            rot_num_x(q, n) == prod3(-a, w, w) + prod3(-a, x, x) - prod3(-a, y, y) - prod3(-a, z, z) + 2 * prod3(-b, x, y)
                + 2 * prod3(-c, x, z) + 2 * prod3(-c, w, y) - 2 * prod3(-b, w, z),
            rot_num_x(q, v) == prod3(a, w, w) + prod3(a, x, x) - prod3(a, y, y) - prod3(a, z, z) + 2 * prod3(b, x, y)
                + 2 * prod3(c, x, z) + 2 * prod3(c, w, y) - 2 * prod3(b, w, z),
            forall|i: int, j: int, k: int| #[trigger] prod3(i, j, k) == i * j * k,
    ;
    assert(rot_num_y(q, n) == -rot_num_y(q, v)) by (nonlinear_arith)
        requires
            rot_num_y(q, n) == prod3(-b, w, w) - prod3(-b, x, x) + prod3(-b, y, y) - prod3(-b, z, z) + 2 * prod3(-a, x, y)
                + 2 * prod3(-c, y, z) + 2 * prod3(-a, w, z) - 2 * prod3(-c, w, x),
            rot_num_y(q, v) == prod3(b, w, w) - prod3(b, x, x) + prod3(b, y, y) - prod3(b, z, z) + 2 * prod3(a, x, y)
                + 2 * prod3(c, y, z) + 2 * prod3(a, w, z) - 2 * prod3(c, w, x),
            forall|i: int, j: int, k: int| #[trigger] prod3(i, j, k) == i * j * k,
    ;
    assert(rot_num_z(q, n) == -rot_num_z(q, v)) by (nonlinear_arith)
        requires
            rot_num_z(q, n) == prod3(-c, w, w) - prod3(-c, x, x) - prod3(-c, y, y) + prod3(-c, z, z) + 2 * prod3(-a, x, z)
                + 2 * prod3(-b, y, z) + 2 * prod3(-b, w, x) - 2 * prod3(-a, w, y),
            rot_num_z(q, v) == prod3(c, w, w) - prod3(c, x, x) - prod3(c, y, y) + prod3(c, z, z) + 2 * prod3(a, x, z)
                + 2 * prod3(b, y, z) + 2 * prod3(b, w, x) - 2 * prod3(a, w, y),
            forall|i: int, j: int, k: int| #[trigger] prod3(i, j, k) == i * j * k,
    ;
}

} // verus!
