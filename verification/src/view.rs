//! The 2D camera transform, in exact arithmetic.
//!
//! The camera maps world coordinates into the `[-1,1] × [-1,1]` clip
//! rectangle: a rotation about the view center, an axis scale that
//! flips the Y-down world convention into Y-up clip space, and a
//! translation keeping the pivot fixed, assembled into one 4×4 matrix
//! and then composed with a fixed depth remap taking Z from `[-1,1]`
//! to `[0,1]` for the target device's depth convention.
//!
//! Scalars are exact rationals over `i128`, so every matrix entry is
//! pinned to its defining formula. The cosine and sine of the rotation
//! are transcendental and are supplied by the caller; the rotation
//! angle itself, in degrees, travels with the transform as plain data.

use vstd::prelude::*;

verus! {

/// A mathematical rational: numerator over positive denominator.
pub struct Rat {
    pub n: int,
    pub d: int,
}

/// Exact product of two rationals.
pub open spec fn rat_mul(a: Rat, b: Rat) -> Rat {
    Rat { n: a.n * b.n, d: a.d * b.d }
}

/// Exact sum of two rationals.
pub open spec fn rat_add(a: Rat, b: Rat) -> Rat {
    Rat { n: a.n * b.d + b.n * a.d, d: a.d * b.d }
}

/// Exact negation of a rational.
pub open spec fn rat_neg(a: Rat) -> Rat {
    Rat { n: -a.n, d: a.d }
}

/// Exact difference of two rationals.
pub open spec fn rat_sub(a: Rat, b: Rat) -> Rat {
    Rat { n: a.n * b.d - b.n * a.d, d: a.d * b.d }
}

/// Exact quotient of two rationals, keeping the denominator positive.
/// Meaningful only for a non-zero divisor.
pub open spec fn rat_div(a: Rat, b: Rat) -> Rat {
    if b.n >= 0 {
        Rat { n: a.n * b.d, d: a.d * b.n }
    } else {
        Rat { n: -(a.n * b.d), d: a.d * -b.n }
    }
}

/// Whether two rationals denote the same value.
pub open spec fn rat_eq(a: Rat, b: Rat) -> bool {
    a.n * b.d == b.n * a.d
}

/// The rational zero, one and one-half, as their canonical
/// representations.
pub open spec fn rat_zero() -> Rat {
    Rat { n: 0, d: 1 }
}

pub open spec fn rat_one() -> Rat {
    Rat { n: 1, d: 1 }
}

pub open spec fn rat_half() -> Rat {
    Rat { n: 1, d: 2 }
}

/// A representation within bounds: numerator magnitude and denominator
/// at most `b`, denominator positive.
pub open spec fn rat_in(a: Rat, b: int) -> bool {
    &&& -b <= a.n <= b
    &&& 0 < a.d <= b
}

/// The product of two bounded values is bounded by the product of the
/// bounds.
pub proof fn lemma_abs_mul_le(x: int, y: int, bx: int, by: int)
    requires
        -bx <= x <= bx,
        -by <= y <= by,
        0 <= bx,
        0 <= by,
    ensures
        -(bx * by) <= x * y <= bx * by,
{
    assert(-(bx * by) <= x * y <= bx * by) by (nonlinear_arith)
        requires
            -bx <= x <= bx,
            -by <= y <= by,
            0 <= bx,
            0 <= by,
    ;
}

/// An exact rational scalar held in machine words: numerator over a
/// positive denominator. Representations are not reduced, so each
/// operation's result is pinned bit-for-bit by its defining formula.
#[derive(Clone, Copy, Debug)]
pub struct Ratio {
    n: i128,
    d: i128,
}

impl View for Ratio {
    type V = Rat;

    closed spec fn view(&self) -> Rat {
        Rat { n: self.n as int, d: self.d as int }
    }
}

impl Ratio {
    /// A positive denominator.
    pub open spec fn wf(&self) -> bool {
        self@.d > 0
    }

    /// The value `num / den`, sign-normalized so the denominator is
    /// positive.
    pub fn new(num: i64, den: i64) -> (r: Ratio)
        requires
            den != 0,
        ensures
            r.wf(),
            den > 0 ==> r@ == (Rat { n: num as int, d: den as int }),
            den < 0 ==> r@ == (Rat { n: -(num as int), d: -(den as int) }),
    {
        if den > 0 {
            Ratio { n: num as i128, d: den as i128 }
        } else {
            Ratio { n: -(num as i128), d: -(den as i128) }
        }
    }

    /// The numerator of the representation.
    pub fn num(&self) -> (r: i128)
        ensures
            r == self@.n,
    {
        self.n
    }

    /// The denominator of the representation.
    pub fn den(&self) -> (r: i128)
        ensures
            r == self@.d,
    {
        self.d
    }

    /// Exact product. The bounds keep the word arithmetic exact.
    pub fn mul(self, o: Ratio) -> (r: Ratio)
        requires
            self.wf(),
            o.wf(),
            -(i128::MAX as int) <= self@.n * o@.n <= i128::MAX as int,
            -(i128::MAX as int) <= self@.d * o@.d <= i128::MAX as int,
        ensures
            r@ == rat_mul(self@, o@),
            r.wf(),
    {
        proof {
            assert(self@.d * o@.d > 0) by (nonlinear_arith)
                requires
                    self@.d > 0,
                    o@.d > 0,
            ;
        }
        Ratio { n: self.n * o.n, d: self.d * o.d }
    }

    /// Exact sum. The bounds keep the word arithmetic exact.
    pub fn add(self, o: Ratio) -> (r: Ratio)
        requires
            self.wf(),
            o.wf(),
            -(i128::MAX as int) <= self@.n * o@.d <= i128::MAX as int,
            -(i128::MAX as int) <= o@.n * self@.d <= i128::MAX as int,
            -(i128::MAX as int) <= self@.n * o@.d + o@.n * self@.d <= i128::MAX as int,
            -(i128::MAX as int) <= self@.d * o@.d <= i128::MAX as int,
        ensures
            r@ == rat_add(self@, o@),
            r.wf(),
    {
        proof {
            assert(self@.d * o@.d > 0) by (nonlinear_arith)
                requires
                    self@.d > 0,
                    o@.d > 0,
            ;
        }
        Ratio { n: self.n * o.d + o.n * self.d, d: self.d * o.d }
    }

    /// Exact difference. The bounds keep the word arithmetic exact.
    pub fn sub(self, o: Ratio) -> (r: Ratio)
        requires
            self.wf(),
            o.wf(),
            -(i128::MAX as int) <= self@.n * o@.d <= i128::MAX as int,
            -(i128::MAX as int) <= o@.n * self@.d <= i128::MAX as int,
            -(i128::MAX as int) <= self@.n * o@.d - o@.n * self@.d <= i128::MAX as int,
            -(i128::MAX as int) <= self@.d * o@.d <= i128::MAX as int,
        ensures
            r@ == rat_sub(self@, o@),
            r.wf(),
    {
        proof {
            assert(self@.d * o@.d > 0) by (nonlinear_arith)
                requires
                    self@.d > 0,
                    o@.d > 0,
            ;
        }
        Ratio { n: self.n * o.d - o.n * self.d, d: self.d * o.d }
    }

    /// Exact negation.
    pub fn neg(self) -> (r: Ratio)
        requires
            self.wf(),
            -(i128::MAX as int) <= self@.n <= i128::MAX as int,
        ensures
            r@ == rat_neg(self@),
            r.wf(),
    {
        Ratio { n: -self.n, d: self.d }
    }

    /// Exact quotient by a non-zero value, keeping the denominator
    /// positive.
    pub fn div(self, o: Ratio) -> (r: Ratio)
        requires
            self.wf(),
            o.wf(),
            o@.n != 0,
            -(i128::MAX as int) <= o@.n <= i128::MAX as int,
            -(i128::MAX as int) <= self@.n * o@.d <= i128::MAX as int,
            -(i128::MAX as int) <= self@.d * o@.n <= i128::MAX as int,
        ensures
            r@ == rat_div(self@, o@),
            r.wf(),
    {
        if o.n >= 0 {
            proof {
                assert(self@.d * o@.n > 0) by (nonlinear_arith)
                    requires
                        self@.d > 0,
                        o@.n > 0,
                ;
            }
            Ratio { n: self.n * o.d, d: self.d * o.n }
        } else {
            proof {
                assert(self@.d * -o@.n > 0) by (nonlinear_arith)
                    requires
                        self@.d > 0,
                        -o@.n > 0,
                ;
                assert(self@.d * -o@.n == -(self@.d * o@.n)) by (nonlinear_arith);
            }
            Ratio { n: -(self.n * o.d), d: self.d * -o.n }
        }
    }

    /// Whether the two scalars denote the same value, whatever their
    /// representations. The bounds keep the cross products exact.
    pub fn eq_val(&self, o: &Ratio) -> (r: bool)
        requires
            self.wf(),
            o.wf(),
            rat_in(self@, 0x4000000000000000),
            rat_in(o@, 0x4000000000000000),
        ensures
            r == rat_eq(self@, o@),
    {
        proof {
            lemma_abs_mul_le(self@.n, o@.d, 0x4000000000000000, 0x4000000000000000);
            lemma_abs_mul_le(o@.n, self@.d, 0x4000000000000000, 0x4000000000000000);
        }
        self.n * o.d == o.n * self.d
    }
}

/// A 4×4 matrix of exact rationals, in column-major naming: `c2r1` is
/// column 2, row 1.
pub struct RatMat4 {
    pub c0r0: Rat,
    pub c0r1: Rat,
    pub c0r2: Rat,
    pub c0r3: Rat,
    pub c1r0: Rat,
    pub c1r1: Rat,
    pub c1r2: Rat,
    pub c1r3: Rat,
    pub c2r0: Rat,
    pub c2r1: Rat,
    pub c2r2: Rat,
    pub c2r3: Rat,
    pub c3r0: Rat,
    pub c3r1: Rat,
    pub c3r2: Rat,
    pub c3r3: Rat,
}

/// The executable 4×4 matrix, column-major, of exact rational entries.
#[derive(Clone, Copy, Debug)]
pub struct Mat4 {
    pub c0r0: Ratio,
    pub c0r1: Ratio,
    pub c0r2: Ratio,
    pub c0r3: Ratio,
    pub c1r0: Ratio,
    pub c1r1: Ratio,
    pub c1r2: Ratio,
    pub c1r3: Ratio,
    pub c2r0: Ratio,
    pub c2r1: Ratio,
    pub c2r2: Ratio,
    pub c2r3: Ratio,
    pub c3r0: Ratio,
    pub c3r1: Ratio,
    pub c3r2: Ratio,
    pub c3r3: Ratio,
}

impl View for Mat4 {
    type V = RatMat4;

    open spec fn view(&self) -> RatMat4 {
        RatMat4 {
            c0r0: self.c0r0@,
            c0r1: self.c0r1@,
            c0r2: self.c0r2@,
            c0r3: self.c0r3@,
            c1r0: self.c1r0@,
            c1r1: self.c1r1@,
            c1r2: self.c1r2@,
            c1r3: self.c1r3@,
            c2r0: self.c2r0@,
            c2r1: self.c2r1@,
            c2r2: self.c2r2@,
            c2r3: self.c2r3@,
            c3r0: self.c3r0@,
            c3r1: self.c3r1@,
            c3r2: self.c3r2@,
            c3r3: self.c3r3@,
        }
    }
}

/// All entry representations within bounds.
pub open spec fn mat_in(m: RatMat4, b: int) -> bool {
    &&& rat_in(m.c0r0, b) && rat_in(m.c0r1, b) && rat_in(m.c0r2, b) && rat_in(m.c0r3, b)
    &&& rat_in(m.c1r0, b) && rat_in(m.c1r1, b) && rat_in(m.c1r2, b) && rat_in(m.c1r3, b)
    &&& rat_in(m.c2r0, b) && rat_in(m.c2r1, b) && rat_in(m.c2r2, b) && rat_in(m.c2r3, b)
    &&& rat_in(m.c3r0, b) && rat_in(m.c3r1, b) && rat_in(m.c3r2, b) && rat_in(m.c3r3, b)
}

/// All entries have positive denominators.
pub open spec fn mat_wf(m: RatMat4) -> bool {
    &&& m.c0r0.d > 0 && m.c0r1.d > 0 && m.c0r2.d > 0 && m.c0r3.d > 0
    &&& m.c1r0.d > 0 && m.c1r1.d > 0 && m.c1r2.d > 0 && m.c1r3.d > 0
    &&& m.c2r0.d > 0 && m.c2r1.d > 0 && m.c2r2.d > 0 && m.c2r3.d > 0
    &&& m.c3r0.d > 0 && m.c3r1.d > 0 && m.c3r2.d > 0 && m.c3r3.d > 0
}

/// The camera-view matrix before the depth remap, from the view
/// center, view size and the rotation's cosine and sine: rotation
/// about the center, the `2/width` and `-2/height` axis scale (the
/// minus flips the Y-down world into Y-up clip space), and the
/// translation that keeps the pivot fixed.
pub open spec fn sf_view_matrix(cx: Rat, cy: Rat, w: Rat, h: Rat, cos_a: Rat, sin_a: Rat) -> RatMat4 {
    let a = rat_div(Rat { n: 2, d: 1 }, w);
    let b = rat_div(Rat { n: -2, d: 1 }, h);
    let tx = rat_add(rat_add(rat_mul(rat_neg(cx), cos_a), rat_mul(rat_neg(cy), sin_a)), cx);
    let ty = rat_add(rat_sub(rat_mul(cx, sin_a), rat_mul(cy, cos_a)), cy);
    let c = rat_neg(rat_mul(a, cx));
    let d = rat_neg(rat_mul(b, cy));
    RatMat4 {
        c0r0: rat_mul(a, cos_a),
        c0r1: rat_neg(rat_mul(b, sin_a)),
        c0r2: rat_zero(),
        c0r3: rat_zero(),
        c1r0: rat_mul(a, sin_a),
        c1r1: rat_mul(b, cos_a),
        c1r2: rat_zero(),
        c1r3: rat_zero(),
        c2r0: rat_zero(),
        c2r1: rat_zero(),
        c2r2: rat_one(),
        c2r3: rat_zero(),
        c3r0: rat_add(rat_mul(a, tx), c),
        c3r1: rat_add(rat_mul(b, ty), d),
        c3r2: rat_zero(),
        c3r3: rat_one(),
    }
}

/// Composition with the fixed depth-remap matrix: identity on X and Y,
/// Z mapped from `[-1,1]` to `[0,1]`, W unchanged. Columns 0 and 1
/// pass through; column 2 is halved; column 3 gains half of column 2.
pub open spec fn depth_remap(m: RatMat4) -> RatMat4 {
    RatMat4 {
        c0r0: m.c0r0,
        c0r1: m.c0r1,
        c0r2: m.c0r2,
        c0r3: m.c0r3,
        c1r0: m.c1r0,
        c1r1: m.c1r1,
        c1r2: m.c1r2,
        c1r3: m.c1r3,
        c2r0: rat_mul(rat_half(), m.c2r0),
        c2r1: rat_mul(rat_half(), m.c2r1),
        c2r2: rat_mul(rat_half(), m.c2r2),
        c2r3: rat_mul(rat_half(), m.c2r3),
        c3r0: rat_add(rat_mul(rat_half(), m.c2r0), m.c3r0),
        c3r1: rat_add(rat_mul(rat_half(), m.c2r1), m.c3r1),
        c3r2: rat_add(rat_mul(rat_half(), m.c2r2), m.c3r2),
        c3r3: rat_add(rat_mul(rat_half(), m.c2r3), m.c3r3),
    }
}

/// One row of a matrix applied to the homogeneous point `(x, y, z, 1)`.
pub open spec fn map_row(e0: Rat, e1: Rat, e2: Rat, e3: Rat, x: Rat, y: Rat, z: Rat) -> Rat {
    rat_add(rat_add(rat_add(rat_mul(e0, x), rat_mul(e1, y)), rat_mul(e2, z)), e3)
}

/// A matrix applied to the homogeneous point `(x, y, z, 1)`: the four
/// clip-space components, in order.
pub open spec fn map_point(m: RatMat4, x: Rat, y: Rat, z: Rat) -> (Rat, Rat, Rat, Rat) {
    (
        map_row(m.c0r0, m.c1r0, m.c2r0, m.c3r0, x, y, z),
        map_row(m.c0r1, m.c1r1, m.c2r1, m.c3r1, x, y, z),
        map_row(m.c0r2, m.c1r2, m.c2r2, m.c3r2, x, y, z),
        map_row(m.c0r3, m.c1r3, m.c2r3, m.c3r3, x, y, z),
    )
}

/// The 2D camera: view center, view size (both components strictly
/// non-zero) and rotation in degrees. A plain value; the fields are
/// free to mutate between frames.
#[derive(Clone, Copy, Debug)]
pub struct ViewTransform {
    pub center: (Ratio, Ratio),
    pub size: (Ratio, Ratio),
    pub rotation: Ratio,
}

impl ViewTransform {
    /// The world-to-clip matrix of this camera, composed with the
    /// fixed depth remap, given the cosine and sine of the rotation
    /// angle (their evaluation is transcendental and rests with the
    /// caller). Deterministic: equal inputs give an identical matrix.
    /// The input bounds keep every intermediate product exact.
    pub fn get_matrix4(&self, cos_a: Ratio, sin_a: Ratio) -> (r: Mat4)
        requires
            rat_in(self.center.0@, 16384),
            rat_in(self.center.1@, 16384),
            rat_in(self.size.0@, 16384),
            rat_in(self.size.1@, 16384),
            rat_in(cos_a@, 16384),
            rat_in(sin_a@, 16384),
            self.size.0@.n != 0,
            self.size.1@.n != 0,
        ensures
            r@ == depth_remap(
                sf_view_matrix(
                    self.center.0@,
                    self.center.1@,
                    self.size.0@,
                    self.size.1@,
                    cos_a@,
                    sin_a@,
                ),
            ),
            mat_wf(r@),
    {
        let cx = self.center.0;
        let cy = self.center.1;
        let two = Ratio::new(2, 1);
        let neg_two = Ratio::new(-2, 1);
        let zero = Ratio::new(0, 1);
        let one = Ratio::new(1, 1);
        let half = Ratio::new(1, 2);

        // a = 2 / width, b = -2 / height; bound 2^15.
        proof {
            lemma_abs_mul_le(two@.n, self.size.0@.d, 2, 16384);
            lemma_abs_mul_le(two@.d, self.size.0@.n, 1, 16384);
            lemma_abs_mul_le(neg_two@.n, self.size.1@.d, 2, 16384);
            lemma_abs_mul_le(neg_two@.d, self.size.1@.n, 1, 16384);
        }
        let a = two.div(self.size.0);
        let b = neg_two.div(self.size.1);

        // tx = -cx*cos - cy*sin + cx; bound 2^72.
        let neg_cx = cx.neg();
        let neg_cy = cy.neg();
        proof {
            lemma_abs_mul_le(neg_cx@.n, cos_a@.n, 16384, 16384);
            lemma_abs_mul_le(neg_cx@.d, cos_a@.d, 16384, 16384);
            lemma_abs_mul_le(neg_cy@.n, sin_a@.n, 16384, 16384);
            lemma_abs_mul_le(neg_cy@.d, sin_a@.d, 16384, 16384);
        }
        let t1 = neg_cx.mul(cos_a);
        let t2 = neg_cy.mul(sin_a);
        proof {
            lemma_abs_mul_le(t1@.n, t2@.d, 268435456, 268435456);
            lemma_abs_mul_le(t2@.n, t1@.d, 268435456, 268435456);
            lemma_abs_mul_le(t1@.d, t2@.d, 268435456, 268435456);
        }
        let t12 = t1.add(t2);
        proof {
            lemma_abs_mul_le(t12@.n, cx@.d, 144115188075855872, 16384);
            lemma_abs_mul_le(cx@.n, t12@.d, 16384, 72057594037927936);
            lemma_abs_mul_le(t12@.d, cx@.d, 72057594037927936, 16384);
        }
        let tx = t12.add(cx);

        // ty = cx*sin - cy*cos + cy; bound 2^72.
        proof {
            lemma_abs_mul_le(cx@.n, sin_a@.n, 16384, 16384);
            lemma_abs_mul_le(cx@.d, sin_a@.d, 16384, 16384);
            lemma_abs_mul_le(cy@.n, cos_a@.n, 16384, 16384);
            lemma_abs_mul_le(cy@.d, cos_a@.d, 16384, 16384);
        }
        let u1 = cx.mul(sin_a);
        let u2 = cy.mul(cos_a);
        proof {
            lemma_abs_mul_le(u1@.n, u2@.d, 268435456, 268435456);
            lemma_abs_mul_le(u2@.n, u1@.d, 268435456, 268435456);
            lemma_abs_mul_le(u1@.d, u2@.d, 268435456, 268435456);
        }
        let u12 = u1.sub(u2);
        proof {
            lemma_abs_mul_le(u12@.n, cy@.d, 144115188075855872, 16384);
            lemma_abs_mul_le(cy@.n, u12@.d, 16384, 72057594037927936);
            lemma_abs_mul_le(u12@.d, cy@.d, 72057594037927936, 16384);
        }
        let ty = u12.add(cy);

        // c = -(a*cx), d = -(b*cy); bound 2^29.
        proof {
            lemma_abs_mul_le(a@.n, cx@.n, 32768, 16384);
            lemma_abs_mul_le(a@.d, cx@.d, 32768, 16384);
            lemma_abs_mul_le(b@.n, cy@.n, 32768, 16384);
            lemma_abs_mul_le(b@.d, cy@.d, 32768, 16384);
        }
        let c = a.mul(cx).neg();
        let d = b.mul(cy).neg();

        // Rotation-and-scale entries; bound 2^29.
        proof {
            lemma_abs_mul_le(a@.n, cos_a@.n, 32768, 16384);
            lemma_abs_mul_le(a@.d, cos_a@.d, 32768, 16384);
            lemma_abs_mul_le(b@.n, sin_a@.n, 32768, 16384);
            lemma_abs_mul_le(b@.d, sin_a@.d, 32768, 16384);
            lemma_abs_mul_le(a@.n, sin_a@.n, 32768, 16384);
            lemma_abs_mul_le(a@.d, sin_a@.d, 32768, 16384);
            lemma_abs_mul_le(b@.n, cos_a@.n, 32768, 16384);
            lemma_abs_mul_le(b@.d, cos_a@.d, 32768, 16384);
        }
        let e00 = a.mul(cos_a);
        let e01 = b.mul(sin_a).neg();
        let e10 = a.mul(sin_a);
        let e11 = b.mul(cos_a);

        // Translation entries a*tx + c and b*ty + d; bound 2^117.
        proof {
            lemma_abs_mul_le(a@.n, tx@.n, 32768, 4722366482869645213696);
            lemma_abs_mul_le(a@.d, tx@.d, 32768, 4722366482869645213696);
            lemma_abs_mul_le(b@.n, ty@.n, 32768, 4722366482869645213696);
            lemma_abs_mul_le(b@.d, ty@.d, 32768, 4722366482869645213696);
        }
        let atx = a.mul(tx);
        let bty = b.mul(ty);
        proof {
            lemma_abs_mul_le(atx@.n, c@.d, 154742504910672534362390528, 536870912);
            lemma_abs_mul_le(c@.n, atx@.d, 536870912, 154742504910672534362390528);
            lemma_abs_mul_le(atx@.d, c@.d, 154742504910672534362390528, 536870912);
            lemma_abs_mul_le(bty@.n, d@.d, 154742504910672534362390528, 536870912);
            lemma_abs_mul_le(d@.n, bty@.d, 536870912, 154742504910672534362390528);
            lemma_abs_mul_le(bty@.d, d@.d, 154742504910672534362390528, 536870912);
        }
        let e30 = atx.add(c);
        let e31 = bty.add(d);

        // Compose with the depth remap: halve column 2, add half of
        // column 2 into column 3.
        let z20 = half.mul(zero);
        let z21 = half.mul(zero);
        let z22 = half.mul(one);
        let z23 = half.mul(zero);
        proof {
            lemma_abs_mul_le(z20@.n, e30@.d, 2, 166153499473114484112975882535043072);
            lemma_abs_mul_le(e30@.n, z20@.d, 166153499473114484112975882535043072, 2);
            lemma_abs_mul_le(z20@.d, e30@.d, 2, 166153499473114484112975882535043072);
            lemma_abs_mul_le(z21@.n, e31@.d, 2, 166153499473114484112975882535043072);
            lemma_abs_mul_le(e31@.n, z21@.d, 166153499473114484112975882535043072, 2);
            lemma_abs_mul_le(z21@.d, e31@.d, 2, 166153499473114484112975882535043072);
        }
        let p30 = z20.add(e30);
        let p31 = z21.add(e31);
        let p32 = z22.add(zero);
        let p33 = z23.add(one);

        Mat4 {
            c0r0: e00,
            c0r1: e01,
            c0r2: zero,
            c0r3: zero,
            c1r0: e10,
            c1r1: e11,
            c1r2: zero,
            c1r3: zero,
            c2r0: z20,
            c2r1: z21,
            c2r2: z22,
            c2r3: z23,
            c3r0: p30,
            c3r1: p31,
            c3r2: p32,
            c3r3: p33,
        }
    }
}

/// One matrix row applied to `(x, y, z, 1)`, in exact arithmetic. The
/// bounds keep every intermediate product inside the word size.
fn row_combine(e0: Ratio, e1: Ratio, e2: Ratio, e3: Ratio, x: Ratio, y: Ratio, z: Ratio) -> (r:
    Ratio)
    requires
        rat_in(e0@, 131072),
        rat_in(e1@, 131072),
        rat_in(e2@, 131072),
        rat_in(e3@, 131072),
        rat_in(x@, 131072),
        rat_in(y@, 131072),
        rat_in(z@, 131072),
    ensures
        r@ == map_row(e0@, e1@, e2@, e3@, x@, y@, z@),
        r.wf(),
{
    proof {
        lemma_abs_mul_le(e0@.n, x@.n, 131072, 131072);
        lemma_abs_mul_le(e0@.d, x@.d, 131072, 131072);
        lemma_abs_mul_le(e1@.n, y@.n, 131072, 131072);
        lemma_abs_mul_le(e1@.d, y@.d, 131072, 131072);
        lemma_abs_mul_le(e2@.n, z@.n, 131072, 131072);
        lemma_abs_mul_le(e2@.d, z@.d, 131072, 131072);
    }
    let t1 = e0.mul(x);
    let t2 = e1.mul(y);
    let t3 = e2.mul(z);
    proof {
        lemma_abs_mul_le(t1@.n, t2@.d, 17179869184, 17179869184);
        lemma_abs_mul_le(t2@.n, t1@.d, 17179869184, 17179869184);
        lemma_abs_mul_le(t1@.d, t2@.d, 17179869184, 17179869184);
    }
    let t12 = t1.add(t2);
    proof {
        lemma_abs_mul_le(t12@.n, t3@.d, 590295810358705651712, 17179869184);
        lemma_abs_mul_le(t3@.n, t12@.d, 17179869184, 295147905179352825856);
        lemma_abs_mul_le(t12@.d, t3@.d, 295147905179352825856, 17179869184);
    }
    let t123 = t12.add(t3);
    proof {
        lemma_abs_mul_le(t123@.n, e3@.d, 20282409603651670423947251286016, 131072);
        lemma_abs_mul_le(e3@.n, t123@.d, 131072, 5070602400912917605986812821504);
        lemma_abs_mul_le(t123@.d, e3@.d, 5070602400912917605986812821504, 131072);
    }
    t123.add(e3)
}

/// A matrix applied to the world point `(x, y, z)`, returning the four
/// clip-space components. Exact; the bounds keep the word arithmetic
/// exact.
pub fn transform_point(m: &Mat4, x: Ratio, y: Ratio, z: Ratio) -> (r: (Ratio, Ratio, Ratio, Ratio))
    requires
        mat_in(m@, 131072),
        rat_in(x@, 131072),
        rat_in(y@, 131072),
        rat_in(z@, 131072),
    ensures
        (r.0@, r.1@, r.2@, r.3@) == map_point(m@, x@, y@, z@),
        r.0.wf() && r.1.wf() && r.2.wf() && r.3.wf(),
{
    let r0 = row_combine(m.c0r0, m.c1r0, m.c2r0, m.c3r0, x, y, z);
    let r1 = row_combine(m.c0r1, m.c1r1, m.c2r1, m.c3r1, x, y, z);
    let r2 = row_combine(m.c0r2, m.c1r2, m.c2r2, m.c3r2, x, y, z);
    let r3 = row_combine(m.c0r3, m.c1r3, m.c2r3, m.c3r3, x, y, z);
    (r0, r1, r2, r3)
}

} // verus!
