//! Three-component vectors of fixed-point scalars.
//!
//! The mathematical model of a vector is a triple of unbounded integers
//! (`Fp3`), each at scale `FP_ONE`; the view of a `Vec3` is that triple.

use vstd::prelude::*;
use crate::fixed::{
    fp_mul, fp_mul_spec, lemma_mul_bound, lemma_tdiv_le, sqrt_floor, sqrt_i64, tdiv, tdiv_i64,
    FP_ONE,
};

verus! {

/// Model of a vector: components as unbounded integers at scale `FP_ONE`.
pub type Fp3 = (int, int, int);

/// A vector of three fixed-point scalars.
#[derive(Clone, Copy, PartialEq, Eq, Structural, Debug)]
pub struct Vec3 {
    pub x: i64,
    pub y: i64,
    pub z: i64,
}

impl View for Vec3 {
    type V = Fp3;

    open spec fn view(&self) -> Fp3 {
        (self.x as int, self.y as int, self.z as int)
    }
}

/// Every component of `a` lies in `[-c, c]`.
pub open spec fn in_range(a: Fp3, c: int) -> bool {
    &&& -c <= a.0 <= c
    &&& -c <= a.1 <= c
    &&& -c <= a.2 <= c
}

/// Componentwise sum.
pub open spec fn vadd(a: Fp3, b: Fp3) -> Fp3 {
    (a.0 + b.0, a.1 + b.1, a.2 + b.2)
}

/// Componentwise difference.
pub open spec fn vsub(a: Fp3, b: Fp3) -> Fp3 {
    (a.0 - b.0, a.1 - b.1, a.2 - b.2)
}

/// Componentwise negation.
pub open spec fn vneg(a: Fp3) -> Fp3 {
    (-a.0, -a.1, -a.2)
}

/// Dot product at product scale (`FP_ONE * FP_ONE`): the plain sum of the
/// componentwise products, not rescaled. Its sign is exact.
pub open spec fn dot_raw_spec(a: Fp3, b: Fp3) -> int {
    a.0 * b.0 + a.1 * b.1 + a.2 * b.2
}

/// Squared length at product scale.
pub open spec fn norm2_spec(a: Fp3) -> int {
    dot_raw_spec(a, a)
}

/// Dot product brought back to scale `FP_ONE`.
pub open spec fn dot_fp_spec(a: Fp3, b: Fp3) -> int {
    tdiv(dot_raw_spec(a, b), FP_ONE as int)
}

/// The vector scaled by the fixed-point factor `k`.
pub open spec fn smul_spec(k: int, a: Fp3) -> Fp3 {
    (fp_mul_spec(k, a.0), fp_mul_spec(k, a.1), fp_mul_spec(k, a.2))
}

/// Length at scale `FP_ONE`: the floor square root of the squared length,
/// which sits at product scale.
pub open spec fn length_spec(a: Fp3) -> int {
    sqrt_floor(norm2_spec(a))
}

/// The vector rescaled to (approximately) unit length: each component is
/// multiplied by `FP_ONE` and divided by the length, rounding toward zero.
pub open spec fn unit_spec(a: Fp3) -> Fp3 {
    let len = length_spec(a);
    (tdiv(a.0 * FP_ONE, len), tdiv(a.1 * FP_ONE, len), tdiv(a.2 * FP_ONE, len))
}

/// Ideal specular reflection of `d` about the normal `n`:
/// `d - 2 * (d . n) * n`, with the dot product and the scaling at
/// fixed-point precision.
pub open spec fn reflect_spec(d: Fp3, n: Fp3) -> Fp3 {
    let t = dot_fp_spec(d, n);
    (
        d.0 - 2 * fp_mul_spec(t, n.0),
        d.1 - 2 * fp_mul_spec(t, n.1),
        d.2 - 2 * fp_mul_spec(t, n.2),
    )
}

/// A nonzero vector has a positive squared length, and conversely.
pub proof fn lemma_norm2_pos(a: Fp3)
    ensures
        norm2_spec(a) >= 0,
        norm2_spec(a) == 0 <==> a == ((0int, 0int, 0int)),
{
    assert(norm2_spec(a) >= 0 && (norm2_spec(a) == 0 <==> a.0 == 0 && a.1 == 0 && a.2 == 0))
        by (nonlinear_arith);
}

impl Vec3 {
    /// Componentwise sum.
    pub fn add(&self, o: &Vec3) -> (r: Vec3)
        requires
            in_range(self@, 0x100_0000_0000),
            in_range(o@, 0x100_0000_0000),
        ensures
            r@ == vadd(self@, o@),
    {
        Vec3 { x: self.x + o.x, y: self.y + o.y, z: self.z + o.z }
    }

    /// Componentwise difference.
    pub fn sub(&self, o: &Vec3) -> (r: Vec3)
        requires
            in_range(self@, 0x100_0000_0000),
            in_range(o@, 0x100_0000_0000),
        ensures
            r@ == vsub(self@, o@),
    {
        Vec3 { x: self.x - o.x, y: self.y - o.y, z: self.z - o.z }
    }

    /// Componentwise negation.
    pub fn neg(&self) -> (r: Vec3)
        requires
            in_range(self@, 0x100_0000_0000),
        ensures
            r@ == vneg(self@),
    {
        Vec3 { x: -self.x, y: -self.y, z: -self.z }
    }

    /// The vector scaled by the fixed-point factor `k`.
    pub fn smul(&self, k: i64) -> (r: Vec3)
        requires
            -0x8000_0000 <= k <= 0x8000_0000,
            in_range(self@, 0x8000_0000),
        ensures
            r@ == smul_spec(k as int, self@),
    {
        Vec3 { x: fp_mul(k, self.x), y: fp_mul(k, self.y), z: fp_mul(k, self.z) }
    }

    /// Dot product at product scale; the sum itself, not rescaled.
    pub fn dot_raw(&self, o: &Vec3) -> (r: i64)
        requires
            in_range(self@, 0x80_0000),
            in_range(o@, 0x80_0000),
        ensures
            r as int == dot_raw_spec(self@, o@),
    {
        proof {
            lemma_mul_bound(self@.0, o@.0, 0x80_0000, 0x80_0000);
            lemma_mul_bound(self@.1, o@.1, 0x80_0000, 0x80_0000);
            lemma_mul_bound(self@.2, o@.2, 0x80_0000, 0x80_0000);
        }
        self.x * o.x + self.y * o.y + self.z * o.z
    }

    /// Dot product brought back to scale `FP_ONE`.
    pub fn dot_fp(&self, o: &Vec3) -> (r: i64)
        requires
            in_range(self@, 0x80_0000),
            in_range(o@, 0x80_0000),
        ensures
            r as int == dot_fp_spec(self@, o@),
    {
        let d = self.dot_raw(o);
        proof {
            lemma_mul_bound(self@.0, o@.0, 0x80_0000, 0x80_0000);
            lemma_mul_bound(self@.1, o@.1, 0x80_0000, 0x80_0000);
            lemma_mul_bound(self@.2, o@.2, 0x80_0000, 0x80_0000);
        }
        tdiv_i64(d, FP_ONE)
    }

    /// Squared length at product scale.
    pub fn norm2(&self) -> (r: i64)
        requires
            in_range(self@, 0x400_0000),
        ensures
            r as int == norm2_spec(self@),
            r >= 0,
            r == 0 <==> self@ == ((0int, 0int, 0int)),
    {
        proof {
            lemma_mul_bound(self@.0, self@.0, 0x400_0000, 0x400_0000);
            lemma_mul_bound(self@.1, self@.1, 0x400_0000, 0x400_0000);
            lemma_mul_bound(self@.2, self@.2, 0x400_0000, 0x400_0000);
            lemma_norm2_pos(self@);
        }
        self.x * self.x + self.y * self.y + self.z * self.z
    }

    /// The vector rescaled to (approximately) unit length. Each component of
    /// the result lies in `[-FP_ONE, FP_ONE]`.
    pub fn unit(&self) -> (u: Vec3)
        requires
            in_range(self@, 0x400_0000),
            norm2_spec(self@) > 0,
        ensures
            u@ == unit_spec(self@),
            in_range(u@, FP_ONE as int),
    {
        let n2 = self.norm2();
        let len = sqrt_i64(n2);
        proof {
            assert(len >= 1) by {
                if len == 0 {
                    assert((len as int + 1) * (len as int + 1) == 1);
                }
            }
            assert(-(len as int) <= self.x as int <= len as int
                && -(len as int) <= self.y as int <= len as int
                && -(len as int) <= self.z as int <= len as int) by (nonlinear_arith)
                requires
                    n2 as int == (self.x as int) * (self.x as int) + (self.y as int) * (self.y
                        as int) + (self.z as int) * (self.z as int),
                    (n2 as int) < (len as int + 1) * (len as int + 1),
                    len >= 0,
            ;
            assert(-(len as int) * 65536 <= (self.x as int) * 65536 <= (len as int) * 65536
                && -(len as int) * 65536 <= (self.y as int) * 65536 <= (len as int) * 65536
                && -(len as int) * 65536 <= (self.z as int) * 65536 <= (len as int) * 65536
                && (len as int) * 65536 == 65536 * (len as int)) by (nonlinear_arith)
                requires
                    -(len as int) <= self.x as int <= len as int,
                    -(len as int) <= self.y as int <= len as int,
                    -(len as int) <= self.z as int <= len as int,
            ;
            lemma_tdiv_le((self.x as int) * 65536, len as int, 65536);
            lemma_tdiv_le((self.y as int) * 65536, len as int, 65536);
            lemma_tdiv_le((self.z as int) * 65536, len as int, 65536);
        }
        let ux = tdiv_i64(self.x * FP_ONE, len);
        let uy = tdiv_i64(self.y * FP_ONE, len);
        let uz = tdiv_i64(self.z * FP_ONE, len);
        Vec3 { x: ux, y: uy, z: uz }
    }

    /// Ideal specular reflection about the normal `n`. For inputs with
    /// components in `[-FP_ONE, FP_ONE]` the result's components lie in
    /// `[-7 * FP_ONE, 7 * FP_ONE]`.
    pub fn reflect(&self, n: &Vec3) -> (r: Vec3)
        requires
            in_range(self@, FP_ONE as int),
            in_range(n@, FP_ONE as int),
        ensures
            r@ == reflect_spec(self@, n@),
            in_range(r@, 7 * FP_ONE as int),
    {
        proof {
            lemma_mul_bound(self@.0, n@.0, 65536, 65536);
            lemma_mul_bound(self@.1, n@.1, 65536, 65536);
            lemma_mul_bound(self@.2, n@.2, 65536, 65536);
            lemma_tdiv_le(dot_raw_spec(self@, n@), 65536, 196608);
        }
        let t = self.dot_fp(n);
        proof {
            lemma_mul_bound(t as int, n@.0, 196608, 65536);
            lemma_mul_bound(t as int, n@.1, 196608, 65536);
            lemma_mul_bound(t as int, n@.2, 196608, 65536);
            lemma_tdiv_le((t as int) * n@.0, 65536, 196608);
            lemma_tdiv_le((t as int) * n@.1, 65536, 196608);
            lemma_tdiv_le((t as int) * n@.2, 65536, 196608);
        }
        Vec3 {
            x: self.x - 2 * fp_mul(t, n.x),
            y: self.y - 2 * fp_mul(t, n.y),
            z: self.z - 2 * fp_mul(t, n.z),
        }
    }

    /// True exactly on the zero vector, the one degenerate direction in the
    /// fixed-point representation.
    pub fn is_zero(&self) -> (r: bool)
        ensures
            r <==> self@ == ((0int, 0int, 0int)),
    {
        self.x == 0 && self.y == 0 && self.z == 0
    }
}

} // verus!
