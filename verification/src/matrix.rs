//! Exact 4×4 integer matrices in homogeneous coordinates.
//!
//! A matrix and any positive multiple of it describe the same projective
//! transformation, so rational scalings and axis-aligned projections are
//! represented without rounding. Entries are stored row by row.

use vstd::prelude::*;

verus! {

/// Entry `(r, c)` of a matrix given as sixteen integers, row by row.
pub open spec fn entry(m: Seq<int>, r: int, c: int) -> int {
    m[4 * r + c]
}

/// One entry of the product `a × b`: row `r` of `a` against column `c` of `b`.
pub open spec fn dot(a: Seq<int>, b: Seq<int>, r: int, c: int) -> int {
    entry(a, r, 0) * entry(b, 0, c) + entry(a, r, 1) * entry(b, 1, c) + entry(a, r, 2) * entry(
        b,
        2,
        c,
    ) + entry(a, r, 3) * entry(b, 3, c)
}

/// The matrix product `a × b` over the integers.
pub open spec fn mat_mul(a: Seq<int>, b: Seq<int>) -> Seq<int> {
    Seq::new(16, |i: int| dot(a, b, i / 4, i % 4))
}

/// The identity matrix.
pub open spec fn mat_identity() -> Seq<int> {
    Seq::new(16, |i: int| if i / 4 == i % 4 { 1int } else { 0int })
}

/// Whether every entry of `m` can be stored in a `Matrix4`.
pub open spec fn representable(m: Seq<int>) -> bool {
    m.len() == 16 && forall|i: int| 0 <= i < 16 ==> i32::MIN <= #[trigger] m[i] <= i32::MAX
}

/// Entry `(r, c)` of the identity.
proof fn lemma_identity_entry(r: int, c: int)
    requires
        0 <= r < 4,
        0 <= c < 4,
    ensures
        entry(mat_identity(), r, c) == if r == c { 1int } else { 0int },
{
    assert((4 * r + c) / 4 == r);
    assert((4 * r + c) % 4 == c);
}

/// The identity is neutral for the product on either side.
pub proof fn lemma_identity_neutral(m: Seq<int>)
    requires
        m.len() == 16,
    ensures
        mat_mul(mat_identity(), m) == m,
        mat_mul(m, mat_identity()) == m,
{
    let id = mat_identity();
    assert forall|i: int| 0 <= i < 16 implies mat_mul(id, m)[i] == m[i] && mat_mul(m, id)[i]
        == m[i] by {
        let r = i / 4;
        let c = i % 4;
        lemma_identity_entry(r, 0);
        lemma_identity_entry(r, 1);
        lemma_identity_entry(r, 2);
        lemma_identity_entry(r, 3);
        lemma_identity_entry(0, c);
        lemma_identity_entry(1, c);
        lemma_identity_entry(2, c);
        lemma_identity_entry(3, c);
        assert(dot(id, m, r, c) == entry(m, r, c));
        assert(dot(m, id, r, c) == entry(m, r, c));
    }
    assert(mat_mul(id, m) =~= m);
    assert(mat_mul(m, id) =~= m);
}

/// The image of the column vector `v` under `m`.
pub open spec fn apply(m: Seq<int>, v: (int, int, int, int)) -> (int, int, int, int) {
    (
        entry(m, 0, 0) * v.0 + entry(m, 0, 1) * v.1 + entry(m, 0, 2) * v.2 + entry(m, 0, 3) * v.3,
        entry(m, 1, 0) * v.0 + entry(m, 1, 1) * v.1 + entry(m, 1, 2) * v.2 + entry(m, 1, 3) * v.3,
        entry(m, 2, 0) * v.0 + entry(m, 2, 1) * v.1 + entry(m, 2, 2) * v.2 + entry(m, 2, 3) * v.3,
        entry(m, 3, 0) * v.0 + entry(m, 3, 1) * v.1 + entry(m, 3, 2) * v.2 + entry(m, 3, 3) * v.3,
    )
}

/// `(a × b) × c = a × (b × c)` for integers.
proof fn lemma_mul_assoc(a: int, b: int, c: int)
    ensures
        (a * b) * c == a * (b * c),
{
    assert((a * b) * c == a * (b * c)) by (nonlinear_arith);
}

/// A sum of four times a factor.
proof fn lemma_sum_times(p: int, q: int, r: int, s: int, x: int)
    ensures
        (p + q + r + s) * x == p * x + q * x + r * x + s * x,
{
    assert((p + q + r + s) * x == p * x + q * x + r * x + s * x) by (nonlinear_arith);
}

/// A factor times a sum of four.
proof fn lemma_times_sum(a: int, p: int, q: int, r: int, s: int)
    ensures
        a * (p + q + r + s) == a * p + a * q + a * r + a * s,
{
    assert(a * (p + q + r + s) == a * p + a * q + a * r + a * s) by (nonlinear_arith);
}

/// One row of `lemma_product_applies_right_first`.
proof fn lemma_row_of_product(
    a0: int,
    a1: int,
    a2: int,
    a3: int,
    b: Seq<int>,
    v: (int, int, int, int),
)
    requires
        b.len() == 16,
    ensures
        (a0 * entry(b, 0, 0) + a1 * entry(b, 1, 0) + a2 * entry(b, 2, 0) + a3 * entry(b, 3, 0))
            * v.0 + (a0 * entry(b, 0, 1) + a1 * entry(b, 1, 1) + a2 * entry(b, 2, 1) + a3 * entry(
            b,
            3,
            1,
        )) * v.1 + (a0 * entry(b, 0, 2) + a1 * entry(b, 1, 2) + a2 * entry(b, 2, 2) + a3 * entry(
            b,
            3,
            2,
        )) * v.2 + (a0 * entry(b, 0, 3) + a1 * entry(b, 1, 3) + a2 * entry(b, 2, 3) + a3 * entry(
            b,
            3,
            3,
        )) * v.3 == a0 * apply(b, v).0 + a1 * apply(b, v).1 + a2 * apply(b, v).2 + a3 * apply(
            b,
            v,
        ).3,
{
    let b00 = entry(b, 0, 0);
    let b01 = entry(b, 0, 1);
    let b02 = entry(b, 0, 2);
    let b03 = entry(b, 0, 3);
    let b10 = entry(b, 1, 0);
    let b11 = entry(b, 1, 1);
    let b12 = entry(b, 1, 2);
    let b13 = entry(b, 1, 3);
    let b20 = entry(b, 2, 0);
    let b21 = entry(b, 2, 1);
    let b22 = entry(b, 2, 2);
    let b23 = entry(b, 2, 3);
    let b30 = entry(b, 3, 0);
    let b31 = entry(b, 3, 1);
    let b32 = entry(b, 3, 2);
    let b33 = entry(b, 3, 3);
    let (x, y, z, w) = v;
    lemma_mul_assoc(a0, b00, x);
    lemma_mul_assoc(a1, b10, x);
    lemma_mul_assoc(a2, b20, x);
    lemma_mul_assoc(a3, b30, x);
    lemma_mul_assoc(a0, b01, y);
    lemma_mul_assoc(a1, b11, y);
    lemma_mul_assoc(a2, b21, y);
    lemma_mul_assoc(a3, b31, y);
    lemma_mul_assoc(a0, b02, z);
    lemma_mul_assoc(a1, b12, z);
    lemma_mul_assoc(a2, b22, z);
    lemma_mul_assoc(a3, b32, z);
    lemma_mul_assoc(a0, b03, w);
    lemma_mul_assoc(a1, b13, w);
    lemma_mul_assoc(a2, b23, w);
    lemma_mul_assoc(a3, b33, w);
    lemma_sum_times(a0 * b00, a1 * b10, a2 * b20, a3 * b30, x);
    lemma_sum_times(a0 * b01, a1 * b11, a2 * b21, a3 * b31, y);
    lemma_sum_times(a0 * b02, a1 * b12, a2 * b22, a3 * b32, z);
    lemma_sum_times(a0 * b03, a1 * b13, a2 * b23, a3 * b33, w);
    lemma_times_sum(a0, b00 * x, b01 * y, b02 * z, b03 * w);
    lemma_times_sum(a1, b10 * x, b11 * y, b12 * z, b13 * w);
    lemma_times_sum(a2, b20 * x, b21 * y, b22 * z, b23 * w);
    lemma_times_sum(a3, b30 * x, b31 * y, b32 * z, b33 * w);
}

/// A product applies its right factor first: `(a × b) v = a (b v)`. So
/// multiplying a transform from the left by `a` lets `a` act on what the
/// transform has already placed.
pub proof fn lemma_product_applies_right_first(a: Seq<int>, b: Seq<int>, v: (int, int, int, int))
    requires
        a.len() == 16,
        b.len() == 16,
    ensures
        apply(mat_mul(a, b), v) == apply(a, apply(b, v)),
{
    let p = mat_mul(a, b);
    assert forall|r: int, c: int| 0 <= r < 4 && 0 <= c < 4 implies entry(p, r, c) == dot(
        a,
        b,
        r,
        c,
    ) by {
        assert((4 * r + c) / 4 == r);
        assert((4 * r + c) % 4 == c);
    }
    lemma_row_of_product(entry(a, 0, 0), entry(a, 0, 1), entry(a, 0, 2), entry(a, 0, 3), b, v);
    lemma_row_of_product(entry(a, 1, 0), entry(a, 1, 1), entry(a, 1, 2), entry(a, 1, 3), b, v);
    lemma_row_of_product(entry(a, 2, 0), entry(a, 2, 1), entry(a, 2, 2), entry(a, 2, 3), b, v);
    lemma_row_of_product(entry(a, 3, 0), entry(a, 3, 1), entry(a, 3, 2), entry(a, 3, 3), b, v);
    assert(entry(p, 0, 0) == dot(a, b, 0, 0) && entry(p, 0, 1) == dot(a, b, 0, 1) && entry(p, 0, 2)
        == dot(a, b, 0, 2) && entry(p, 0, 3) == dot(a, b, 0, 3));
    assert(entry(p, 1, 0) == dot(a, b, 1, 0) && entry(p, 1, 1) == dot(a, b, 1, 1) && entry(p, 1, 2)
        == dot(a, b, 1, 2) && entry(p, 1, 3) == dot(a, b, 1, 3));
    assert(entry(p, 2, 0) == dot(a, b, 2, 0) && entry(p, 2, 1) == dot(a, b, 2, 1) && entry(p, 2, 2)
        == dot(a, b, 2, 2) && entry(p, 2, 3) == dot(a, b, 2, 3));
    assert(entry(p, 3, 0) == dot(a, b, 3, 0) && entry(p, 3, 1) == dot(a, b, 3, 1) && entry(p, 3, 2)
        == dot(a, b, 3, 2) && entry(p, 3, 3) == dot(a, b, 3, 3));
}

/// The exact product of two entries.
fn entry_product(x: i32, y: i32) -> (p: i64)
    ensures
        p == x * y,
{
    assert(-0x4000_0000_0000_0000 <= x * y <= 0x4000_0000_0000_0000) by (nonlinear_arith)
        requires
            -0x8000_0000 <= x <= 0x7fff_ffff,
            -0x8000_0000 <= y <= 0x7fff_ffff,
    ;
    (x as i64) * (y as i64)
}


/// A 4×4 matrix with 32-bit integer entries.
#[derive(Clone, Copy, Debug, PartialEq, Eq)]
pub struct Matrix4 {
    e: [i32; 16],
}

impl View for Matrix4 {
    type V = Seq<int>;

    closed spec fn view(&self) -> Seq<int> {
        Seq::new(16, |i: int| self.e[i] as int)
    }
}

impl Matrix4 {
    /// The view of a matrix always has sixteen entries in range.
    pub proof fn lemma_view_representable(self)
        ensures
            representable(self@),
    {
    }

    /// Builds a matrix from its sixteen entries, row by row.
    pub fn from_entries(e: [i32; 16]) -> (m: Matrix4)
        ensures
            m@ == Seq::new(16, |i: int| e[i] as int),
    {
        Matrix4 { e }
    }

    /// The sixteen entries, row by row.
    pub fn entries(&self) -> (e: [i32; 16])
        ensures
            self@ == Seq::new(16, |i: int| e[i] as int),
    {
        self.e
    }

    /// The identity matrix.
    pub fn identity() -> (m: Matrix4)
        ensures
            m@ == mat_identity(),
    {
        let m = Matrix4 { e: [1, 0, 0, 0, 0, 1, 0, 0, 0, 0, 1, 0, 0, 0, 0, 1] };
        assert(m@ =~= mat_identity());
        m
    }

    /// Entry in row `r` and column `c`.
    pub fn get(&self, r: usize, c: usize) -> (v: i32)
        requires
            r < 4,
            c < 4,
        ensures
            v == entry(self@, r as int, c as int),
    {
        self.e[4 * r + c]
    }
    /// One entry of the exact product `self × rhs`.
    fn product_entry(&self, rhs: &Matrix4, r: usize, c: usize) -> (v: i128)
        requires
            r < 4,
            c < 4,
        ensures
            v == dot(self@, rhs@, r as int, c as int),
    {
        let p0: i128 = entry_product(self.e[4 * r], rhs.e[c]) as i128;
        let p1: i128 = entry_product(self.e[4 * r + 1], rhs.e[4 + c]) as i128;
        let p2: i128 = entry_product(self.e[4 * r + 2], rhs.e[8 + c]) as i128;
        let p3: i128 = entry_product(self.e[4 * r + 3], rhs.e[12 + c]) as i128;
        p0 + p1 + p2 + p3
    }

    /// The product `self × rhs`, or `None` when an entry of the exact product
    /// does not fit in 32 bits.
    pub fn checked_mul(&self, rhs: &Matrix4) -> (r: Option<Matrix4>)
        ensures
            r is Some <==> representable(mat_mul(self@, rhs@)),
            r matches Some(m) ==> m@ == mat_mul(self@, rhs@),
    {
        let mut out: [i32; 16] = [0; 16];
        let mut i: usize = 0;
        while i < 16
            invariant
                i <= 16,
                forall|k: int| 0 <= k < i ==> out[k] as int == #[trigger] mat_mul(self@, rhs@)[k],
            decreases 16 - i,
        {
            let v: i128 = self.product_entry(rhs, i / 4, i % 4);
            if v < -0x8000_0000 || v > 0x7fff_ffff {
                assert(mat_mul(self@, rhs@)[i as int] == v);
                return None;
            }
            out[i] = v as i32;
            i += 1;
        }
        let m = Matrix4 { e: out };
        assert(m@ =~= mat_mul(self@, rhs@));
        Some(m)
    }
    /// Whether two matrices have the same entries.
    pub fn same(&self, other: &Matrix4) -> (r: bool)
        ensures
            r == (self@ == other@),
    {
        let mut i: usize = 0;
        while i < 16
            invariant
                i <= 16,
                forall|k: int| 0 <= k < i ==> self.e[k] == other.e[k],
            decreases 16 - i,
        {
            if self.e[i] != other.e[i] {
                assert(self@[i as int] != other@[i as int]);
                return false;
            }
            i += 1;
        }
        assert(self@ =~= other@);
        true
    }
}

} // verus!
