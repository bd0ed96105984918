//! The projection that maps a screen rectangle onto clip space.
//!
//! The matrix is kept in homogeneous form: a point `(x, y, 0, 1)` is mapped
//! to `(X, Y, Z, W)`, and its clip-space position is `(X/W, Y/W, Z/W)`. So no
//! division is needed to build it, and the corners of the rectangle land on
//! the corners of clip space exactly.

use crate::matrix::{
    apply, entry, lemma_identity_neutral, lemma_product_applies_right_first, mat_identity, mat_mul,
    representable, Matrix4,
};
use crate::types::Rect;
use vstd::prelude::*;

verus! {

/// The sign of an integer: 1, 0 or -1.
pub open spec fn sign(v: int) -> int {
    if v > 0 {
        1
    } else if v < 0 {
        -1
    } else {
        0
    }
}

/// The absolute value of an integer.
pub open spec fn abs(v: int) -> int {
    if v < 0 {
        -v
    } else {
        v
    }
}

/// The common denominator of the projection for a rectangle of extent
/// `w × h`: the `W` that every projected point of the plane gets. It is
/// positive unless the rectangle is empty.
pub open spec fn ortho_scale(w: int, h: int) -> int {
    abs(w) * abs(h)
}

/// The projection for the rectangle with top-left corner `(x, y)` and extent
/// `(w, h)`. Clip-space X runs from -1 at `x` to 1 at `x + w`, clip-space Y
/// from 1 at `y` to -1 at `y + h`, and depth is negated.
pub open spec fn ortho(x: int, y: int, w: int, h: int) -> Seq<int> {
    seq![
        2 * (sign(w) * abs(h)),
        0,
        0,
        -((2 * x + w) * (sign(w) * abs(h))),
        0,
        -2 * (sign(h) * abs(w)),
        0,
        (2 * y + h) * (sign(h) * abs(w)),
        0,
        0,
        -ortho_scale(w, h),
        0,
        0,
        0,
        0,
        ortho_scale(w, h),
    ]
}

/// The projection for a rectangle.
pub open spec fn ortho_of(rect: Rect) -> Seq<int> {
    ortho(rect.x as int, rect.y as int, rect.w as int, rect.h as int)
}

/// The homogeneous image of the point `(px, py)` of the plane under `m`.
pub open spec fn project(m: Seq<int>, px: int, py: int) -> (int, int, int, int) {
    (
        m[0] * px + m[1] * py + m[3],
        m[4] * px + m[5] * py + m[7],
        m[8] * px + m[9] * py + m[11],
        m[12] * px + m[13] * py + m[15],
    )
}

/// The projection of a rectangle sends its top-left corner to the top-left
/// corner of clip space, `(-1, 1)`, and its bottom-right corner to the
/// bottom-right corner, `(1, -1)`, whatever the signs of its extent. The
/// images are proper points unless the rectangle is empty.
pub proof fn lemma_ortho_corners(x: int, y: int, w: int, h: int)
    ensures
        project(ortho(x, y, w, h), x, y) == (
            -ortho_scale(w, h),
            ortho_scale(w, h),
            0int,
            ortho_scale(w, h),
        ),
        project(ortho(x, y, w, h), x + w, y + h) == (
            ortho_scale(w, h),
            -ortho_scale(w, h),
            0int,
            ortho_scale(w, h),
        ),
        ortho_scale(w, h) > 0 <==> (w != 0 && h != 0),
{
    let m = ortho(x, y, w, h);
    let s = ortho_scale(w, h);
    let a = sign(w) * abs(h);
    let b = sign(h) * abs(w);
    assert(w * a == s) by (nonlinear_arith)
        requires
            a == sign(w) * abs(h),
            s == abs(w) * abs(h),
    ;
    assert(h * b == s) by (nonlinear_arith)
        requires
            b == sign(h) * abs(w),
            s == abs(w) * abs(h),
    ;
    assert(s > 0 <==> (w != 0 && h != 0)) by (nonlinear_arith)
        requires
            s == abs(w) * abs(h),
    ;
    assert(2 * a * x - (2 * x + w) * a == -(w * a)) by (nonlinear_arith);
    assert(2 * a * (x + w) - (2 * x + w) * a == w * a) by (nonlinear_arith);
    assert(-2 * b * y + (2 * y + h) * b == h * b) by (nonlinear_arith);
    assert(-2 * b * (y + h) + (2 * y + h) * b == -(h * b)) by (nonlinear_arith);
    assert(m[0] * x + m[1] * y + m[3] == 2 * a * x - (2 * x + w) * a) by (nonlinear_arith)
        requires
            m[0] == 2 * a,
            m[1] == 0,
            m[3] == -((2 * x + w) * a),
    ;
    assert(m[0] * (x + w) + m[1] * (y + h) + m[3] == 2 * a * (x + w) - (2 * x + w) * a)
        by (nonlinear_arith)
        requires
            m[0] == 2 * a,
            m[1] == 0,
            m[3] == -((2 * x + w) * a),
    ;
    assert(m[4] * x + m[5] * y + m[7] == -2 * b * y + (2 * y + h) * b) by (nonlinear_arith)
        requires
            m[4] == 0,
            m[5] == -2 * b,
            m[7] == (2 * y + h) * b,
    ;
    assert(m[4] * (x + w) + m[5] * (y + h) + m[7] == -2 * b * (y + h) + (2 * y + h) * b)
        by (nonlinear_arith)
        requires
            m[4] == 0,
            m[5] == -2 * b,
            m[7] == (2 * y + h) * b,
    ;
}

/// The sign of the height decides the direction of Y. With a positive
/// height a larger `y` lands lower in clip space; with a negative height it
/// lands higher. Negating the height mirrors every image about the line
/// through the rectangle's top edge and leaves X and the scale alone.
pub proof fn lemma_ortho_vertical_direction(
    x: int,
    y: int,
    w: int,
    h: int,
    px: int,
    py1: int,
    py2: int,
)
    requires
        w != 0,
        py1 < py2,
    ensures
        h > 0 ==> project(ortho(x, y, w, h), px, py1).1 > project(ortho(x, y, w, h), px, py2).1,
        h < 0 ==> project(ortho(x, y, w, h), px, py1).1 < project(ortho(x, y, w, h), px, py2).1,
        project(ortho(x, y, w, -h), px, py1).0 == project(ortho(x, y, w, h), px, py1).0,
        project(ortho(x, y, w, -h), px, py1).3 == project(ortho(x, y, w, h), px, py1).3,
        project(ortho(x, y, w, -h), px, py1).1 - ortho_scale(w, h) == -(project(
            ortho(x, y, w, h),
            px,
            py1,
        ).1 - ortho_scale(w, h)),
{
    let m = ortho(x, y, w, h);
    let n = ortho(x, y, w, -h);
    let b = sign(h) * abs(w);
    let s = ortho_scale(w, h);
    assert(sign(-h) * abs(w) == -b) by (nonlinear_arith)
        requires
            b == sign(h) * abs(w),
    ;
    assert(abs(-h) == abs(h));
    assert(h * b == s) by (nonlinear_arith)
        requires
            b == sign(h) * abs(w),
            s == abs(w) * abs(h),
    ;
    assert(h > 0 ==> b > 0) by (nonlinear_arith)
        requires
            b == sign(h) * abs(w),
            w != 0,
    ;
    assert(h < 0 ==> b < 0) by (nonlinear_arith)
        requires
            b == sign(h) * abs(w),
            w != 0,
    ;
    assert(m[4] * px + m[5] * py1 + m[7] == s - 2 * ((py1 - y) * b)) by (nonlinear_arith)
        requires
            m[4] == 0,
            m[5] == -2 * b,
            m[7] == (2 * y + h) * b,
            h * b == s,
    ;
    assert(m[4] * px + m[5] * py2 + m[7] == s - 2 * ((py2 - y) * b)) by (nonlinear_arith)
        requires
            m[4] == 0,
            m[5] == -2 * b,
            m[7] == (2 * y + h) * b,
            h * b == s,
    ;
    assert(n[4] * px + n[5] * py1 + n[7] == s + 2 * ((py1 - y) * b)) by (nonlinear_arith)
        requires
            n[4] == 0,
            n[5] == -2 * (-b),
            n[7] == (2 * y + (-h)) * (-b),
            h * b == s,
    ;
    assert(b > 0 ==> (py1 - y) * b < (py2 - y) * b) by (nonlinear_arith)
        requires
            py1 < py2,
    ;
    assert(b < 0 ==> (py1 - y) * b > (py2 - y) * b) by (nonlinear_arith)
        requires
            py1 < py2,
    ;
}

/// What is uploaded once a rectangle is the screen's coordinate system and
/// `top` the current model transform: a point of the plane is first placed
/// by `top` and then projected. With the identity on top, the corners of
/// the rectangle land on the corners of clip space.
pub proof fn lemma_combined_transform(rect: Rect, top: Seq<int>, px: int, py: int)
    requires
        top.len() == 16,
    ensures
        project(mat_mul(ortho_of(rect), top), px, py) == apply(
            ortho_of(rect),
            apply(top, (px, py, 0, 1)),
        ),
        top == mat_identity() ==> mat_mul(ortho_of(rect), top) == ortho_of(rect),
        top == mat_identity() ==> project(
            mat_mul(ortho_of(rect), top),
            rect.x as int,
            rect.y as int,
        ) == (
            -ortho_scale(rect.w as int, rect.h as int),
            ortho_scale(rect.w as int, rect.h as int),
            0int,
            ortho_scale(rect.w as int, rect.h as int),
        ),
        top == mat_identity() ==> project(
            mat_mul(ortho_of(rect), top),
            rect.x + rect.w,
            rect.y + rect.h,
        ) == (
            ortho_scale(rect.w as int, rect.h as int),
            -ortho_scale(rect.w as int, rect.h as int),
            0int,
            ortho_scale(rect.w as int, rect.h as int),
        ),
{
    let p = ortho_of(rect);
    let m = mat_mul(p, top);
    lemma_product_applies_right_first(p, top, (px, py, 0, 1));
    assert(project(m, px, py) == apply(m, (px, py, 0, 1))) by {
        assert(entry(m, 0, 2) * 0 == 0 && entry(m, 1, 2) * 0 == 0 && entry(m, 2, 2) * 0 == 0
            && entry(m, 3, 2) * 0 == 0);
        assert(entry(m, 0, 3) * 1 == m[3] && entry(m, 1, 3) * 1 == m[7] && entry(m, 2, 3) * 1
            == m[11] && entry(m, 3, 3) * 1 == m[15]);
    }
    if top == mat_identity() {
        lemma_identity_neutral(p);
        lemma_ortho_corners(rect.x as int, rect.y as int, rect.w as int, rect.h as int);
    }
}

/// A product of two bounded factors, computed without overflow.
fn bounded_product(a: i128, b: i128) -> (p: i128)
    requires
        -0x4_0000_0000 <= a <= 0x4_0000_0000,
        -0x1_0000_0000 <= b <= 0x1_0000_0000,
    ensures
        p == a * b,
        -0x4_0000_0000_0000_0000 <= p <= 0x4_0000_0000_0000_0000,
{
    assert(-0x4_0000_0000_0000_0000 <= a * b <= 0x4_0000_0000_0000_0000) by (nonlinear_arith)
        requires
            -0x4_0000_0000 <= a <= 0x4_0000_0000,
            -0x1_0000_0000 <= b <= 0x1_0000_0000,
    ;
    a * b
}

/// Whether a value fits in 32 bits.
fn fits(v: i128) -> (b: bool)
    ensures
        b == (i32::MIN <= v <= i32::MAX),
{
    -0x8000_0000 <= v && v <= 0x7fff_ffff
}

/// The projection matrix for `rect`, or `None` when one of its entries does
/// not fit in 32 bits.
pub fn ortho_matrix(rect: Rect) -> (r: Option<Matrix4>)
    ensures
        r is Some <==> representable(ortho_of(rect)),
        r matches Some(m) ==> m@ == ortho_of(rect),
{
    let x: i128 = rect.x as i128;
    let y: i128 = rect.y as i128;
    let w: i128 = rect.w as i128;
    let h: i128 = rect.h as i128;
    let aw: i128 = if w < 0 { -w } else { w };
    let ah: i128 = if h < 0 { -h } else { h };
    let sw_ah: i128 = if w > 0 { ah } else if w < 0 { -ah } else { 0 };
    let sh_aw: i128 = if h > 0 { aw } else if h < 0 { -aw } else { 0 };
    assert(sw_ah == sign(w as int) * abs(h as int));
    assert(sh_aw == sign(h as int) * abs(w as int));
    let e0: i128 = 2 * sw_ah;
    let e3: i128 = -bounded_product(2 * x + w, sw_ah);
    let e5: i128 = -(2 * sh_aw);
    let e7: i128 = bounded_product(2 * y + h, sh_aw);
    let scale: i128 = bounded_product(aw, ah);
    let ghost want = ortho_of(rect);
    assert(want[0] == e0 && want[3] == e3 && want[5] == e5 && want[7] == e7 && want[10] == -scale
        && want[15] == scale);
    if fits(e0) && fits(e3) && fits(e5) && fits(e7) && fits(scale) && fits(-scale) {
        let m = Matrix4::from_entries(
            [
                e0 as i32,
                0,
                0,
                e3 as i32,
                0,
                e5 as i32,
                0,
                e7 as i32,
                0,
                0,
                (-scale) as i32,
                0,
                0,
                0,
                0,
                scale as i32,
            ],
        );
        assert(m@ =~= want);
        Some(m)
    } else {
        None
    }
}

} // verus!
