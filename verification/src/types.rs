//! Core value types: vectors, colours, rectangles and 4x4 matrices.
//!
//! Matrices are column-major, like the shader-facing layout: `x`, `y`, `z`
//! and `w` are the four columns, translation lives in column `w` and the
//! axis scales on the diagonal.

use vstd::prelude::*;

use crate::scalar::Scalar;

verus! {

#[derive(Clone, Copy, Debug, PartialEq, Eq, Structural)]
pub struct Vector2 {
    pub x: Scalar,
    pub y: Scalar,
}

impl Vector2 {
    pub open spec fn wf(self) -> bool {
        self.x.wf() && self.y.wf()
    }

    /// Componentwise value equality.
    pub open spec fn eq_val(self, o: Vector2) -> bool {
        self.x.eq_val(o.x) && self.y.eq_val(o.y)
    }

    pub fn new(x: Scalar, y: Scalar) -> (r: Vector2)
        ensures
            r == (Vector2 { x, y }),
    {
        Vector2 { x, y }
    }

    pub fn from_ints(x: i64, y: i64) -> (r: Vector2)
        ensures
            r == (Vector2 { x: Scalar { num: x, den: 1 }, y: Scalar { num: y, den: 1 } }),
    {
        Vector2 { x: Scalar::from_int(x), y: Scalar::from_int(y) }
    }

    pub fn zero() -> (r: Vector2)
        ensures
            r == (Vector2 { x: Scalar::spec_zero(), y: Scalar::spec_zero() }),
    {
        Vector2 { x: Scalar::zero(), y: Scalar::zero() }
    }
}

#[derive(Clone, Copy, Debug, PartialEq, Eq, Structural)]
pub struct Vector3 {
    pub x: Scalar,
    pub y: Scalar,
    pub z: Scalar,
}

impl Vector3 {
    pub open spec fn wf(self) -> bool {
        self.x.wf() && self.y.wf() && self.z.wf()
    }

    pub fn new(x: Scalar, y: Scalar, z: Scalar) -> (r: Vector3)
        ensures
            r == (Vector3 { x, y, z }),
    {
        Vector3 { x, y, z }
    }

    pub fn from_ints(x: i64, y: i64, z: i64) -> (r: Vector3)
        ensures
            r == (Vector3 {
                x: Scalar { num: x, den: 1 },
                y: Scalar { num: y, den: 1 },
                z: Scalar { num: z, den: 1 },
            }),
    {
        Vector3 { x: Scalar::from_int(x), y: Scalar::from_int(y), z: Scalar::from_int(z) }
    }
}

#[derive(Clone, Copy, Debug, PartialEq, Eq, Structural)]
pub struct Vector4 {
    pub x: Scalar,
    pub y: Scalar,
    pub z: Scalar,
    pub w: Scalar,
}

impl Vector4 {
    pub open spec fn wf(self) -> bool {
        self.x.wf() && self.y.wf() && self.z.wf() && self.w.wf()
    }
}

/// Widening of a planar vector into space, with `z = 0`.
pub trait ToVec3f {
    /// The three-component value this widens to.
    spec fn spec_to_vec3(&self) -> Vector3;

    fn to_vec3(&self) -> (r: Vector3)
        ensures
            r == self.spec_to_vec3(),
    ;
}

/// Projection of a spatial vector onto the plane, dropping `z`.
pub trait ToVec2f {
    /// The two-component value this projects to.
    spec fn spec_to_vec2(&self) -> Vector2;

    fn to_vec2(&self) -> (r: Vector2)
        ensures
            r == self.spec_to_vec2(),
    ;
}

impl ToVec3f for Vector2 {
    open spec fn spec_to_vec3(&self) -> Vector3 {
        Vector3 { x: self.x, y: self.y, z: Scalar::spec_zero() }
    }

    fn to_vec3(&self) -> (r: Vector3) {
        Vector3 { x: self.x, y: self.y, z: Scalar::zero() }
    }
}

impl ToVec2f for Vector3 {
    open spec fn spec_to_vec2(&self) -> Vector2 {
        Vector2 { x: self.x, y: self.y }
    }

    fn to_vec2(&self) -> (r: Vector2) {
        Vector2 { x: self.x, y: self.y }
    }
}

/// An RGBA colour with rational channels; `0/1` is dark, `1/1` is full.
#[derive(Clone, Copy, Debug, PartialEq, Eq, Structural)]
pub struct Color {
    pub r: Scalar,
    pub g: Scalar,
    pub b: Scalar,
    pub a: Scalar,
}

impl Color {
    pub open spec fn wf(self) -> bool {
        self.r.wf() && self.g.wf() && self.b.wf() && self.a.wf()
    }

    /// Every channel lies between zero and one.
    pub open spec fn in_unit_range(self) -> bool {
        &&& 0 <= self.r.num <= self.r.den
        &&& 0 <= self.g.num <= self.g.den
        &&& 0 <= self.b.num <= self.b.den
        &&& 0 <= self.a.num <= self.a.den
    }

    /// Builds a colour from its channels; note the parameter order is
    /// `r, b, g, a`.
    pub fn new(r: Scalar, b: Scalar, g: Scalar, a: Scalar) -> (c: Color)
        ensures
            c == (Color { r, g, b, a }),
    {
        Color { r, g, b, a }
    }

    pub fn black() -> (c: Color)
        ensures
            c == (Color {
                r: Scalar::spec_zero(),
                g: Scalar::spec_zero(),
                b: Scalar::spec_zero(),
                a: Scalar::spec_one(),
            }),
    {
        Color { r: Scalar::zero(), g: Scalar::zero(), b: Scalar::zero(), a: Scalar::one() }
    }

    pub fn white() -> (c: Color)
        ensures
            c == (Color {
                r: Scalar::spec_one(),
                g: Scalar::spec_one(),
                b: Scalar::spec_one(),
                a: Scalar::spec_one(),
            }),
    {
        Color { r: Scalar::one(), g: Scalar::one(), b: Scalar::one(), a: Scalar::one() }
    }

    pub fn red() -> (c: Color)
        ensures
            c == (Color {
                r: Scalar::spec_one(),
                g: Scalar::spec_zero(),
                b: Scalar::spec_zero(),
                a: Scalar::spec_one(),
            }),
    {
        Color { r: Scalar::one(), g: Scalar::zero(), b: Scalar::zero(), a: Scalar::one() }
    }

    pub fn green() -> (c: Color)
        ensures
            c == (Color {
                r: Scalar::spec_zero(),
                g: Scalar::spec_one(),
                b: Scalar::spec_zero(),
                a: Scalar::spec_one(),
            }),
    {
        Color { r: Scalar::zero(), g: Scalar::one(), b: Scalar::zero(), a: Scalar::one() }
    }

    pub fn blue() -> (c: Color)
        ensures
            c == (Color {
                r: Scalar::spec_zero(),
                g: Scalar::spec_zero(),
                b: Scalar::spec_one(),
                a: Scalar::spec_one(),
            }),
    {
        Color { r: Scalar::zero(), g: Scalar::zero(), b: Scalar::one(), a: Scalar::one() }
    }

    pub fn yellow() -> (c: Color)
        ensures
            c == (Color {
                r: Scalar::spec_one(),
                g: Scalar::spec_one(),
                b: Scalar::spec_zero(),
                a: Scalar::spec_one(),
            }),
    {
        Color { r: Scalar::one(), g: Scalar::one(), b: Scalar::zero(), a: Scalar::one() }
    }

    pub fn zero() -> (c: Color)
        ensures
            c == (Color {
                r: Scalar::spec_zero(),
                g: Scalar::spec_zero(),
                b: Scalar::spec_zero(),
                a: Scalar::spec_zero(),
            }),
    {
        Color { r: Scalar::zero(), g: Scalar::zero(), b: Scalar::zero(), a: Scalar::zero() }
    }

    /// The inversion `1 - c` is representable on each colour channel.
    pub open spec fn invert_ok(self) -> bool {
        &&& crate::scalar::in_i64(self.r.den - self.r.num)
        &&& crate::scalar::in_i64(self.g.den - self.g.num)
        &&& crate::scalar::in_i64(self.b.den - self.b.num)
    }

    /// Inverts the colour channels; alpha becomes fully opaque.
    pub fn invert(&self) -> (c: Color)
        requires
            self.wf(),
            self.invert_ok(),
        ensures
            c.r == (Scalar { num: (self.r.den - self.r.num) as i64, den: self.r.den }),
            c.g == (Scalar { num: (self.g.den - self.g.num) as i64, den: self.g.den }),
            c.b == (Scalar { num: (self.b.den - self.b.num) as i64, den: self.b.den }),
            c.a == Scalar::spec_one(),
            c.wf(),
    {
        Color {
            r: Scalar { num: self.r.den - self.r.num, den: self.r.den },
            g: Scalar { num: self.g.den - self.g.num, den: self.g.den },
            b: Scalar { num: self.b.den - self.b.num, den: self.b.den },
            a: Scalar::one(),
        }
    }

    pub fn to_raw_color(&self) -> (raw: [Scalar; 4])
        ensures
            raw@ == seq![self.r, self.g, self.b, self.a],
    {
        let raw: [Scalar; 4] = [self.r, self.g, self.b, self.a];
        proof {
            assert(raw@ =~= seq![self.r, self.g, self.b, self.a]);
        }
        raw
    }
}

/// An axis-aligned rectangle: origin plus extent.
#[derive(Clone, Copy, Debug, PartialEq, Eq, Structural)]
pub struct Rect {
    pub x: Scalar,
    pub y: Scalar,
    pub width: Scalar,
    pub height: Scalar,
}

impl Rect {
    pub open spec fn wf(self) -> bool {
        self.x.wf() && self.y.wf() && self.width.wf() && self.height.wf()
    }

    /// The edge sums `x + width` and `y + height` are representable.
    pub open spec fn edges_ok(self) -> bool {
        self.x.add_ok(self.width) && self.y.add_ok(self.height)
    }

    pub fn new(x: Scalar, y: Scalar, width: Scalar, height: Scalar) -> (r: Rect)
        ensures
            r == (Rect { x, y, width, height }),
    {
        Rect { x, y, width, height }
    }

    /// Open-interval overlap on both axes.
    pub open spec fn spec_intersects(self, o: Rect) -> bool {
        &&& self.x.lt_val(o.x.spec_add(o.width))
        &&& o.x.lt_val(self.x.spec_add(self.width))
        &&& self.y.lt_val(o.y.spec_add(o.height))
        &&& o.y.lt_val(self.y.spec_add(self.height))
    }

    pub fn intersects(&self, rect: Rect) -> (r: bool)
        requires
            self.wf(),
            rect.wf(),
            self.edges_ok(),
            rect.edges_ok(),
        ensures
            r == self.spec_intersects(rect),
    {
        let o_right: Scalar = rect.x.add(rect.width);
        let s_right: Scalar = self.x.add(self.width);
        let o_top: Scalar = rect.y.add(rect.height);
        let s_top: Scalar = self.y.add(self.height);
        if self.x.lt(&o_right) && rect.x.lt(&s_right) {
            if self.y.lt(&o_top) && rect.y.lt(&s_top) {
                return true;
            }
        }
        false
    }

    pub fn get_pos(&self) -> (r: Vector2)
        ensures
            r == (Vector2 { x: self.x, y: self.y }),
    {
        Vector2 { x: self.x, y: self.y }
    }

    pub fn get_size(&self) -> (r: Vector2)
        ensures
            r == (Vector2 { x: self.width, y: self.height }),
    {
        Vector2 { x: self.width, y: self.height }
    }
}

/// A 4x4 matrix of rational scalars, stored as four columns.
#[derive(Clone, Copy, Debug, PartialEq, Eq, Structural)]
pub struct Mat4 {
    pub x: Vector4,
    pub y: Vector4,
    pub z: Vector4,
    pub w: Vector4,
}

impl Mat4 {
    pub open spec fn wf(self) -> bool {
        self.x.wf() && self.y.wf() && self.z.wf() && self.w.wf()
    }

    pub open spec fn spec_identity() -> Mat4 {
        Mat4 {
            x: Vector4 {
                x: Scalar::spec_one(),
                y: Scalar::spec_zero(),
                z: Scalar::spec_zero(),
                w: Scalar::spec_zero(),
            },
            y: Vector4 {
                x: Scalar::spec_zero(),
                y: Scalar::spec_one(),
                z: Scalar::spec_zero(),
                w: Scalar::spec_zero(),
            },
            z: Vector4 {
                x: Scalar::spec_zero(),
                y: Scalar::spec_zero(),
                z: Scalar::spec_one(),
                w: Scalar::spec_zero(),
            },
            w: Vector4 {
                x: Scalar::spec_zero(),
                y: Scalar::spec_zero(),
                z: Scalar::spec_zero(),
                w: Scalar::spec_one(),
            },
        }
    }

    pub fn identity() -> (r: Mat4)
        ensures
            r == Self::spec_identity(),
    {
        Mat4 {
            x: Vector4 { x: Scalar::one(), y: Scalar::zero(), z: Scalar::zero(), w: Scalar::zero() },
            y: Vector4 { x: Scalar::zero(), y: Scalar::one(), z: Scalar::zero(), w: Scalar::zero() },
            z: Vector4 { x: Scalar::zero(), y: Scalar::zero(), z: Scalar::one(), w: Scalar::zero() },
            w: Vector4 { x: Scalar::zero(), y: Scalar::zero(), z: Scalar::zero(), w: Scalar::one() },
        }
    }
}

/// The identity matrix carrying translation `t` in its last column.
pub open spec fn spec_translation_matrix(t: Vector3) -> Mat4 {
    Mat4 {
        w: Vector4 { x: t.x, y: t.y, z: t.z, w: Scalar::spec_one() },
        ..Mat4::spec_identity()
    }
}

/// Translation and axis-scale access for transform matrices.
pub trait Translatable: Sized {
    /// The translation column as a vector.
    spec fn spec_translation(&self) -> Vector3;

    /// The diagonal scale as a vector.
    spec fn spec_scale(&self) -> Vector3;

    /// This value with the translation column replaced.
    spec fn spec_with_translation(self, t: Vector3) -> Self;

    /// This value with the diagonal scale replaced.
    spec fn spec_with_scale(self, s: Vector3) -> Self;

    fn set_translation(&mut self, translation: Vector3)
        ensures
            *final(self) == old(self).spec_with_translation(translation),
    ;

    fn get_translation(&self) -> (r: Vector3)
        ensures
            r == self.spec_translation(),
    ;

    fn get_negative_translation(&self) -> (r: Mat4)
        requires
            self.spec_translation().wf(),
            self.spec_translation().x.neg_ok(),
            self.spec_translation().y.neg_ok(),
            self.spec_translation().z.neg_ok(),
        ensures
            r == spec_translation_matrix(
                Vector3 {
                    x: self.spec_translation().x.spec_neg(),
                    y: self.spec_translation().y.spec_neg(),
                    z: self.spec_translation().z.spec_neg(),
                },
            ),
    ;

    fn set_scale(&mut self, scale: Vector3)
        ensures
            *final(self) == old(self).spec_with_scale(scale),
    ;

    fn get_scale(&self) -> (r: Vector3)
        ensures
            r == self.spec_scale(),
    ;
}

impl Translatable for Mat4 {
    open spec fn spec_translation(&self) -> Vector3 {
        Vector3 { x: self.w.x, y: self.w.y, z: self.w.z }
    }

    open spec fn spec_scale(&self) -> Vector3 {
        Vector3 { x: self.x.x, y: self.y.y, z: self.z.z }
    }

    open spec fn spec_with_translation(self, t: Vector3) -> Mat4 {
        Mat4 { w: Vector4 { x: t.x, y: t.y, z: t.z, w: self.w.w }, ..self }
    }

    open spec fn spec_with_scale(self, s: Vector3) -> Mat4 {
        Mat4 {
            x: Vector4 { x: s.x, ..self.x },
            y: Vector4 { y: s.y, ..self.y },
            z: Vector4 { z: s.z, ..self.z },
            w: self.w,
        }
    }

    fn set_translation(&mut self, translation: Vector3) {
        self.w.x = translation.x;
        self.w.y = translation.y;
        self.w.z = translation.z;
    }

    fn get_translation(&self) -> (r: Vector3) {
        Vector3 { x: self.w.x, y: self.w.y, z: self.w.z }
    }

    fn get_negative_translation(&self) -> (r: Mat4) {
        let mut mat: Mat4 = Mat4::identity();
        let translate: Vector3 = self.get_translation();
        mat.w.x = translate.x.neg();
        mat.w.y = translate.y.neg();
        mat.w.z = translate.z.neg();
        mat
    }

    fn set_scale(&mut self, scale: Vector3) {
        self.x.x = scale.x;
        self.y.y = scale.y;
        self.z.z = scale.z;
    }

    fn get_scale(&self) -> (r: Vector3) {
        Vector3 { x: self.x.x, y: self.y.y, z: self.z.z }
    }
}

/// Flattening of a matrix into the shader-facing column-major layout.
pub trait Mat4fData {
    /// The sixteen cells, one inner row per column.
    spec fn spec_data(&self) -> Seq<Seq<Scalar>>;

    fn get_data(&self) -> (r: [[Scalar; 4]; 4])
        ensures
            r@.len() == 4,
            forall|i: int| 0 <= i < 4 ==> (#[trigger] r@[i])@ == self.spec_data()[i],
    ;
}

impl Mat4fData for Mat4 {
    open spec fn spec_data(&self) -> Seq<Seq<Scalar>> {
        seq![
            seq![self.x.x, self.x.y, self.x.z, self.x.w],
            seq![self.y.x, self.y.y, self.y.z, self.y.w],
            seq![self.z.x, self.z.y, self.z.z, self.z.w],
            seq![self.w.x, self.w.y, self.w.z, self.w.w],
        ]
    }

    fn get_data(&self) -> (r: [[Scalar; 4]; 4]) {
        let r: [[Scalar; 4]; 4] = [
            [self.x.x, self.x.y, self.x.z, self.x.w],
            [self.y.x, self.y.y, self.y.z, self.y.w],
            [self.z.x, self.z.y, self.z.z, self.z.w],
            [self.w.x, self.w.y, self.w.z, self.w.w],
        ];
        proof {
            assert((r@[0])@ =~= self.spec_data()[0]);
            assert((r@[1])@ =~= self.spec_data()[1]);
            assert((r@[2])@ =~= self.spec_data()[2]);
            assert((r@[3])@ =~= self.spec_data()[3]);
        }
        r
    }
}

} // verus!
