use flat_engine::scalar::Scalar;
use flat_engine::types::Color;
use flat_engine::types::Mat4;
use flat_engine::types::Mat4fData;
use flat_engine::types::Rect;
use flat_engine::types::ToVec2f;
use flat_engine::types::ToVec3f;
use flat_engine::types::Translatable;
use flat_engine::types::Vector2;
use flat_engine::types::Vector3;

#[test]
fn scalar_add_sub_exact() {
    let a = Scalar { num: 1, den: 2 };
    let b = Scalar { num: 1, den: 3 };
    let sum = a.add(b);
    assert_eq!(sum.num, 5);
    assert_eq!(sum.den, 6);
    let diff = a.sub(b);
    assert_eq!(diff.num, 1);
    assert_eq!(diff.den, 6);
}

#[test]
fn scalar_mul_div_roundtrip() {
    let a = Scalar { num: 3, den: 4 };
    let b = Scalar { num: 5, den: 7 };
    let back = a.mul(b).div(b);
    assert!(back.equals(&a));
}

#[test]
fn scalar_div_negative_divisor_keeps_positive_denominator() {
    let a = Scalar { num: 1, den: 2 };
    let b = Scalar { num: -3, den: 1 };
    let q = a.div(b);
    assert!(q.den >= 1);
    assert!(q.equals(&Scalar { num: -1, den: 6 }));
}

#[test]
fn scalar_comparisons() {
    let a = Scalar { num: 1, den: 3 };
    let b = Scalar { num: 1, den: 2 };
    assert!(a.lt(&b));
    assert!(!b.lt(&a));
    assert!(a.equals(&Scalar { num: 2, den: 6 }));
    assert!(Scalar::zero().is_zero());
    assert!(!Scalar::one().is_zero());
}

#[test]
fn scalar_unit_byte_rounds_down() {
    assert_eq!(Scalar { num: 1, den: 1 }.unit_byte(), 255);
    assert_eq!(Scalar { num: 0, den: 1 }.unit_byte(), 0);
    assert_eq!(Scalar { num: 1, den: 2 }.unit_byte(), 127);
    assert_eq!(Scalar { num: 1, den: 4 }.unit_byte(), 63);
}

#[test]
fn color_constructors() {
    let white = Color::white();
    assert_eq!(white.r.num, 1);
    assert_eq!(white.a.num, 1);
    let black = Color::black();
    assert_eq!(black.r.num, 0);
    assert_eq!(black.a.num, 1);
    let clear = Color::zero();
    assert_eq!(clear.a.num, 0);
    let red = Color::red();
    assert_eq!(red.r.num, 1);
    assert_eq!(red.g.num, 0);
    assert_eq!(red.b.num, 0);
}

#[test]
fn color_new_parameter_order() {
    let c = Color::new(
        Scalar { num: 1, den: 10 },
        Scalar { num: 2, den: 10 },
        Scalar { num: 3, den: 10 },
        Scalar { num: 4, den: 10 },
    );
    assert_eq!(c.r.num, 1);
    assert_eq!(c.b.num, 2);
    assert_eq!(c.g.num, 3);
    assert_eq!(c.a.num, 4);
}

#[test]
fn color_invert_flips_channels_and_opaque_alpha() {
    let c = Color {
        r: Scalar { num: 1, den: 4 },
        g: Scalar { num: 1, den: 2 },
        b: Scalar { num: 0, den: 1 },
        a: Scalar { num: 1, den: 3 },
    };
    let inv = c.invert();
    assert!(inv.r.equals(&Scalar { num: 3, den: 4 }));
    assert!(inv.g.equals(&Scalar { num: 1, den: 2 }));
    assert!(inv.b.equals(&Scalar { num: 1, den: 1 }));
    assert!(inv.a.equals(&Scalar { num: 1, den: 1 }));
}

#[test]
fn color_to_raw_order() {
    let c = Color::new(
        Scalar { num: 1, den: 10 },
        Scalar { num: 2, den: 10 },
        Scalar { num: 3, den: 10 },
        Scalar { num: 4, den: 10 },
    );
    let raw = c.to_raw_color();
    assert_eq!(raw[0].num, 1);
    assert_eq!(raw[1].num, 3);
    assert_eq!(raw[2].num, 2);
    assert_eq!(raw[3].num, 4);
}

#[test]
fn rect_intersects_overlapping() {
    let a = Rect::new(
        Scalar::from_int(0),
        Scalar::from_int(0),
        Scalar::from_int(10),
        Scalar::from_int(10),
    );
    let b = Rect::new(
        Scalar::from_int(5),
        Scalar::from_int(5),
        Scalar::from_int(10),
        Scalar::from_int(10),
    );
    assert!(a.intersects(b));
    assert!(b.intersects(a));
}

#[test]
fn rect_intersects_disjoint_and_touching() {
    let a = Rect::new(
        Scalar::from_int(0),
        Scalar::from_int(0),
        Scalar::from_int(10),
        Scalar::from_int(10),
    );
    let apart = Rect::new(
        Scalar::from_int(20),
        Scalar::from_int(0),
        Scalar::from_int(5),
        Scalar::from_int(5),
    );
    assert!(!a.intersects(apart));
    // Rectangles sharing only an edge do not intersect: the overlap test
    // is strict.
    let touching = Rect::new(
        Scalar::from_int(10),
        Scalar::from_int(0),
        Scalar::from_int(5),
        Scalar::from_int(10),
    );
    assert!(!a.intersects(touching));
}

#[test]
fn rect_accessors() {
    let r = Rect::new(
        Scalar::from_int(1),
        Scalar::from_int(2),
        Scalar::from_int(3),
        Scalar::from_int(4),
    );
    let pos = r.get_pos();
    let size = r.get_size();
    assert_eq!(pos.x.num, 1);
    assert_eq!(pos.y.num, 2);
    assert_eq!(size.x.num, 3);
    assert_eq!(size.y.num, 4);
}

#[test]
fn vector_conversions() {
    let v2 = Vector2::from_ints(3, 4);
    let v3 = v2.to_vec3();
    assert_eq!(v3.x.num, 3);
    assert_eq!(v3.y.num, 4);
    assert_eq!(v3.z.num, 0);
    let back = v3.to_vec2();
    assert_eq!(back.x.num, 3);
    assert_eq!(back.y.num, 4);
}

#[test]
fn mat4_translation_cells() {
    let mut m = Mat4::identity();
    m.set_translation(Vector3::from_ints(7, 8, 9));
    let t = m.get_translation();
    assert_eq!(t.x.num, 7);
    assert_eq!(t.y.num, 8);
    assert_eq!(t.z.num, 9);
    assert_eq!(m.x.x.num, 1);
}

#[test]
fn mat4_negative_translation() {
    let mut m = Mat4::identity();
    m.set_translation(Vector3::from_ints(7, 8, 9));
    let neg = m.get_negative_translation();
    assert_eq!(neg.w.x.num, -7);
    assert_eq!(neg.w.y.num, -8);
    assert_eq!(neg.w.z.num, -9);
    assert_eq!(neg.x.x.num, 1);
    assert_eq!(neg.w.w.num, 1);
}

#[test]
fn mat4_scale_cells() {
    let mut m = Mat4::identity();
    m.set_scale(Vector3::from_ints(2, 3, 4));
    let s = m.get_scale();
    assert_eq!(s.x.num, 2);
    assert_eq!(s.y.num, 3);
    assert_eq!(s.z.num, 4);
    assert_eq!(m.w.w.num, 1);
}

#[test]
fn mat4_data_is_column_major() {
    let mut m = Mat4::identity();
    m.set_translation(Vector3::from_ints(5, 6, 7));
    m.set_scale(Vector3::from_ints(2, 3, 4));
    let data = m.get_data();
    assert_eq!(data[0][0].num, 2);
    assert_eq!(data[1][1].num, 3);
    assert_eq!(data[2][2].num, 4);
    assert_eq!(data[3][0].num, 5);
    assert_eq!(data[3][1].num, 6);
    assert_eq!(data[3][2].num, 7);
    assert_eq!(data[3][3].num, 1);
}
