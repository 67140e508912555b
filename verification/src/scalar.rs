//! Exact rational scalars.
//!
//! Every coordinate, scale factor and colour channel in this crate is a
//! rational number `num / den` with `den >= 1`.  All operations state their
//! results exactly, so positions and sizes round-trip without tolerance.

use vstd::prelude::*;

verus! {

/// A rational scalar `num / den`.  Well-formed values keep `den >= 1`.
#[derive(Clone, Copy, Debug, PartialEq, Eq, Structural)]
pub struct Scalar {
    pub num: i64,
    pub den: i64,
}

/// True when the mathematical integer `x` fits in an `i64`.
pub open spec fn in_i64(x: int) -> bool {
    i64::MIN <= x <= i64::MAX
}

/// Products of two `i64` values stay well inside the `i128` range.
proof fn lemma_i64_product_bounds(x: int, y: int)
    requires
        i64::MIN <= x <= i64::MAX,
        i64::MIN <= y <= i64::MAX,
    ensures
        i128::MIN <= x * y <= i128::MAX,
{
    assert(i128::MIN <= x * y <= i128::MAX) by (nonlinear_arith)
        requires
            i64::MIN <= x <= i64::MAX,
            i64::MIN <= y <= i64::MAX,
    ;
}

impl Scalar {
    /// Denominators are always at least one.
    pub open spec fn wf(self) -> bool {
        self.den >= 1
    }

    /// Value equality of two rationals, by cross multiplication.
    pub open spec fn eq_val(self, o: Scalar) -> bool {
        self.num * o.den == o.num * self.den
    }

    /// Value ordering of two rationals (both well-formed).
    pub open spec fn lt_val(self, o: Scalar) -> bool {
        self.num * o.den < o.num * self.den
    }

    /// The value is exactly the integer `n`.
    pub open spec fn is_int(self, n: int) -> bool {
        self.num == n * self.den
    }

    pub open spec fn spec_zero() -> Scalar {
        Scalar { num: 0, den: 1 }
    }

    pub open spec fn spec_one() -> Scalar {
        Scalar { num: 1, den: 1 }
    }

    pub fn from_int(n: i64) -> (r: Scalar)
        ensures
            r == (Scalar { num: n, den: 1 }),
    {
        Scalar { num: n, den: 1 }
    }

    pub fn zero() -> (r: Scalar)
        ensures
            r == Self::spec_zero(),
    {
        Scalar { num: 0, den: 1 }
    }

    pub fn one() -> (r: Scalar)
        ensures
            r == Self::spec_one(),
    {
        Scalar { num: 1, den: 1 }
    }

    /// The exact sum, as a spec value.  Faithful when `add_ok` holds.
    pub open spec fn spec_add(self, o: Scalar) -> Scalar {
        Scalar {
            num: (self.num * o.den + o.num * self.den) as i64,
            den: (self.den * o.den) as i64,
        }
    }

    /// The exact difference, as a spec value.  Faithful when `sub_ok` holds.
    pub open spec fn spec_sub(self, o: Scalar) -> Scalar {
        Scalar {
            num: (self.num * o.den - o.num * self.den) as i64,
            den: (self.den * o.den) as i64,
        }
    }

    /// The exact product, as a spec value.  Faithful when `mul_ok` holds.
    pub open spec fn spec_mul(self, o: Scalar) -> Scalar {
        Scalar { num: (self.num * o.num) as i64, den: (self.den * o.den) as i64 }
    }

    /// The exact quotient, as a spec value.  Faithful when `div_ok` holds
    /// and `o` is nonzero.
    pub open spec fn spec_div(self, o: Scalar) -> Scalar {
        if o.num >= 0 {
            Scalar { num: (self.num * o.den) as i64, den: (self.den * o.num) as i64 }
        } else {
            Scalar { num: (-(self.num * o.den)) as i64, den: (-(self.den * o.num)) as i64 }
        }
    }

    /// The exact negation, as a spec value.  Faithful when `neg_ok` holds.
    pub open spec fn spec_neg(self) -> Scalar {
        Scalar { num: (-self.num) as i64, den: self.den }
    }

    /// The sum `self + o` is representable: both cross products, their sum
    /// and the denominator product fit in an `i64`.
    pub open spec fn add_ok(self, o: Scalar) -> bool {
        &&& in_i64(self.num * o.den)
        &&& in_i64(o.num * self.den)
        &&& in_i64(self.num * o.den + o.num * self.den)
        &&& in_i64(self.den * o.den)
    }

    pub fn add(self, o: Scalar) -> (r: Scalar)
        requires
            self.wf(),
            o.wf(),
            self.add_ok(o),
        ensures
            r == self.spec_add(o),
            r.num == self.num * o.den + o.num * self.den,
            r.den == self.den * o.den,
            r.wf(),
    {
        proof {
            assert(self.den * o.den >= 1) by (nonlinear_arith)
                requires
                    self.den >= 1,
                    o.den >= 1,
            ;
        }
        Scalar { num: self.num * o.den + o.num * self.den, den: self.den * o.den }
    }

    /// The difference `self - o` is representable.
    pub open spec fn sub_ok(self, o: Scalar) -> bool {
        &&& in_i64(self.num * o.den)
        &&& in_i64(o.num * self.den)
        &&& in_i64(self.num * o.den - o.num * self.den)
        &&& in_i64(self.den * o.den)
    }

    pub fn sub(self, o: Scalar) -> (r: Scalar)
        requires
            self.wf(),
            o.wf(),
            self.sub_ok(o),
        ensures
            r == self.spec_sub(o),
            r.num == self.num * o.den - o.num * self.den,
            r.den == self.den * o.den,
            r.wf(),
    {
        proof {
            assert(self.den * o.den >= 1) by (nonlinear_arith)
                requires
                    self.den >= 1,
                    o.den >= 1,
            ;
        }
        Scalar { num: self.num * o.den - o.num * self.den, den: self.den * o.den }
    }

    /// The product `self * o` is representable.
    pub open spec fn mul_ok(self, o: Scalar) -> bool {
        &&& in_i64(self.num * o.num)
        &&& in_i64(self.den * o.den)
    }

    pub fn mul(self, o: Scalar) -> (r: Scalar)
        requires
            self.wf(),
            o.wf(),
            self.mul_ok(o),
        ensures
            r == self.spec_mul(o),
            r.num == self.num * o.num,
            r.den == self.den * o.den,
            r.wf(),
    {
        proof {
            assert(self.den * o.den >= 1) by (nonlinear_arith)
                requires
                    self.den >= 1,
                    o.den >= 1,
            ;
        }
        Scalar { num: self.num * o.num, den: self.den * o.den }
    }

    /// The quotient `self / o` is representable (either sign of `o`).
    pub open spec fn div_ok(self, o: Scalar) -> bool {
        &&& in_i64(self.num * o.den)
        &&& in_i64(self.den * o.num)
        &&& in_i64(-(self.num * o.den))
        &&& in_i64(-(self.den * o.num))
    }

    /// Exact division.  The divisor must be a nonzero value.
    pub fn div(self, o: Scalar) -> (r: Scalar)
        requires
            self.wf(),
            o.wf(),
            o.num != 0,
            self.div_ok(o),
        ensures
            r == self.spec_div(o),
            r.wf(),
            o.num > 0 ==> r.num == self.num * o.den && r.den == self.den * o.num,
            o.num < 0 ==> r.num == -(self.num * o.den) && r.den == -(self.den * o.num),
    {
        let n: i64 = self.num * o.den;
        let d: i64 = self.den * o.num;
        if o.num > 0 {
            proof {
                assert(self.den * o.num >= 1) by (nonlinear_arith)
                    requires
                        self.den >= 1,
                        o.num >= 1,
                ;
            }
            Scalar { num: n, den: d }
        } else {
            proof {
                assert(-(self.den * o.num) >= 1) by (nonlinear_arith)
                    requires
                        self.den >= 1,
                        o.num <= -1,
                ;
            }
            Scalar { num: -n, den: -d }
        }
    }

    /// The negation `-self` is representable.
    pub open spec fn neg_ok(self) -> bool {
        in_i64(-self.num)
    }

    pub fn neg(self) -> (r: Scalar)
        requires
            self.wf(),
            self.neg_ok(),
        ensures
            r == self.spec_neg(),
            r.num == -self.num,
            r.den == self.den,
            r.wf(),
    {
        Scalar { num: -self.num, den: self.den }
    }

    /// Value comparison `self < o`; total on well-formed scalars.
    pub fn lt(&self, o: &Scalar) -> (r: bool)
        requires
            self.wf(),
            o.wf(),
        ensures
            r == self.lt_val(*o),
    {
        proof {
            lemma_i64_product_bounds(self.num as int, o.den as int);
            lemma_i64_product_bounds(o.num as int, self.den as int);
        }
        (self.num as i128) * (o.den as i128) < (o.num as i128) * (self.den as i128)
    }

    /// Value equality test; total on well-formed scalars.
    pub fn equals(&self, o: &Scalar) -> (r: bool)
        requires
            self.wf(),
            o.wf(),
        ensures
            r == self.eq_val(*o),
    {
        proof {
            lemma_i64_product_bounds(self.num as int, o.den as int);
            lemma_i64_product_bounds(o.num as int, self.den as int);
        }
        (self.num as i128) * (o.den as i128) == (o.num as i128) * (self.den as i128)
    }

    /// A representable quotient of well-formed scalars is well-formed.
    pub proof fn lemma_spec_div_wf(self, o: Scalar)
        requires
            self.wf(),
            o.wf(),
            o.num != 0,
            self.div_ok(o),
        ensures
            self.spec_div(o).wf(),
    {
        if o.num >= 0 {
            assert(self.den * o.num >= 1) by (nonlinear_arith)
                requires
                    self.den >= 1,
                    o.num >= 1,
            ;
        } else {
            assert(-(self.den * o.num) >= 1) by (nonlinear_arith)
                requires
                    self.den >= 1,
                    o.num <= -1,
            ;
        }
    }

    /// A representable product of well-formed scalars is well-formed.
    pub proof fn lemma_spec_mul_wf(self, o: Scalar)
        requires
            self.wf(),
            o.wf(),
            self.mul_ok(o),
        ensures
            self.spec_mul(o).wf(),
    {
        assert(self.den * o.den >= 1) by (nonlinear_arith)
            requires
                self.den >= 1,
                o.den >= 1,
        ;
    }

    /// The byte a unit-range scalar maps to on a 0..=255 channel,
    /// rounding down.
    pub open spec fn spec_unit_byte(self) -> int {
        (self.num * 255) / (self.den as int)
    }

    /// Converts a unit-range scalar (between zero and one) to a colour
    /// channel byte, rounding down.
    pub fn unit_byte(&self) -> (r: u8)
        requires
            self.wf(),
            0 <= self.num <= self.den,
        ensures
            r == self.spec_unit_byte(),
    {
        proof {
            assert(0 <= (self.num * 255) / (self.den as int) <= 255) by (nonlinear_arith)
                requires
                    0 <= self.num <= self.den,
                    self.den >= 1,
            ;
            assert(self.num * 255 <= u128::MAX) by (nonlinear_arith)
                requires
                    0 <= self.num <= i64::MAX,
            ;
        }
        (((self.num as u128) * 255) / (self.den as u128)) as u8
    }

    /// A well-formed scalar is the value zero exactly when its numerator is.
    pub fn is_zero(&self) -> (r: bool)
        requires
            self.wf(),
        ensures
            r == self.eq_val(Self::spec_zero()),
    {
        self.num == 0
    }
}

} // verus!
