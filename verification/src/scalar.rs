//! Single-precision numbers as bit patterns.
//!
//! A `Scalar` is an IEEE 754 binary32 number held as its 32 bits. Everything
//! that only inspects a number (sign, ordering, absolute value, clamping) is
//! computed here on the bits; everything that rounds is left to an `Arith`.

use vstd::prelude::*;

verus! {

pub const SIGN_BIT: u32 = 0x8000_0000;

pub const INFINITY_BITS: u32 = 0x7f80_0000;

pub const NEG_INFINITY_BITS: u32 = 0xff80_0000;

pub const ZERO_BITS: u32 = 0x0000_0000;

pub const ONE_BITS: u32 = 0x3f80_0000;

pub const NEG_ONE_BITS: u32 = 0xbf80_0000;

pub const TWO_BITS: u32 = 0x4000_0000;

pub const THREE_BITS: u32 = 0x4040_0000;

pub const FOUR_BITS: u32 = 0x4080_0000;

pub const HALF_BITS: u32 = 0x3f00_0000;

/// 1e-4: a hit nearer than this counts as the ray leaving its own surface,
/// and secondary rays start this far off the surface.
pub const SURFACE_EPSILON_BITS: u32 = 0x38d1_b717;

/// 1e-6: below this a denominator counts as zero.
pub const DEGENERACY_EPSILON_BITS: u32 = 0x3586_37bd;

/// The circle constant rounded to single precision.
pub const PI_BITS: u32 = 0x4049_0fdb;

/// The bits below the exponent hold the fraction: 2^23 of them.
pub const FRACTION_SPAN: u32 = 0x0080_0000;

/// 2 to the power `k`.
pub open spec fn two_to_spec(k: nat) -> int
    decreases k,
{
    if k == 0 {
        1
    } else {
        2 * two_to_spec((k - 1) as nat)
    }
}

/// Powers of two are positive and grow with the exponent.
pub proof fn lemma_two_to_grows(a: nat, b: nat)
    requires
        a <= b,
    ensures
        0 < two_to_spec(a) <= two_to_spec(b),
    decreases b,
{
    if a < b {
        lemma_two_to_grows(a, (b - 1) as nat);
    } else if a > 0 {
        lemma_two_to_grows((a - 1) as nat, (b - 1) as nat);
    }
}

/// 2 to the power 24 is 16777216.
pub proof fn lemma_two_to_24()
    ensures
        two_to_spec(8) == 256,
        two_to_spec(24) == 0x100_0000,
{
    reveal_with_fuel(two_to_spec, 9);
    assert(two_to_spec(8) == 256);
    assert(two_to_spec(16) == 256 * two_to_spec(8)) by {
        reveal_with_fuel(two_to_spec, 9);
    }
    assert(two_to_spec(24) == 256 * two_to_spec(16)) by {
        reveal_with_fuel(two_to_spec, 9);
    }
}

fn two_to(k: u32) -> (r: u32)
    requires
        k <= 24,
    ensures
        r == two_to_spec(k as nat),
        1 <= r <= 0x100_0000,
{
    let mut r: u32 = 1;
    let mut i: u32 = 0;
    while i < k
        invariant
            i <= k <= 24,
            r == two_to_spec(i as nat),
            1 <= r <= 0x100_0000,
        decreases k - i,
    {
        proof {
            lemma_two_to_grows((i + 1) as nat, 24);
            lemma_two_to_24();
        }
        r = r * 2;
        i += 1;
    }
    r
}

/// An IEEE 754 single-precision number, held as its 32-bit pattern.
#[derive(Clone, Copy, Debug)]
pub struct Scalar {
    pub bits: u32,
}

impl Scalar {
    /// The sign bit is set.
    pub open spec fn negative(self) -> bool {
        self.bits >= SIGN_BIT
    }

    /// The bits without the sign: exponent and fraction read as one integer.
    pub open spec fn magnitude(self) -> int {
        if self.bits >= SIGN_BIT {
            self.bits - SIGN_BIT
        } else {
            self.bits as int
        }
    }

    /// Not a number: the exponent is all ones and the fraction is not zero.
    pub open spec fn nan(self) -> bool {
        self.magnitude() > INFINITY_BITS
    }

    /// The place of a number on the number line. Among numbers that are not
    /// NaN, `a` is less than `b` exactly when `a.rank() < b.rank()`, and the
    /// two zeros share rank 0.
    pub open spec fn rank(self) -> int {
        if self.negative() {
            -self.magnitude()
        } else {
            self.magnitude()
        }
    }

    /// `self < other` as IEEE 754 orders them: false when either is NaN.
    pub open spec fn lt_spec(self, other: Scalar) -> bool {
        !self.nan() && !other.nan() && self.rank() < other.rank()
    }

    /// `self > other`: false when either is NaN.
    pub open spec fn gt_spec(self, other: Scalar) -> bool {
        other.lt_spec(self)
    }

    /// `self == other` as numbers: false when either is NaN, true of the two
    /// zeros.
    pub open spec fn same_spec(self, other: Scalar) -> bool {
        !self.nan() && !other.nan() && self.rank() == other.rank()
    }

    pub open spec fn abs_spec(self) -> Scalar {
        Scalar { bits: self.magnitude() as u32 }
    }

    pub open spec fn neg_spec(self) -> Scalar {
        if self.bits >= SIGN_BIT {
            Scalar { bits: (self.bits - SIGN_BIT) as u32 }
        } else {
            Scalar { bits: (self.bits + SIGN_BIT) as u32 }
        }
    }

    /// The larger of two numbers; the other one when one is NaN; `self` when
    /// they are equal as numbers.
    pub open spec fn max_spec(self, other: Scalar) -> Scalar {
        if self.nan() {
            other
        } else if self.lt_spec(other) {
            other
        } else {
            self
        }
    }

    /// The smaller of two numbers; the other one when one is NaN; `self` when
    /// they are equal as numbers.
    pub open spec fn min_spec(self, other: Scalar) -> Scalar {
        if self.nan() {
            other
        } else if other.lt_spec(self) {
            other
        } else {
            self
        }
    }

    /// `lo` below `lo`, `hi` above `hi`, `self` otherwise (NaN stays NaN).
    pub open spec fn clamp_spec(self, lo: Scalar, hi: Scalar) -> Scalar {
        if self.lt_spec(lo) {
            lo
        } else if self.gt_spec(hi) {
            hi
        } else {
            self
        }
    }

    pub open spec fn unit_clamp_spec(self) -> Scalar {
        self.clamp_spec(Scalar { bits: ZERO_BITS }, Scalar { bits: ONE_BITS })
    }

    /// The exponent field: the magnitude without its 23 fraction bits.
    pub open spec fn exponent(self) -> int {
        self.magnitude() / (FRACTION_SPAN as int)
    }

    /// The significand of a normal number: the fraction bits under a
    /// leading one. The number's size is `significand * 2^(exponent - 150)`.
    pub open spec fn significand(self) -> int {
        self.magnitude() % (FRACTION_SPAN as int) + FRACTION_SPAN
    }

    /// The number cut to a whole number and held to the range of `u32`:
    /// 0 for NaN, for negative numbers and below 1, the largest `u32` from
    /// 2^32 on.
    pub open spec fn truncate_spec(self) -> int {
        let e = self.exponent();
        if self.nan() || self.negative() || e < 127 {
            0
        } else if e >= 159 {
            0xffff_ffff
        } else if e >= 150 {
            self.significand() * two_to_spec((e - 150) as nat)
        } else {
            self.significand() / two_to_spec((150 - e) as nat)
        }
    }

    /// The number rounded to the nearest whole number, halves upwards, and
    /// held to `0 ..= 255`: 0 for NaN and for negative numbers.
    pub open spec fn round_to_byte_spec(self) -> int {
        let e = self.exponent();
        if self.nan() || self.negative() || e < 126 {
            0
        } else if e >= 135 {
            255
        } else {
            let shift = (150 - e) as nat;
            let rounded = (self.significand() + two_to_spec((shift - 1) as nat)) / two_to_spec(
                shift,
            );
            if rounded > 255 {
                255
            } else {
                rounded
            }
        }
    }

    pub fn from_bits(bits: u32) -> (r: Scalar)
        ensures
            r.bits == bits,
    {
        Scalar { bits }
    }

    pub fn to_bits(self) -> (r: u32)
        ensures
            r == self.bits,
    {
        self.bits
    }

    pub fn zero() -> (r: Scalar)
        ensures
            r.bits == ZERO_BITS,
    {
        Scalar { bits: ZERO_BITS }
    }

    pub fn one() -> (r: Scalar)
        ensures
            r.bits == ONE_BITS,
    {
        Scalar { bits: ONE_BITS }
    }

    pub fn surface_epsilon() -> (r: Scalar)
        ensures
            r.bits == SURFACE_EPSILON_BITS,
    {
        Scalar { bits: SURFACE_EPSILON_BITS }
    }

    pub fn degeneracy_epsilon() -> (r: Scalar)
        ensures
            r.bits == DEGENERACY_EPSILON_BITS,
    {
        Scalar { bits: DEGENERACY_EPSILON_BITS }
    }

    pub fn infinity() -> (r: Scalar)
        ensures
            r.bits == INFINITY_BITS,
    {
        Scalar { bits: INFINITY_BITS }
    }

    pub fn neg_infinity() -> (r: Scalar)
        ensures
            r.bits == NEG_INFINITY_BITS,
    {
        Scalar { bits: NEG_INFINITY_BITS }
    }

    pub fn is_negative(self) -> (r: bool)
        ensures
            r == self.negative(),
    {
        self.bits >= SIGN_BIT
    }

    fn magnitude_bits(self) -> (r: u32)
        ensures
            r == self.magnitude(),
            r < SIGN_BIT,
    {
        if self.bits >= SIGN_BIT {
            self.bits - SIGN_BIT
        } else {
            self.bits
        }
    }

    pub fn is_nan(self) -> (r: bool)
        ensures
            r == self.nan(),
    {
        self.magnitude_bits() > INFINITY_BITS
    }

    fn rank_value(self) -> (r: i64)
        ensures
            r == self.rank(),
    {
        let m: i64 = self.magnitude_bits() as i64;
        if self.bits >= SIGN_BIT {
            -m
        } else {
            m
        }
    }

    pub fn lt(self, other: Scalar) -> (r: bool)
        ensures
            r == self.lt_spec(other),
    {
        !self.is_nan() && !other.is_nan() && self.rank_value() < other.rank_value()
    }

    pub fn gt(self, other: Scalar) -> (r: bool)
        ensures
            r == self.gt_spec(other),
    {
        other.lt(self)
    }

    pub fn same(self, other: Scalar) -> (r: bool)
        ensures
            r == self.same_spec(other),
    {
        !self.is_nan() && !other.is_nan() && self.rank_value() == other.rank_value()
    }

    /// The number without its sign. The result is never negative, and is NaN
    /// only for NaN.
    pub fn abs(self) -> (r: Scalar)
        ensures
            r == self.abs_spec(),
            !r.negative(),
            r.nan() == self.nan(),
            r.magnitude() == self.magnitude(),
    {
        Scalar { bits: self.magnitude_bits() }
    }

    /// The number with its sign flipped.
    pub fn neg(self) -> (r: Scalar)
        ensures
            r == self.neg_spec(),
            r.negative() == !self.negative(),
            r.magnitude() == self.magnitude(),
    {
        if self.bits >= SIGN_BIT {
            Scalar { bits: self.bits - SIGN_BIT }
        } else {
            Scalar { bits: self.bits + SIGN_BIT }
        }
    }

    pub fn max(self, other: Scalar) -> (r: Scalar)
        ensures
            r == self.max_spec(other),
    {
        if self.is_nan() {
            other
        } else if self.lt(other) {
            other
        } else {
            self
        }
    }

    pub fn min(self, other: Scalar) -> (r: Scalar)
        ensures
            r == self.min_spec(other),
    {
        if self.is_nan() {
            other
        } else if other.lt(self) {
            other
        } else {
            self
        }
    }

    /// Restricts a number to `[lo, hi]`.
    pub fn clamp(self, lo: Scalar, hi: Scalar) -> (r: Scalar)
        requires
            !lo.nan(),
            !hi.nan(),
            lo.rank() <= hi.rank(),
        ensures
            r == self.clamp_spec(lo, hi),
            !self.nan() ==> lo.rank() <= r.rank() <= hi.rank(),
            self.nan() ==> r == self,
    {
        if self.lt(lo) {
            lo
        } else if self.gt(hi) {
            hi
        } else {
            self
        }
    }

    pub fn truncate(self) -> (r: u32)
        ensures
            r == self.truncate_spec(),
    {
        let m = self.magnitude_bits();
        let e = m / FRACTION_SPAN;
        let significand = m % FRACTION_SPAN + FRACTION_SPAN;
        if self.is_nan() || self.is_negative() || e < 127 {
            0
        } else if e >= 159 {
            0xffff_ffff
        } else if e >= 150 {
            let scale = two_to(e - 150);
            proof {
                lemma_two_to_grows((e - 150) as nat, 8);
                lemma_two_to_24();
                assert(significand * scale <= 0xff_ffff * 256) by (nonlinear_arith)
                    requires
                        0 <= significand <= 0xff_ffff,
                        0 <= scale <= 256,
                ;
            }
            significand * scale
        } else {
            significand / two_to(150 - e)
        }
    }

    pub fn round_to_byte(self) -> (r: u8)
        ensures
            r == self.round_to_byte_spec(),
    {
        let m = self.magnitude_bits();
        let e = m / FRACTION_SPAN;
        let significand = m % FRACTION_SPAN + FRACTION_SPAN;
        if self.is_nan() || self.is_negative() || e < 126 {
            0
        } else if e >= 135 {
            255
        } else {
            let shift = 150 - e;
            let rounded = (significand + two_to(shift - 1)) / two_to(shift);
            if rounded > 255 {
                255
            } else {
                rounded as u8
            }
        }
    }

    /// Restricts a number to `[0, 1]`.
    pub fn unit_clamp(self) -> (r: Scalar)
        ensures
            r == self.unit_clamp_spec(),
            !self.nan() ==> 0 <= r.rank() <= ONE_BITS,
            self.nan() ==> r == self,
    {
        self.clamp(Scalar { bits: ZERO_BITS }, Scalar { bits: ONE_BITS })
    }
}

/// No number is less than itself, and of two numbers at most one is less
/// than the other.
pub proof fn lemma_lt_strict(a: Scalar, b: Scalar)
    ensures
        !a.lt_spec(a),
        !(a.lt_spec(b) && b.lt_spec(a)),
{
}

/// The order on numbers is transitive.
pub proof fn lemma_lt_transitive(a: Scalar, b: Scalar, c: Scalar)
    requires
        a.lt_spec(b),
        b.lt_spec(c),
    ensures
        a.lt_spec(c),
{
}

/// Unless both are NaN, the larger of two numbers is a number that neither
/// exceeds; the smaller is one that exceeds neither.
pub proof fn lemma_max_min_bounds(a: Scalar, b: Scalar)
    requires
        !a.nan() || !b.nan(),
    ensures
        !a.max_spec(b).nan(),
        !a.max_spec(b).lt_spec(a),
        !a.max_spec(b).lt_spec(b),
        !a.min_spec(b).nan(),
        !a.lt_spec(a.min_spec(b)),
        !b.lt_spec(a.min_spec(b)),
{
}

} // verus!
