//! IEEE 754 binary64 values as bit patterns, with the order that the
//! standard gives them.
//!
//! Every finite binary64 value is an integer multiple of 2^-1074.  The model
//! of a pattern is that integer, [`Binary64::scaled`]; comparisons are
//! stated over it.

use vstd::prelude::*;
use vstd::arithmetic::power2::{
    lemma2_to64_rest, lemma_pow2_adds, lemma_pow2_pos, lemma_pow2_strictly_increases,
    lemma_pow2_unfold, pow2,
};

verus! {

/// The bit that carries the sign.
pub const SIGN_BIT: u64 = 0x8000_0000_0000_0000;

/// The payload of an infinity: all exponent bits set, fraction zero.
pub const INFINITY_PAYLOAD: u64 = 0x7FF0_0000_0000_0000;

/// Two to the power 52: the weight of the implicit leading bit of a normal
/// significand, and the number of distinct fractions.
pub const FRACTION_SPAN: u64 = 0x0010_0000_0000_0000;

/// The bits of +0.
pub const ZERO_BITS: u64 = 0;

/// The bits of 1: sign clear, biased exponent 1023, fraction zero.
pub const ONE_BITS: u64 = 0x3FF0_0000_0000_0000;

/// A binary64 value, held as its 64 bits.
#[derive(Clone, Copy, Debug)]
pub struct Binary64 {
    pub bits: u64,
}

impl Binary64 {
    /// Whether the sign bit is set (true also of -0 and of some NaNs).
    pub open spec fn sign(self) -> bool {
        self.bits >= SIGN_BIT
    }

    /// The 63 bits below the sign bit.
    pub open spec fn payload(self) -> u64 {
        if self.bits >= SIGN_BIT {
            (self.bits - SIGN_BIT) as u64
        } else {
            self.bits
        }
    }

    /// The exponent field, 0 to 2047.
    pub open spec fn biased_exponent(self) -> nat {
        (self.payload() / FRACTION_SPAN) as nat
    }

    /// The fraction field, below 2^52.
    pub open spec fn fraction(self) -> nat {
        (self.payload() % FRACTION_SPAN) as nat
    }

    /// Whether the value is a NaN: all exponent bits set and a fraction
    /// other than zero.
    pub open spec fn spec_is_nan(self) -> bool {
        self.payload() > INFINITY_PAYLOAD
    }

    /// Whether the value is neither a NaN nor an infinity.
    pub open spec fn is_finite(self) -> bool {
        self.payload() < INFINITY_PAYLOAD
    }

    /// Whether the value is +0 or -0.
    pub open spec fn spec_is_zero(self) -> bool {
        self.payload() == 0
    }

    /// The absolute value in units of 2^-1074.  A subnormal value is its
    /// fraction; a normal value is its significand, with the implicit bit,
    /// shifted by the exponent.  An infinity gets 2^2098, above every finite
    /// magnitude.  Of a NaN the result means nothing.
    pub open spec fn magnitude(self) -> nat {
        if self.biased_exponent() == 0 {
            self.fraction()
        } else {
            ((FRACTION_SPAN + self.fraction()) * pow2((self.biased_exponent() - 1) as nat)) as nat
        }
    }

    /// The value in units of 2^-1074: `magnitude` with the sign.
    pub open spec fn scaled(self) -> int {
        if self.sign() {
            -(self.magnitude() as int)
        } else {
            self.magnitude() as int
        }
    }

    /// The distance to the next value of larger magnitude, in units of
    /// 2^-1074.
    pub open spec fn spacing(self) -> nat {
        if self.biased_exponent() == 0 {
            1
        } else {
            pow2((self.biased_exponent() - 1) as nat)
        }
    }

    /// Whether the value is finite and lies within half a spacing of the
    /// rational `numerator / denominator`.
    pub open spec fn approximates(self, numerator: int, denominator: int) -> bool {
        let error = self.scaled() * denominator - numerator * pow2(1074);
        &&& self.is_finite()
        &&& denominator > 0
        &&& -(self.spacing() * denominator) <= 2 * error <= self.spacing() * denominator
    }

    /// `self < other` as IEEE 754 orders them: false when either is a NaN,
    /// and -0 is not below +0.
    pub open spec fn spec_lt(self, other: Binary64) -> bool {
        !self.spec_is_nan() && !other.spec_is_nan() && self.scaled() < other.scaled()
    }

    /// `self > other` as IEEE 754 orders them.
    pub open spec fn spec_gt(self, other: Binary64) -> bool {
        other.spec_lt(self)
    }

    /// Positive zero.
    pub open spec fn spec_zero() -> Binary64 {
        Binary64 { bits: ZERO_BITS }
    }

    /// One.
    pub open spec fn spec_one() -> Binary64 {
        Binary64 { bits: ONE_BITS }
    }

    /// A larger payload is a larger magnitude.
    pub proof fn lemma_magnitude_increases(self, other: Binary64)
        requires
            self.payload() < other.payload(),
        ensures
            self.magnitude() < other.magnitude(),
    {
        let span = FRACTION_SPAN as int;
        let ea = self.biased_exponent();
        let eb = other.biased_exponent();
        let fa = self.fraction() as int;
        let fb = other.fraction() as int;
        assert(self.payload() == ea * span + fa);
        assert(other.payload() == eb * span + fb);
        assert(ea <= eb);
        if ea == eb {
            if ea != 0 {
                let p = pow2((ea - 1) as nat) as int;
                lemma_pow2_pos((ea - 1) as nat);
                assert((span + fa) * p < (span + fb) * p) by (nonlinear_arith)
                    requires
                        fa < fb,
                        p > 0,
                ;
            }
        } else {
            let q = pow2((eb - 1) as nat) as int;
            lemma_pow2_pos((eb - 1) as nat);
            if ea == 0 {
                assert((span + fb) * q >= span) by (nonlinear_arith)
                    requires
                        fb >= 0,
                        q >= 1,
                        span > 0,
                ;
            } else {
                let p = pow2((ea - 1) as nat) as int;
                lemma_pow2_pos((ea - 1) as nat);
                lemma_pow2_unfold(ea);
                if ea < eb - 1 {
                    lemma_pow2_strictly_increases(ea, (eb - 1) as nat);
                }
                assert(2 * p <= q);
                assert((span + fa) * p < (span + fb) * q) by (nonlinear_arith)
                    requires
                        0 <= fa < span,
                        fb >= 0,
                        p > 0,
                        2 * p <= q,
                ;
            }
        }
    }

    /// Only the two zeros have magnitude zero.
    pub proof fn lemma_magnitude_zero(self)
        ensures
            self.magnitude() == 0 <==> self.spec_is_zero(),
    {
        if self.payload() > 0 {
            let zero = Binary64 { bits: 0 };
            zero.lemma_magnitude_increases(self);
        }
    }

    /// The order read off the bits: values of one sign are ordered by their
    /// payloads, up for the positive and down for the negative, and a
    /// negative value is below a positive one unless both are zeros.
    pub open spec fn payload_lt(self, other: Binary64) -> bool {
        &&& !self.spec_is_nan()
        &&& !other.spec_is_nan()
        &&& if self.sign() {
            if other.sign() {
                other.payload() < self.payload()
            } else {
                self.payload() != 0 || other.payload() != 0
            }
        } else {
            !other.sign() && self.payload() < other.payload()
        }
    }

    /// The order of the values is the order read off the bits.
    pub proof fn lemma_order_by_payload(self, other: Binary64)
        ensures
            self.spec_lt(other) == self.payload_lt(other),
    {
        self.lemma_magnitude_zero();
        other.lemma_magnitude_zero();
        if self.payload() < other.payload() {
            self.lemma_magnitude_increases(other);
        }
        if other.payload() < self.payload() {
            other.lemma_magnitude_increases(self);
        }
    }

    /// A positive normal value below 2^53 approximates a rational when its
    /// significand does so at the value's own scale: with `shift` the number
    /// of binary places behind the point, 1075 less the biased exponent.
    pub proof fn lemma_approximates(self, numerator: int, denominator: int, shift: nat)
        requires
            !self.sign(),
            self.is_finite(),
            self.biased_exponent() >= 1,
            self.biased_exponent() + shift == 1075,
            denominator > 0,
            -denominator <= 2 * ((FRACTION_SPAN + self.fraction()) * denominator - numerator
                * pow2(shift)) <= denominator,
        ensures
            self.approximates(numerator, denominator),
    {
        let significand = (FRACTION_SPAN + self.fraction()) as int;
        let unit = pow2((self.biased_exponent() - 1) as nat) as int;
        let place = pow2(shift) as int;
        lemma_pow2_adds(shift, (self.biased_exponent() - 1) as nat);
        lemma_pow2_pos((self.biased_exponent() - 1) as nat);
        assert(pow2(1074) == place * unit);
        assert(self.scaled() == significand * unit);
        let local = significand * denominator - numerator * place;
        let error = self.scaled() * denominator - numerator * pow2(1074);
        assert(error == local * unit) by (nonlinear_arith)
            requires
                error == (significand * unit) * denominator - numerator * (place * unit),
                local == significand * denominator - numerator * place,
        ;
        assert(-(unit * denominator) <= 2 * (local * unit) <= unit * denominator)
            by (nonlinear_arith)
            requires
                -denominator <= 2 * local <= denominator,
                unit > 0,
        ;
    }

    /// Zero is below one: the scaled value of one is 2^1074.
    pub proof fn lemma_zero_below_one()
        ensures
            Binary64::spec_zero().scaled() == 0,
            Binary64::spec_one().scaled() == pow2(1074),
            Binary64::spec_zero().spec_lt(Binary64::spec_one()),
    {
        let one = Binary64::spec_one();
        assert(one.biased_exponent() == 1023);
        assert(one.fraction() == 0);
        lemma_pow2_adds(52, 1022);
        lemma2_to64_rest();
        lemma_pow2_pos(1074);
    }

    /// Positive zero.
    #[verifier::when_used_as_spec(spec_zero)]
    pub fn zero() -> (value: Binary64)
        ensures
            value == Binary64::spec_zero(),
    {
        Binary64 { bits: ZERO_BITS }
    }

    /// One.
    #[verifier::when_used_as_spec(spec_one)]
    pub fn one() -> (value: Binary64)
        ensures
            value == Binary64::spec_one(),
    {
        Binary64 { bits: ONE_BITS }
    }

    /// The value with the given bits.
    pub fn from_bits(bits: u64) -> (value: Binary64)
        ensures
            value.bits == bits,
    {
        Binary64 { bits }
    }

    /// The bits of the value.
    pub fn to_bits(self) -> (bits: u64)
        ensures
            bits == self.bits,
    {
        self.bits
    }

    fn payload_bits(self) -> (payload: u64)
        ensures
            payload == self.payload(),
    {
        if self.bits >= SIGN_BIT {
            self.bits - SIGN_BIT
        } else {
            self.bits
        }
    }

    /// Whether the value is a NaN.
    #[verifier::when_used_as_spec(spec_is_nan)]
    pub fn is_nan(self) -> (nan: bool)
        ensures
            nan == self.spec_is_nan(),
    {
        self.payload_bits() > INFINITY_PAYLOAD
    }

    /// Whether the value is +0 or -0.
    #[verifier::when_used_as_spec(spec_is_zero)]
    pub fn is_zero(self) -> (zero: bool)
        ensures
            zero == self.spec_is_zero(),
            zero <==> !self.spec_is_nan() && self.scaled() == 0,
    {
        proof {
            self.lemma_magnitude_zero();
        }
        self.payload_bits() == 0
    }

    /// `self < other` in the IEEE 754 order.
    #[verifier::when_used_as_spec(spec_lt)]
    pub fn lt(self, other: Binary64) -> (below: bool)
        ensures
            below == self.spec_lt(other),
    {
        proof {
            self.lemma_order_by_payload(other);
        }
        if self.is_nan() || other.is_nan() {
            return false;
        }
        let a: u64 = self.payload_bits();
        let b: u64 = other.payload_bits();
        if self.bits >= SIGN_BIT {
            if other.bits >= SIGN_BIT {
                b < a
            } else {
                a != 0 || b != 0
            }
        } else {
            if other.bits >= SIGN_BIT {
                false
            } else {
                a < b
            }
        }
    }

    /// `self > other` in the IEEE 754 order.
    #[verifier::when_used_as_spec(spec_gt)]
    pub fn gt(self, other: Binary64) -> (above: bool)
        ensures
            above == self.spec_gt(other),
    {
        other.lt(self)
    }
}

} // verus!
