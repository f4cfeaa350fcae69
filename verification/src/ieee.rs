//! IEEE 754 numbers, carried by their bit patterns, and what is decided of
//! them in integers.
//!
//! A number's size is counted in units of its format's smallest step, so that
//! every number of the format, the infinities included, is a whole number of
//! units, and two numbers compare as their counts do.

use vstd::arithmetic::div_mod::{lemma_basic_div, lemma_div_by_multiple, lemma_div_denominator};
use vstd::arithmetic::power2::{
    lemma2_to64,
    lemma2_to64_rest,
    lemma_pow2_adds,
    lemma_pow2_pos,
    lemma_pow2_strictly_increases,
    lemma_pow2_unfold,
    pow2,
};
use vstd::bits::lemma_u64_shr_is_div;
use vstd::prelude::*;

verus! {

/// The size that an exponent field and a fraction field encode, in units of
/// the format's smallest step. `hidden` is the weight of the leading bit that
/// a normal number does not store.
pub open spec fn encoded_size(exponent: nat, fraction: nat, hidden: nat) -> nat {
    if exponent == 0 {
        fraction
    } else {
        (hidden + fraction) * pow2((exponent - 1) as nat)
    }
}

/// Sizes grow with the exponent field, and under one exponent with the
/// fraction field.
pub proof fn lemma_encoded_size_grows(
    low_exponent: nat,
    low_fraction: nat,
    high_exponent: nat,
    high_fraction: nat,
    hidden: nat,
)
    requires
        low_fraction < hidden,
        high_fraction < hidden,
        low_exponent < high_exponent || (low_exponent == high_exponent && low_fraction
            < high_fraction),
    ensures
        encoded_size(low_exponent, low_fraction, hidden) < encoded_size(
            high_exponent,
            high_fraction,
            hidden,
        ),
{
    if low_exponent == high_exponent {
        if low_exponent != 0 {
            let step = pow2((low_exponent - 1) as nat);
            lemma_pow2_pos((low_exponent - 1) as nat);
            assert((hidden + low_fraction) * step < (hidden + high_fraction) * step)
                by (nonlinear_arith)
                requires
                    low_fraction < high_fraction,
                    step > 0,
            ;
        }
    } else {
        let high_step = pow2((high_exponent - 1) as nat);
        lemma_pow2_pos((high_exponent - 1) as nat);
        assert(hidden * high_step <= (hidden + high_fraction) * high_step) by (nonlinear_arith)
            requires
                high_step > 0,
        ;
        if low_exponent == 0 {
            assert(hidden <= hidden * high_step) by (nonlinear_arith)
                requires
                    high_step > 0,
            ;
        } else {
            let low_step = pow2((low_exponent - 1) as nat);
            lemma_pow2_pos((low_exponent - 1) as nat);
            lemma_pow2_unfold(low_exponent);
            if low_exponent < high_exponent - 1 {
                lemma_pow2_strictly_increases(low_exponent, (high_exponent - 1) as nat);
            }
            assert((hidden + low_fraction) * low_step < hidden * (2 * low_step))
                by (nonlinear_arith)
                requires
                    low_fraction < hidden,
                    low_step > 0,
            ;
            assert(hidden * (2 * low_step) <= hidden * high_step) by (nonlinear_arith)
                requires
                    2 * low_step <= high_step,
            ;
        }
    }
}

/// A binary32 number: one sign bit, eight exponent bits, 23 fraction bits.
#[derive(Clone, Copy, Debug, PartialEq, Eq, Structural)]
pub struct Binary32 {
    pub bits: u32,
}

/// A binary64 number: one sign bit, eleven exponent bits, 52 fraction bits.
#[derive(Clone, Copy, Debug, PartialEq, Eq, Structural)]
pub struct Binary64 {
    pub bits: u64,
}

impl Binary32 {
    /// The pattern without its sign bit.
    pub open spec fn unsigned_bits(self) -> nat {
        (self.bits % 0x8000_0000) as nat
    }

    /// The exponent field.
    pub open spec fn exponent(self) -> nat {
        self.unsigned_bits() / 0x80_0000
    }

    /// The fraction field.
    pub open spec fn fraction(self) -> nat {
        self.unsigned_bits() % 0x80_0000
    }

    /// The whole number that, doubled `self.doublings()` times, is the
    /// number's size: below 2^24.
    pub open spec fn significand(self) -> nat {
        if self.exponent() == 0 {
            self.fraction()
        } else {
            0x80_0000 + self.fraction()
        }
    }

    /// How often the significand is doubled.
    pub open spec fn doublings(self) -> nat {
        if self.exponent() == 0 {
            0
        } else {
            (self.exponent() - 1) as nat
        }
    }

    /// The number's size without its sign, in units of 2^-149.
    pub open spec fn magnitude(self) -> nat {
        encoded_size(self.exponent(), self.fraction(), 0x80_0000)
    }

    /// The number in units of 2^-149.
    pub open spec fn scaled(self) -> int {
        if self.is_negative() {
            -(self.magnitude() as int)
        } else {
            self.magnitude() as int
        }
    }

    /// What `is_negative` gives.
    pub open spec fn spec_is_negative(self) -> bool {
        self.bits >= 0x8000_0000
    }

    /// What `is_nan` gives.
    pub open spec fn spec_is_nan(self) -> bool {
        self.unsigned_bits() > 0x7f80_0000
    }

    /// What `is_infinite` gives.
    pub open spec fn spec_is_infinite(self) -> bool {
        self.unsigned_bits() == 0x7f80_0000
    }

    /// What `is_zero` gives.
    pub open spec fn spec_is_zero(self) -> bool {
        self.unsigned_bits() == 0
    }

    /// What `is_less_than` gives.
    pub open spec fn spec_is_less_than(self, other: Binary32) -> bool {
        &&& !self.is_nan()
        &&& !other.is_nan()
        &&& if self.is_negative() {
            if other.is_negative() {
                other.unsigned_bits() < self.unsigned_bits()
            } else {
                !self.is_zero() || !other.is_zero()
            }
        } else {
            !other.is_negative() && self.unsigned_bits() < other.unsigned_bits()
        }
    }

    /// How far the number is from the fraction `numerator / denominator`, in
    /// units of 2^-149, `denominator` times over.
    pub open spec fn distance_from(self, numerator: nat, denominator: nat) -> int {
        let gap = denominator * self.scaled() - numerator * pow2(149);
        if gap < 0 {
            -gap
        } else {
            gap
        }
    }

    /// Whether the number is one to which the fraction `numerator /
    /// denominator` rounds: whether no binary32 number is nearer to it.
    pub open spec fn is_nearest_to(self, numerator: nat, denominator: nat) -> bool {
        &&& !self.is_nan()
        &&& forall|other: Binary32|
            !other.is_nan() ==> self.distance_from(numerator, denominator)
                <= #[trigger] other.distance_from(numerator, denominator)
    }

    /// Whether the sign bit is set.
    #[verifier::when_used_as_spec(spec_is_negative)]
    pub fn is_negative(self) -> (negative: bool)
        ensures
            negative == self.spec_is_negative(),
    {
        self.bits >= 0x8000_0000
    }

    /// Whether the pattern stands for no number at all.
    #[verifier::when_used_as_spec(spec_is_nan)]
    pub fn is_nan(self) -> (nan: bool)
        ensures
            nan == self.spec_is_nan(),
    {
        self.bits % 0x8000_0000 > 0x7f80_0000
    }

    /// Whether the pattern is one of the two infinities.
    #[verifier::when_used_as_spec(spec_is_infinite)]
    pub fn is_infinite(self) -> (infinite: bool)
        ensures
            infinite == self.spec_is_infinite(),
    {
        self.bits % 0x8000_0000 == 0x7f80_0000
    }

    /// Whether the pattern is one of the two zeros.
    #[verifier::when_used_as_spec(spec_is_zero)]
    pub fn is_zero(self) -> (zero: bool)
        ensures
            zero == self.spec_is_zero(),
    {
        self.bits % 0x8000_0000 == 0
    }

    /// Whether `self` is the lesser number. A pattern that stands for no
    /// number is neither less nor more than anything, and the two zeros are
    /// one number. Of two numbers above zero the lesser has the lesser
    /// pattern, of two below zero the greater one; the law
    /// `lemma_less_than_is_the_order_of_sizes` says that this is the order of
    /// the numbers.
    #[verifier::when_used_as_spec(spec_is_less_than)]
    pub fn is_less_than(self, other: Binary32) -> (less: bool)
        ensures
            less == self.spec_is_less_than(other),
    {
        if self.is_nan() || other.is_nan() {
            return false;
        }
        let mine: u32 = self.bits % 0x8000_0000;
        let theirs: u32 = other.bits % 0x8000_0000;
        if self.is_negative() {
            if other.is_negative() {
                theirs < mine
            } else {
                mine != 0 || theirs != 0
            }
        } else {
            !other.is_negative() && mine < theirs
        }
    }

    /// The significand and the number of its doublings.
    pub fn parts(self) -> (parts: (u32, u32))
        ensures
            parts.0 == self.significand(),
            parts.1 == self.doublings(),
            parts.0 < 0x100_0000,
            parts.1 <= 254,
            self.magnitude() == parts.0 * pow2(parts.1 as nat),
    {
        let unsigned: u32 = self.bits % 0x8000_0000;
        let exponent: u32 = unsigned / 0x80_0000;
        let fraction: u32 = unsigned % 0x80_0000;
        if exponent == 0 {
            proof {
                lemma2_to64();
            }
            (fraction, 0)
        } else {
            (0x80_0000 + fraction, exponent - 1)
        }
    }
}

/// Without their signs, two binary32 numbers compare as their patterns do.
pub proof fn lemma_binary32_sizes_compare_as_bits(a: Binary32, b: Binary32)
    ensures
        a.unsigned_bits() < b.unsigned_bits() <==> a.magnitude() < b.magnitude(),
        a.unsigned_bits() == b.unsigned_bits() <==> a.magnitude() == b.magnitude(),
        a.is_zero() <==> a.magnitude() == 0,
{
    let (ea, fa) = (a.exponent(), a.fraction());
    let (eb, fb) = (b.exponent(), b.fraction());
    if ea < eb || (ea == eb && fa < fb) {
        lemma_encoded_size_grows(ea, fa, eb, fb, 0x80_0000);
    }
    if eb < ea || (eb == ea && fb < fa) {
        lemma_encoded_size_grows(eb, fb, ea, fa, 0x80_0000);
    }
    if !a.is_zero() {
        lemma_encoded_size_grows(0, 0, ea, fa, 0x80_0000);
    }
}

/// A binary32 number is less than another where it counts fewer units, the
/// units of a number below zero counted as owed.
pub proof fn lemma_less_than_is_the_order_of_sizes(a: Binary32, b: Binary32)
    ensures
        a.is_less_than(b) <==> !a.is_nan() && !b.is_nan() && a.scaled() < b.scaled(),
{
    lemma_binary32_sizes_compare_as_bits(a, b);
    lemma_binary32_sizes_compare_as_bits(b, a);
}

/// A positive number is one to which a fraction rounds where the two numbers
/// next to it have the fraction between them and lie no nearer to it. The
/// three distances are given in steps of any one size, with their signs:
/// `below` for the next number down, `at` for the number itself, `above` for
/// the next number up.
pub proof fn lemma_nearest_of_neighbours(
    middle: Binary32,
    numerator: nat,
    denominator: nat,
    step: nat,
    below: int,
    at: int,
    above: int,
)
    requires
        0 < middle.bits < 0x7f80_0000,
        0 < step,
        denominator * (Binary32 { bits: (middle.bits - 1) as u32 }).scaled() - numerator * pow2(149)
            == below * step,
        denominator * middle.scaled() - numerator * pow2(149) == at * step,
        denominator * (Binary32 { bits: (middle.bits + 1) as u32 }).scaled() - numerator * pow2(149)
            == above * step,
        below <= at <= above,
        below <= -at <= above,
    ensures
        middle.is_nearest_to(numerator, denominator),
{
    let lower = Binary32 { bits: (middle.bits - 1) as u32 };
    let upper = Binary32 { bits: (middle.bits + 1) as u32 };
    let aim = numerator * pow2(149);
    let near = middle.distance_from(numerator, denominator);
    assert(below * step <= at * step <= above * step && below * step <= -(at * step) <= above
        * step) by (nonlinear_arith)
        requires
            below <= at <= above,
            below <= -at <= above,
            0 < step,
    ;
    assert(denominator * lower.scaled() - aim <= -near);
    assert(near <= denominator * upper.scaled() - aim);
    assert forall|other: Binary32| !other.is_nan() implies near <= #[trigger] other.distance_from(
        numerator,
        denominator,
    ) by {
        lemma_binary32_sizes_compare_as_bits(other, lower);
        lemma_binary32_sizes_compare_as_bits(other, upper);
        lemma_binary32_sizes_compare_as_bits(other, middle);
        if other.is_negative() || other.unsigned_bits() <= lower.unsigned_bits() {
            assert(other.scaled() <= lower.scaled());
            assert(denominator * other.scaled() <= denominator * lower.scaled())
                by (nonlinear_arith)
                requires
                    other.scaled() <= lower.scaled(),
            ;
        } else if other.unsigned_bits() >= upper.unsigned_bits() {
            assert(upper.scaled() <= other.scaled());
            assert(denominator * upper.scaled() <= denominator * other.scaled())
                by (nonlinear_arith)
                requires
                    upper.scaled() <= other.scaled(),
            ;
        } else {
            assert(other.unsigned_bits() == middle.unsigned_bits());
            assert(other.scaled() == middle.scaled());
        }
    }
}

/// The bits of the binary64 number one.
pub const ONE: u64 = 0x3ff0_0000_0000_0000;

impl Binary64 {
    /// The pattern without its sign bit.
    pub open spec fn unsigned_bits(self) -> nat {
        (self.bits % 0x8000_0000_0000_0000) as nat
    }

    /// The exponent field.
    pub open spec fn exponent(self) -> nat {
        self.unsigned_bits() / 0x10_0000_0000_0000
    }

    /// The fraction field.
    pub open spec fn fraction(self) -> nat {
        self.unsigned_bits() % 0x10_0000_0000_0000
    }

    /// The whole number that, doubled `self.doublings()` times, is the
    /// number's size: below 2^53.
    pub open spec fn significand(self) -> nat {
        if self.exponent() == 0 {
            self.fraction()
        } else {
            0x10_0000_0000_0000 + self.fraction()
        }
    }

    /// How often the significand is doubled.
    pub open spec fn doublings(self) -> nat {
        if self.exponent() == 0 {
            0
        } else {
            (self.exponent() - 1) as nat
        }
    }

    /// The number's size without its sign, in units of 2^-1074.
    pub open spec fn magnitude(self) -> nat {
        encoded_size(self.exponent(), self.fraction(), 0x10_0000_0000_0000)
    }

    /// The number in units of 2^-1074.
    pub open spec fn scaled(self) -> int {
        if self.is_negative() {
            -(self.magnitude() as int)
        } else {
            self.magnitude() as int
        }
    }

    /// What `is_negative` gives.
    pub open spec fn spec_is_negative(self) -> bool {
        self.bits >= 0x8000_0000_0000_0000
    }

    /// What `is_nan` gives.
    pub open spec fn spec_is_nan(self) -> bool {
        self.unsigned_bits() > 0x7ff0_0000_0000_0000
    }

    /// What `is_infinite` gives.
    pub open spec fn spec_is_infinite(self) -> bool {
        self.unsigned_bits() == 0x7ff0_0000_0000_0000
    }

    /// What `is_zero` gives.
    pub open spec fn spec_is_zero(self) -> bool {
        self.unsigned_bits() == 0
    }

    /// What `is_equal_to` gives.
    pub open spec fn spec_is_equal_to(self, other: Binary64) -> bool {
        &&& !self.is_nan()
        &&& !other.is_nan()
        &&& (self.bits == other.bits || (self.is_zero() && other.is_zero()))
    }

    /// What `to_u8` gives.
    pub open spec fn spec_to_u8(self) -> u8 {
        let whole = self.magnitude() / pow2(1074);
        if self.is_nan() || self.is_negative() {
            0
        } else if whole > 255 {
            255
        } else {
            whole as u8
        }
    }

    /// Whether the sign bit is set.
    #[verifier::when_used_as_spec(spec_is_negative)]
    pub fn is_negative(self) -> (negative: bool)
        ensures
            negative == self.spec_is_negative(),
    {
        self.bits >= 0x8000_0000_0000_0000
    }

    /// Whether the pattern stands for no number at all.
    #[verifier::when_used_as_spec(spec_is_nan)]
    pub fn is_nan(self) -> (nan: bool)
        ensures
            nan == self.spec_is_nan(),
    {
        self.bits % 0x8000_0000_0000_0000 > 0x7ff0_0000_0000_0000
    }

    /// Whether the pattern is one of the two infinities.
    #[verifier::when_used_as_spec(spec_is_infinite)]
    pub fn is_infinite(self) -> (infinite: bool)
        ensures
            infinite == self.spec_is_infinite(),
    {
        self.bits % 0x8000_0000_0000_0000 == 0x7ff0_0000_0000_0000
    }

    /// Whether the pattern is one of the two zeros.
    #[verifier::when_used_as_spec(spec_is_zero)]
    pub fn is_zero(self) -> (zero: bool)
        ensures
            zero == self.spec_is_zero(),
    {
        self.bits % 0x8000_0000_0000_0000 == 0
    }

    /// Whether the two are one number. A pattern that stands for no number
    /// equals nothing, itself included, and the two zeros are one number;
    /// any other two numbers are one where their patterns are. The law
    /// `lemma_equal_is_the_same_size` says that these are the numbers of one
    /// size.
    #[verifier::when_used_as_spec(spec_is_equal_to)]
    pub fn is_equal_to(self, other: Binary64) -> (equal: bool)
        ensures
            equal == self.spec_is_equal_to(other),
    {
        if self.is_nan() || other.is_nan() {
            return false;
        }
        self.bits == other.bits || (self.is_zero() && other.is_zero())
    }

    /// The number without what follows its point, and no less than 0 nor more
    /// than 255: the one of these two that is nearer, where it is outside
    /// them, and 0 where the pattern stands for no number.
    #[verifier::when_used_as_spec(spec_to_u8)]
    pub fn to_u8(self) -> (whole: u8)
        ensures
            whole == self.spec_to_u8(),
    {
        if self.is_nan() || self.is_negative() {
            return 0;
        }
        let exponent: u64 = self.bits / 0x10_0000_0000_0000;
        let fraction: u64 = self.bits % 0x10_0000_0000_0000;
        proof {
            lemma2_to64();
            lemma2_to64_rest();
            lemma_pow2_pos(1074);
        }
        if exponent < 1023 {
            proof {
                // Below one: fewer than 2^53 * 2^1021 units.
                if exponent != 0 {
                    let doublings = (exponent - 1) as nat;
                    lemma_pow2_pos(doublings);
                    lemma_pow2_adds(53, doublings);
                    if 53 + doublings < 1074 {
                        lemma_pow2_strictly_increases(53 + doublings, 1074);
                    }
                    assert((0x10_0000_0000_0000 + fraction) * pow2(doublings) < pow2(53) * pow2(
                        doublings,
                    )) by (nonlinear_arith)
                        requires
                            0x10_0000_0000_0000 + fraction < pow2(53),
                            pow2(doublings) > 0,
                    ;
                } else {
                    lemma_pow2_strictly_increases(52, 1074);
                }
                lemma_basic_div(self.magnitude() as int, pow2(1074) as int);
            }
            0
        } else if exponent > 1030 {
            proof {
                // At least 256: no fewer than 2^52 * 2^1030 units.
                let doublings = (exponent - 1) as nat;
                lemma_pow2_adds(8, 1074);
                lemma_pow2_adds(52, 1030);
                if 1030 < doublings {
                    lemma_pow2_strictly_increases(1030, doublings);
                }
                assert(pow2(52) * pow2(1030) <= (0x10_0000_0000_0000 + fraction) * pow2(doublings))
                    by (nonlinear_arith)
                    requires
                        pow2(52) <= 0x10_0000_0000_0000 + fraction,
                        pow2(1030) <= pow2(doublings),
                ;
                assert(self.magnitude() / pow2(1074) >= 256) by (nonlinear_arith)
                    requires
                        self.magnitude() >= 256 * pow2(1074),
                        pow2(1074) > 0,
                ;
            }
            255
        } else {
            let dropped: u64 = 1075 - exponent;
            let significand: u64 = 0x10_0000_0000_0000 + fraction;
            let whole: u64 = significand >> dropped;
            proof {
                // From one to below 256: the point stands `dropped` bits from
                // the significand's low end.
                let doublings = (exponent - 1) as nat;
                let step = pow2(doublings);
                let divisor = pow2(dropped as nat);
                lemma_pow2_pos(doublings);
                lemma_pow2_pos(dropped as nat);
                lemma_u64_shr_is_div(significand, dropped);
                lemma_pow2_adds(doublings, dropped as nat);
                lemma_div_by_multiple(significand as int, step as int);
                lemma_div_denominator(self.magnitude() as int, step as int, divisor as int);
                assert(self.magnitude() / pow2(1074) == significand as nat / divisor);
                if 45 < dropped {
                    lemma_pow2_strictly_increases(45, dropped as nat);
                }
                assert(significand as nat / divisor < 256) by (nonlinear_arith)
                    requires
                        significand < 256 * pow2(45),
                        pow2(45) <= divisor,
                ;
            }
            whole as u8
        }
    }

    /// The significand and the number of its doublings.
    pub fn parts(self) -> (parts: (u64, u32))
        ensures
            parts.0 == self.significand(),
            parts.1 == self.doublings(),
            parts.0 < 0x20_0000_0000_0000,
            parts.1 <= 2046,
            self.magnitude() == parts.0 * pow2(parts.1 as nat),
    {
        let unsigned: u64 = self.bits % 0x8000_0000_0000_0000;
        let exponent: u64 = unsigned / 0x10_0000_0000_0000;
        let fraction: u64 = unsigned % 0x10_0000_0000_0000;
        if exponent == 0 {
            proof {
                lemma2_to64();
            }
            (fraction, 0)
        } else {
            (0x10_0000_0000_0000 + fraction, (exponent - 1) as u32)
        }
    }
}

/// Without their signs, two binary64 numbers compare as their patterns do.
pub proof fn lemma_binary64_sizes_compare_as_bits(a: Binary64, b: Binary64)
    ensures
        a.unsigned_bits() < b.unsigned_bits() <==> a.magnitude() < b.magnitude(),
        a.unsigned_bits() == b.unsigned_bits() <==> a.magnitude() == b.magnitude(),
        a.is_zero() <==> a.magnitude() == 0,
{
    let (ea, fa) = (a.exponent(), a.fraction());
    let (eb, fb) = (b.exponent(), b.fraction());
    if ea < eb || (ea == eb && fa < fb) {
        lemma_encoded_size_grows(ea, fa, eb, fb, 0x10_0000_0000_0000);
    }
    if eb < ea || (eb == ea && fb < fa) {
        lemma_encoded_size_grows(eb, fb, ea, fa, 0x10_0000_0000_0000);
    }
    if !a.is_zero() {
        lemma_encoded_size_grows(0, 0, ea, fa, 0x10_0000_0000_0000);
    }
}

/// Two binary64 numbers are equal where they count the same units, the units
/// of a number below zero counted as owed.
pub proof fn lemma_equal_is_the_same_size(a: Binary64, b: Binary64)
    ensures
        a.is_equal_to(b) <==> !a.is_nan() && !b.is_nan() && a.scaled() == b.scaled(),
{
    lemma_binary64_sizes_compare_as_bits(a, b);
    lemma_binary64_sizes_compare_as_bits(b, a);
}

/// The pattern `ONE` is the number one, 2^1074 units of 2^-1074, and a
/// number equals it where it is of that size.
pub proof fn lemma_one_is_one(number: Binary64)
    ensures
        (Binary64 { bits: ONE }).scaled() == pow2(1074),
        number.is_equal_to(Binary64 { bits: ONE }) <==> !number.is_nan() && number.scaled() == pow2(
            1074,
        ),
{
    lemma2_to64_rest();
    lemma_pow2_adds(52, 1022);
    lemma_equal_is_the_same_size(number, Binary64 { bits: ONE });
}

} // verus!
