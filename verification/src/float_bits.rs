//! Single-precision numbers as their bit pattern, for values that are compared and carried but not
//! computed with.

use vstd::prelude::*;

verus! {

/// A single-precision number in IEEE 754 binary32 layout.
#[derive(Debug, Clone, Copy)]
pub struct FloatBits {
    pub bits: u32,
}

pub const SIGN_BIT: u32 = 0x8000_0000;

pub const INFINITY_BITS: u32 = 0x7f80_0000;

impl FloatBits {
    /// The pattern without its sign.
    pub open spec fn magnitude(self) -> int {
        self.bits as int % SIGN_BIT as int
    }

    pub open spec fn nan(self) -> bool {
        self.magnitude() > INFINITY_BITS
    }

    /// Equality of the numbers: both zeros are equal, and what is no number equals nothing.
    pub open spec fn same_number(self, other: Self) -> bool {
        !self.nan() && !other.nan() && (self.bits == other.bits || (self.magnitude() == 0
            && other.magnitude() == 0))
    }

    /// Whether the number is greater than zero.
    pub open spec fn above_zero(self) -> bool {
        0 < self.bits <= INFINITY_BITS
    }

    pub fn equals(self, other: Self) -> (same: bool)
        ensures
            same == self.same_number(other),
    {
        let mine: u32 = self.bits % SIGN_BIT;
        let theirs: u32 = other.bits % SIGN_BIT;
        mine <= INFINITY_BITS && theirs <= INFINITY_BITS && (self.bits == other.bits || (mine == 0
            && theirs == 0))
    }

    pub fn is_positive(self) -> (positive: bool)
        ensures
            positive == self.above_zero(),
    {
        0 < self.bits && self.bits <= INFINITY_BITS
    }
}

impl PartialEq for FloatBits {
    fn eq(&self, other: &Self) -> (same: bool) {
        self.equals(*other)
    }
}

impl vstd::std_specs::cmp::PartialEqSpecImpl for FloatBits {
    open spec fn obeys_eq_spec() -> bool {
        true
    }

    open spec fn eq_spec(&self, other: &Self) -> bool {
        self.same_number(*other)
    }
}

/// 0.0
pub const ZERO_BITS: u32 = 0;

/// 1.0
pub const ONE_BITS: u32 = 0x3f80_0000;

/// -1.0
pub const MINUS_ONE_BITS: u32 = 0xbf80_0000;

/// 4.0
pub const FOUR_BITS: u32 = 0x4080_0000;

/// 8.0
pub const EIGHT_BITS: u32 = 0x4100_0000;

/// 200.0
pub const TWO_HUNDRED_BITS: u32 = 0x4348_0000;

/// 1800.0
pub const EIGHTEEN_HUNDRED_BITS: u32 = 0x44e1_0000;

/// A pattern is exactly one of four things: no number, zero, above zero, or below zero, which is
/// above zero once its sign is changed.
pub proof fn law_patterns_are_of_one_kind(number: FloatBits)
    ensures
        ({
            let negated = FloatBits {
                bits: if number.bits < 0x8000_0000 {
                    (number.bits + 0x8000_0000) as u32
                } else {
                    (number.bits - 0x8000_0000) as u32
                },
            };
            let zero = number.same_number(FloatBits { bits: 0 });
            &&& number.nan() || zero || number.above_zero() || negated.above_zero()
            &&& number.nan() ==> !zero && !number.above_zero() && !negated.above_zero()
            &&& zero ==> !number.above_zero() && !negated.above_zero()
            &&& number.above_zero() ==> !negated.above_zero()
            &&& number.nan() == negated.nan()
            &&& zero == negated.same_number(FloatBits { bits: 0 })
        }),
{
}

/// No number is what has an exponent of all ones and a fraction that is not zero.
pub proof fn law_nan_has_full_exponent_and_a_fraction(number: FloatBits)
    ensures
        number.nan() <==> (number.bits as int / 0x80_0000) % 256 == 255 && number.bits as int
            % 0x80_0000 != 0,
{
}

/// Numbers are the same exactly where their patterns are, but for the two zeros, which are the same
/// too, and for what is no number, which is not even the same as itself.
pub proof fn law_sameness_of_numbers(one: FloatBits, other: FloatBits, third: FloatBits)
    ensures
        one.same_number(one) <==> !one.nan(),
        one.same_number(other) <==> other.same_number(one),
        one.same_number(other) && other.same_number(third) ==> one.same_number(third),
        one.same_number(other) && one.bits != other.bits ==> (one.bits == 0 && other.bits
            == 0x8000_0000) || (one.bits == 0x8000_0000 && other.bits == 0),
        (FloatBits { bits: 0 }).same_number(FloatBits { bits: 0x8000_0000 }),
{
}

} // verus!
