//! Levels and times as IEEE 754 double-precision numbers, held by their bit patterns.
//!
//! A number is carried exactly, and compared exactly; arithmetic on it is left to the caller.

use vstd::prelude::*;

verus! {

/// The sign bit.
pub const SIGN_BIT: u64 = 0x8000_0000_0000_0000;

/// The bit pattern of positive infinity. Greater magnitudes are not numbers.
pub const INFINITY_BITS: u64 = 0x7FF0_0000_0000_0000;

/// The bit pattern of zero.
pub const ZERO_BITS: u64 = 0;

/// The bit pattern of one.
pub const ONE_BITS: u64 = 0x3FF0_0000_0000_0000;

/// The bit pattern of one hundred.
pub const HUNDRED_BITS: u64 = 0x4059_0000_0000_0000;

/// A double-precision number, given by its IEEE 754 bit pattern.
#[derive(Clone, Copy, Debug, PartialEq, Eq, Structural)]
pub struct Number {
    pub bits: u64,
}

impl Number {
    /// Position of the number on the number line: patterns of equal sign are ordered as their
    /// magnitudes are, and the two zeros coincide.
    pub open spec fn rank(self) -> int {
        if self.bits < SIGN_BIT {
            self.bits as int
        } else {
            SIGN_BIT - self.bits
        }
    }

    /// Whether the pattern stands for no number.
    pub open spec fn is_nan_spec(self) -> bool {
        self.rank() > INFINITY_BITS || self.rank() < -INFINITY_BITS
    }

    /// Whether the pattern stands for a number other than the infinities.
    pub open spec fn is_finite_spec(self) -> bool {
        -INFINITY_BITS < self.rank() < INFINITY_BITS
    }

    /// Whether the number is a level: between zero and one hundred, both included.
    pub open spec fn is_level(self) -> bool {
        ZERO_BITS <= self.rank() <= HUNDRED_BITS
    }

    /// Whether this number is less than another. Nothing compares with a pattern that stands for
    /// no number.
    pub open spec fn less_spec(self, other: Number) -> bool {
        !self.is_nan_spec() && !other.is_nan_spec() && self.rank() < other.rank()
    }

    /// The number zero.
    pub fn zero() -> (r: Number)
        ensures
            r.bits == ZERO_BITS,
    {
        Number { bits: ZERO_BITS }
    }

    /// The number one.
    pub fn one() -> (r: Number)
        ensures
            r.bits == ONE_BITS,
    {
        Number { bits: ONE_BITS }
    }

    /// The number one hundred.
    pub fn hundred() -> (r: Number)
        ensures
            r.bits == HUNDRED_BITS,
    {
        Number { bits: HUNDRED_BITS }
    }

    /// Whether this number is less than another.
    pub fn less(self, other: Number) -> (r: bool)
        ensures
            r == self.less_spec(other),
    {
        let a_negative = self.bits >= SIGN_BIT;
        let b_negative = other.bits >= SIGN_BIT;
        let a: u64 = if a_negative {
            self.bits - SIGN_BIT
        } else {
            self.bits
        };
        let b: u64 = if b_negative {
            other.bits - SIGN_BIT
        } else {
            other.bits
        };
        if a > INFINITY_BITS || b > INFINITY_BITS {
            false
        } else if a_negative && b_negative {
            b < a
        } else if a_negative {
            a > 0 || b > 0
        } else if b_negative {
            false
        } else {
            a < b
        }
    }

    /// This number brought into the range of a level: zero to one hundred.
    pub open spec fn clamped(self) -> Number {
        if self.less_spec((Number { bits: ZERO_BITS })) {
            Number { bits: ZERO_BITS }
        } else if (Number { bits: HUNDRED_BITS }).less_spec(self) {
            Number { bits: HUNDRED_BITS }
        } else {
            self
        }
    }

    /// Brings the number into the range of a level: zero to one hundred.
    pub fn clamp_percent(self) -> (r: Number)
        ensures
            r == self.clamped(),
    {
        if self.less(Number::zero()) {
            Number::zero()
        } else if Number::hundred().less(self) {
            Number::hundred()
        } else {
            self
        }
    }
}

/// A clamped number lies between zero and one hundred, both included; only what is no number
/// stays as it is.
pub proof fn clamped_is_a_level(x: Number)
    ensures
        x.is_nan_spec() ==> x.clamped() == x,
        !x.is_nan_spec() ==> x.clamped().is_level(),
{
}

/// Clamping leaves a level alone, so clamping twice is clamping once.
pub proof fn clamping_twice_is_clamping_once(x: Number)
    ensures
        x.is_level() ==> x.clamped() == x,
        x.clamped().clamped() == x.clamped(),
{
}

/// Clamping keeps the order of numbers.
pub proof fn clamping_keeps_order(x: Number, y: Number)
    requires
        !x.is_nan_spec(),
        !y.is_nan_spec(),
        x.rank() <= y.rank(),
    ensures
        x.clamped().rank() <= y.clamped().rank(),
{
}

/// Patterns are read as IEEE 754 lays them out: with an exponent field of all ones they stand for
/// infinity or for no number, otherwise for a finite number.
pub proof fn patterns_follow_the_format(x: Number)
    ensures
        x.is_finite_spec() <==> (x.bits / 0x10_0000_0000_0000) % 0x800 != 0x7FF,
        x.is_nan_spec() <==> (x.bits / 0x10_0000_0000_0000) % 0x800 == 0x7FF && x.bits
            % 0x10_0000_0000_0000 != 0,
{
}

/// The constants are the numbers that they are named after: one is two to the power of zero, and a
/// hundred is its significand times two to the power of six.
pub proof fn constants_are_what_they_say()
    ensures
        ZERO_BITS == 0,
        ONE_BITS / 0x10_0000_0000_0000 == 1023,
        ONE_BITS % 0x10_0000_0000_0000 == 0,
        HUNDRED_BITS / 0x10_0000_0000_0000 == 1023 + 6,
        (0x10_0000_0000_0000 + HUNDRED_BITS % 0x10_0000_0000_0000) * 64 == 100
            * 0x10_0000_0000_0000,
{
}

/// Numbers are ordered as on the number line: positive ones by their magnitudes, negative ones the
/// other way round, negative before positive, and the two zeros alike. Nothing compares with what
/// is no number. A magnitude is a pattern without its sign.
pub proof fn numbers_are_ordered_as_on_the_line(x: u64, y: u64)
    requires
        x < 0x8000_0000_0000_0000,
        y < 0x8000_0000_0000_0000,
    ensures
        ({
            let there = x <= 0x7FF0_0000_0000_0000 && y <= 0x7FF0_0000_0000_0000;
            let minus_x = Number { bits: (x + 0x8000_0000_0000_0000) as u64 };
            let minus_y = Number { bits: (y + 0x8000_0000_0000_0000) as u64 };
            &&& (Number { bits: x }).less_spec(Number { bits: y }) <==> there && x < y
            &&& minus_x.less_spec(minus_y) <==> there && y < x
            &&& minus_x.less_spec(Number { bits: y }) <==> there && (x > 0 || y > 0)
            &&& !(Number { bits: x }).less_spec(minus_y)
        }),
{
}

/// Clamping gives zero for what is below zero, a hundred for what is above a hundred, and leaves
/// everything between them as it is.
pub proof fn clamping_moves_only_what_is_outside(x: Number)
    ensures
        x.less_spec(Number { bits: 0 }) ==> x.clamped().bits == 0,
        (Number { bits: 0x4059_0000_0000_0000 }).less_spec(x) ==> x.clamped().bits
            == 0x4059_0000_0000_0000,
        !x.less_spec(Number { bits: 0 }) && !(Number { bits: 0x4059_0000_0000_0000 }).less_spec(x)
            ==> x.clamped() == x,
        x.is_level() <==> !x.is_nan_spec() && !x.less_spec(Number { bits: 0 }) && !(Number {
            bits: 0x4059_0000_0000_0000,
        }).less_spec(x),
{
}

} // verus!
