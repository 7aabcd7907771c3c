//! Binary floating-point values carried by their bit patterns.
//!
//! The wire format speaks of fractional seconds and of a volume between zero
//! and one. Here such a number is held as the bits of its IEEE 754 encoding,
//! so that it passes through unchanged and can be compared exactly. The few
//! operations that the client needs on such numbers are carried out on the
//! bits, in integers: restricting a volume to the unit interval, and going
//! between whole milliseconds and seconds.

use vstd::arithmetic::div_mod::{
    lemma_basic_div, lemma_div_denominator, lemma_fundamental_div_mod,
};
use vstd::arithmetic::power2::{
    lemma2_to64, lemma2_to64_rest, lemma_pow2_pos, lemma_pow2_strictly_increases,
    lemma_pow2_unfold, pow2,
};
use vstd::prelude::*;

verus! {

/// An IEEE 754 binary32 number, held by its bit pattern.
///
/// Two values are equal when their bit patterns are.
#[derive(Clone, Copy, Debug, PartialEq, Eq, Structural)]
pub struct Float32 {
    /// Sign (1 bit), exponent (8 bits), fraction (23 bits).
    pub bits: u32,
}

/// An IEEE 754 binary64 number, held by its bit pattern.
///
/// Two values are equal when their bit patterns are.
#[derive(Clone, Copy, Debug, PartialEq, Eq, Structural)]
pub struct Float64 {
    /// Sign (1 bit), exponent (11 bits), fraction (52 bits).
    pub bits: u64,
}

/// The bits of binary32 positive zero.
pub const SINGLE_ZERO_BITS: u32 = 0;

/// The bits of binary32 one.
pub const SINGLE_ONE_BITS: u32 = 0x3F80_0000;

/// The bits of binary32 negative zero: the sign bit alone.
pub const SINGLE_SIGN_BIT: u32 = 0x8000_0000;

/// The bits of binary32 positive infinity: above them, with the sign bit
/// taken off, a pattern is not a number.
pub const SINGLE_INFINITY_BITS: u32 = 0x7F80_0000;

impl Float32 {
    /// The pattern without its sign bit.
    pub open spec fn magnitude(self) -> int {
        self.bits as int % 0x8000_0000
    }

    /// Whether the sign bit is set.
    pub open spec fn sign_set(self) -> bool {
        self.bits >= 0x8000_0000
    }

    /// Whether the pattern encodes no number.
    pub open spec fn is_nan(self) -> bool {
        self.magnitude() > 0x7F80_0000
    }

    /// Whether the value is below zero: a number with the sign bit set that
    /// is not negative zero.
    pub open spec fn below_zero(self) -> bool {
        !self.is_nan() && self.sign_set() && self.magnitude() > 0
    }

    /// Whether the value is above one: a number without the sign bit whose
    /// pattern lies above that of one. Among patterns without the sign bit
    /// the order of the patterns is the order of the numbers.
    pub open spec fn above_one(self) -> bool {
        !self.is_nan() && !self.sign_set() && self.bits > 0x3F80_0000
    }

    /// Whether the value lies in the closed interval from zero to one.
    /// Negative zero equals zero and lies in it.
    pub open spec fn in_unit_interval(self) -> bool {
        self.bits <= 0x3F80_0000 || self.bits == 0x8000_0000
    }

    /// The value restricted to the closed interval from zero to one: zero
    /// for a value below zero, one for a value above one, and the value
    /// itself otherwise. What is not a number stays as it is.
    pub open spec fn unit_clamped(self) -> Float32 {
        if self.below_zero() {
            Float32 { bits: 0 }
        } else if self.above_one() {
            Float32 { bits: 0x3F80_0000 }
        } else {
            self
        }
    }

    /// A number restricted to the unit interval lies in it, and a number
    /// that lies in it is left as it is. This holds of every pattern that
    /// encodes a number; what encodes none stays outside.
    pub proof fn lemma_unit_clamped(self)
        ensures
            !self.is_nan() ==> self.unit_clamped().in_unit_interval(),
            self.is_nan() ==> self.unit_clamped() == self && !self.in_unit_interval(),
            self.in_unit_interval() ==> self.unit_clamped() == self,
            self.unit_clamped().unit_clamped() == self.unit_clamped(),
    {
    }

    /// The value with the given bit pattern.
    pub fn from_bits(bits: u32) -> (r: Float32)
        ensures
            r.bits == bits,
    {
        Float32 { bits }
    }

    /// The bit pattern.
    pub fn to_bits(self) -> (bits: u32)
        ensures
            bits == self.bits,
    {
        self.bits
    }

    /// Restricts the value to the closed interval from zero to one.
    pub fn clamp_unit(self) -> (r: Float32)
        ensures
            r == self.unit_clamped(),
            !self.is_nan() ==> r.in_unit_interval(),
            self.in_unit_interval() ==> r == self,
    {
        let magnitude: u32 = self.bits % SINGLE_SIGN_BIT;
        if magnitude > SINGLE_INFINITY_BITS {
            self
        } else if self.bits > SINGLE_SIGN_BIT {
            Float32 { bits: SINGLE_ZERO_BITS }
        } else if self.bits < SINGLE_SIGN_BIT && self.bits > SINGLE_ONE_BITS {
            Float32 { bits: SINGLE_ONE_BITS }
        } else {
            self
        }
    }
}

/// Two to the power of 52: the weight of the hidden bit of a binary64
/// significand, and the step from one exponent field to the next.
pub const HIDDEN_BIT: u64 = 0x10_0000_0000_0000;

/// Two to the power of 53: a binary64 significand lies below it.
pub const SIGNIFICAND_LIMIT: u64 = 0x20_0000_0000_0000;

/// The bits of binary64 negative zero: the sign bit alone.
pub const DOUBLE_SIGN_BIT: u64 = 0x8000_0000_0000_0000;

/// The exponent field of infinities and of what is not a number.
pub const EXPONENT_FIELD_MAX: u64 = 2047;

/// What is taken from the exponent field of a normal number to get the
/// power of two by which its significand, read as an integer, is scaled.
pub const EXPONENT_OFFSET: i64 = 1075;

/// `n` divided by `d` and rounded to the nearest integer, a tie going to the
/// even one.
pub open spec fn div_half_even(n: nat, d: nat) -> nat {
    let q = n / d;
    let r = n % d;
    if 2 * r > d || (2 * r == d && q % 2 == 1) {
        q + 1
    } else {
        q
    }
}

/// `n` times two to the power of `e`, rounded to the nearest integer, a tie
/// going up.
pub open spec fn scale_half_up(n: nat, e: int) -> nat {
    if e >= 0 {
        n * pow2(e as nat)
    } else {
        (2 * n + pow2((-e) as nat)) / (2 * pow2((-e) as nat))
    }
}

/// How many bits `n` has beyond 53.
pub open spec fn excess_bits(n: nat) -> nat
    decreases n,
{
    if n < 0x20_0000_0000_0000 {
        0
    } else {
        1 + excess_bits(n / 2)
    }
}

/// The integer that binary64 holds for the integer `n`: `n` rounded to 53
/// significant bits, a tie going to the even significand.
pub open spec fn nearest_binary53(n: nat) -> nat {
    div_half_even(n, pow2(excess_bits(n))) * pow2(excess_bits(n))
}

/// How often `t` must be doubled to reach `floor`.
pub open spec fn doublings_to_reach(t: nat, floor: nat) -> nat
    decreases
            (if t < floor {
                floor - t
            } else {
                0
            }),
{
    if t == 0 || t >= floor {
        0
    } else {
        1 + doublings_to_reach(2 * t, floor)
    }
}

/// The quotient of a positive integer `a` of at most two to the power of
/// 64 by one thousand, as a significand of 53 bits and the power of two
/// that scales it: the significand is the quotient of `a`, doubled or
/// halved until the quotient has 53 bits, rounded to the nearest integer
/// with a tie going to the even one. Where rounding carries, the
/// significand is two to the power of 53.
pub open spec fn thousandth(a: nat) -> (nat, int) {
    if a < 1000 * 0x20_0000_0000_0000 {
        let s = doublings_to_reach(a, 1000 * 0x10_0000_0000_0000);
        (div_half_even(a * pow2(s), 1000), -(s as int))
    } else if a < 2000 * 0x20_0000_0000_0000 {
        (div_half_even(a, 2000), 1)
    } else {
        (div_half_even(a, 4000), 2)
    }
}

/// The bits of the positive normal binary64 number with the given
/// significand, read as an integer from two to the power of 52 up to, and
/// with, two to the power of 53, and the given power of two that scales it.
/// A significand of two to the power of 53 is written with the next power.
pub open spec fn normal_bits(significand: nat, scale: int) -> int {
    if significand == 0x20_0000_0000_0000 {
        (scale + 1076) * 0x10_0000_0000_0000
    } else {
        (scale + 1075) * 0x10_0000_0000_0000 + (significand - 0x10_0000_0000_0000)
    }
}

/// The seconds that a whole number of milliseconds is: `ms` as binary64,
/// divided by one thousand in binary64.
pub open spec fn seconds_of_millis(ms: u64) -> Float64 {
    if ms == 0 {
        Float64 { bits: 0 }
    } else {
        let (significand, scale) = thousandth(nearest_binary53(ms as nat));
        Float64 { bits: normal_bits(significand, scale) as u64 }
    }
}

/// The rounded quotient lies within half a divisor of the dividend, and
/// where it lies exactly half a divisor away it is even.
pub proof fn lemma_div_half_even_is_nearest(n: nat, d: nat)
    requires
        d > 0,
    ensures
        2 * (div_half_even(n, d) * d - n) <= d,
        2 * (n - div_half_even(n, d) * d) <= d,
        2 * (div_half_even(n, d) * d - n) == d || 2 * (n - div_half_even(n, d) * d) == d
            ==> div_half_even(n, d) % 2 == 0,
        n / d <= div_half_even(n, d) <= n / d + 1,
{
    let q = n / d;
    let r = n % d;
    lemma_fundamental_div_mod(n as int, d as int);
    assert((q + 1) * d == q * d + d) by (nonlinear_arith);
    assert(d * q == q * d) by (nonlinear_arith);
}

/// An integer below two to the power of 53 is held by binary64 as it is.
pub proof fn lemma_small_integers_are_exact(n: nat)
    requires
        n < 0x20_0000_0000_0000,
    ensures
        nearest_binary53(n) == n,
{
    lemma2_to64();
    assert(excess_bits(n) == 0);
}

/// The integer that binary64 holds for `n` lies within half a step of `n`,
/// where a step is two to the power of the bits that `n` has beyond 53.
pub proof fn lemma_nearest_binary53_is_near(n: nat)
    ensures
        2 * (nearest_binary53(n) - n) <= pow2(excess_bits(n)),
        2 * (n - nearest_binary53(n)) <= pow2(excess_bits(n)),
{
    let step = pow2(excess_bits(n));
    lemma_pow2_pos(excess_bits(n));
    lemma_div_half_even_is_nearest(n, step);
}

/// Doubling a positive number as often as it takes to reach a floor brings
/// it to the floor or above, and below twice the floor.
pub proof fn lemma_doublings_reach(t: nat, floor: nat)
    requires
        0 < t < 2 * floor,
    ensures
        floor <= t * pow2(doublings_to_reach(t, floor)) < 2 * floor,
    decreases
            (if t < floor {
                floor - t
            } else {
                0
            }),
{
    lemma2_to64();
    if t >= floor {
        assert(t * pow2(0) == t) by (nonlinear_arith)
            requires
                pow2(0) == 1,
        ;
    } else {
        let s = doublings_to_reach(2 * t, floor);
        lemma_doublings_reach(2 * t, floor);
        lemma_pow2_unfold(s + 1);
        assert(t * (2 * pow2(s)) == (2 * t) * pow2(s)) by (nonlinear_arith);
    }
}

/// The thousandth of a positive integer of at most two to the power of 64
/// has a significand of 53 bits, or two to the power of 53 where rounding
/// carried, and lies within half a step of the exact quotient: scaled to
/// whole numbers, one thousand times the significand differs from the
/// integer by at most five hundred steps.
pub proof fn lemma_thousandth_is_nearest(a: nat)
    requires
        0 < a <= 0x1_0000_0000_0000_0000,
    ensures
        0x10_0000_0000_0000 <= thousandth(a).0 <= 0x20_0000_0000_0000,
        -62 <= thousandth(a).1 <= 2,
        thousandth(a).1 <= 0 ==> {
            &&& 2 * (thousandth(a).0 * 1000 - a * pow2((-thousandth(a).1) as nat)) <= 1000
            &&& 2 * (a * pow2((-thousandth(a).1) as nat) - thousandth(a).0 * 1000) <= 1000
        },
        thousandth(a).1 == 1 ==> {
            &&& 2 * (thousandth(a).0 * 2000 - a) <= 2000
            &&& 2 * (a - thousandth(a).0 * 2000) <= 2000
        },
        thousandth(a).1 == 2 ==> {
            &&& 2 * (thousandth(a).0 * 4000 - a) <= 4000
            &&& 2 * (a - thousandth(a).0 * 4000) <= 4000
        },
{
    lemma2_to64();
    lemma2_to64_rest();
    if a < 1000 * 0x20_0000_0000_0000 {
        let floor: nat = 1000 * 0x10_0000_0000_0000;
        let s = doublings_to_reach(a, floor);
        lemma_doublings_reach(a, floor);
        let t = a * pow2(s);
        lemma_div_half_even_is_nearest(t, 1000);
        if s >= 63 {
            if s > 63 {
                lemma_pow2_strictly_increases(63, s);
            }
            assert(a * pow2(s) >= pow2(s)) by (nonlinear_arith)
                requires
                    a >= 1,
            ;
        }
    } else if a < 2000 * 0x20_0000_0000_0000 {
        lemma_div_half_even_is_nearest(a, 2000);
    } else {
        lemma_div_half_even_is_nearest(a, 4000);
    }
}

/// A power of two, for an exponent of at most 63.
fn power_of_two(e: u32) -> (r: u64)
    requires
        e <= 63,
    ensures
        r == pow2(e as nat),
        r >= 1,
{
    let mut r: u64 = 1;
    let mut i: u32 = 0;
    proof {
        lemma2_to64();
    }
    while i < e
        invariant
            i <= e,
            e <= 63,
            r == pow2(i as nat),
            r >= 1,
        decreases e - i,
    {
        proof {
            lemma_pow2_unfold((i + 1) as nat);
            lemma2_to64();
            lemma2_to64_rest();
            if i + 1 < 64 {
                lemma_pow2_strictly_increases((i + 1) as nat, 64);
            }
        }
        r = r * 2;
        i += 1;
    }
    r
}

/// `n` divided by `d`, rounded to the nearest integer, a tie going to the
/// even one.
fn divide_half_even(n: u128, d: u128) -> (r: u128)
    requires
        d > 0,
        d <= 0x1_0000_0000_0000_0000,
        n <= 0x1_0000_0000_0000_0000,
    ensures
        r == div_half_even(n as nat, d as nat),
        n / d <= r <= n / d + 1,
{
    let q = n / d;
    let r = n % d;
    if 2 * r > d || (2 * r == d && q % 2 == 1) {
        q + 1
    } else {
        q
    }
}

/// The integer that binary64 holds for `n`.
fn round_to_binary53(n: u64) -> (a: u128)
    ensures
        a == nearest_binary53(n as nat),
        a <= 0x1_0000_0000_0000_0000,
        n > 0 ==> a > 0,
{
    let mut p: u64 = 1;
    let mut rest: u64 = n;
    let ghost mut k: nat = 0;
    proof {
        lemma2_to64();
    }
    while rest >= SIGNIFICAND_LIMIT
        invariant
            p == pow2(k),
            k <= 11,
            p >= 1,
            rest == n / p,
            p * rest <= n,
            excess_bits(n as nat) == k + excess_bits(rest as nat),
            k > 0 ==> rest >= 0x10_0000_0000_0000,
        decreases rest,
    {
        proof {
            lemma2_to64();
            assert(p * 0x20_0000_0000_0000 <= p * rest) by (nonlinear_arith)
                requires
                    rest >= 0x20_0000_0000_0000,
                    p >= 1,
            ;
            lemma_pow2_unfold(k + 1);
            lemma_div_denominator(n as int, p as int, 2);
            assert((2 * p) * (rest / 2) <= p * rest) by (nonlinear_arith)
                requires
                    2 * (rest / 2) <= rest,
                    p >= 1,
            ;
        }
        rest = rest / 2;
        p = p * 2;
        proof {
            k = k + 1;
        }
    }
    proof {
        lemma2_to64();
        if k < 11 {
            lemma_pow2_strictly_increases(k, 11);
        }
    }
    let m = divide_half_even(n as u128, p as u128);
    proof {
        assert(m * p <= 0x20_0000_0000_0000 * 0x800) by (nonlinear_arith)
            requires
                m <= 0x20_0000_0000_0000,
                p <= 0x800,
        ;
        if k > 0 {
            assert(m * p >= 1) by (nonlinear_arith)
                requires
                    m >= 1,
                    p >= 1,
            ;
        }
    }
    m * (p as u128)
}

impl Float64 {
    /// The exponent field: eleven bits.
    pub open spec fn exponent_field(self) -> nat {
        (self.bits as nat / 0x10_0000_0000_0000) % 2048
    }

    /// The fraction field: the low 52 bits.
    pub open spec fn fraction_field(self) -> nat {
        self.bits as nat % 0x10_0000_0000_0000
    }

    /// Whether the sign bit is set.
    pub open spec fn sign_set(self) -> bool {
        self.bits >= 0x8000_0000_0000_0000
    }

    /// Whether the pattern encodes no number.
    pub open spec fn is_nan(self) -> bool {
        self.exponent_field() == 2047 && self.fraction_field() != 0
    }

    /// Whether the pattern encodes an infinity.
    pub open spec fn is_infinite(self) -> bool {
        self.exponent_field() == 2047 && self.fraction_field() == 0
    }

    /// The significand of a normal number, read as an integer: the fraction
    /// with the hidden bit before it.
    pub open spec fn significand(self) -> nat {
        0x10_0000_0000_0000 + self.fraction_field()
    }

    /// The power of two that scales the significand of a normal number.
    pub open spec fn scale(self) -> int {
        self.exponent_field() - 1075
    }

    /// One thousand times a positive normal number, rounded to binary64, as
    /// a significand and the power of two that scales it. The product of
    /// one thousand and the significand has 62 or 63 bits, of which 53 are
    /// kept, a tie going to the even significand.
    pub open spec fn thousandfold(self) -> (nat, int) {
        let product = 1000 * self.significand();
        if product < 0x4000_0000_0000_0000 {
            (div_half_even(product, 512), self.scale() + 9)
        } else {
            (div_half_even(product, 1024), self.scale() + 10)
        }
    }

    /// The whole milliseconds that a number of seconds is: the number, or
    /// zero where it is below zero or no number, times one thousand in
    /// binary64, rounded to the nearest integer with a tie going away from
    /// zero, and held to what 64 bits can hold.
    ///
    /// A number with the sign bit set gives zero, and so does what is not a
    /// number. Zero and the subnormal numbers give zero: one thousand times
    /// such a number is far below one half. Infinity gives the largest
    /// value.
    pub open spec fn millis(self) -> u64 {
        if self.sign_set() || self.is_nan() || self.exponent_field() == 0 {
            0
        } else if self.is_infinite() {
            u64::MAX
        } else {
            let (significand, scale) = self.thousandfold();
            let whole = scale_half_up(significand, scale);
            if whole > u64::MAX {
                u64::MAX
            } else {
                whole as u64
            }
        }
    }

    /// The sign bit of the binary32 number that this number narrows to.
    pub open spec fn narrowed_sign(self) -> nat {
        if self.sign_set() {
            0x8000_0000
        } else {
            0
        }
    }

    /// The bits, without the sign, of the binary32 number nearest to this
    /// number, which is a number; a tie goes to the even significand.
    ///
    /// Zero and the subnormal numbers narrow to zero: they lie far below
    /// half of the smallest binary32 number. Of a normal number whose
    /// power of two binary32 has, the significand is rounded from 53 bits
    /// to 24; added to the exponent field, a carry of the rounding moves to
    /// the next power by itself, and what reaches the field of infinity is
    /// infinite. Of a smaller number the significand is rounded to a whole
    /// number of the smallest binary32 steps.
    pub open spec fn narrowed_magnitude(self) -> nat {
        let power = self.exponent_field() - 1023;
        if self.exponent_field() == 2047 {
            0x7F80_0000
        } else if self.exponent_field() == 0 {
            0
        } else if power >= -126 {
            let magnitude = (power + 126) * 0x80_0000 + div_half_even(
                self.significand(),
                0x2000_0000,
            );
            if magnitude >= 0x7F80_0000 {
                0x7F80_0000
            } else {
                magnitude as nat
            }
        } else if power >= -150 {
            div_half_even(self.significand(), pow2((-97 - power) as nat))
        } else {
            0
        }
    }

    /// The binary32 number nearest to this number. What is not a number
    /// narrows to the quiet pattern of binary32.
    pub open spec fn narrowed(self) -> Float32 {
        if self.is_nan() {
            Float32 { bits: 0x7FC0_0000 }
        } else {
            Float32 { bits: (self.narrowed_sign() + self.narrowed_magnitude()) as u32 }
        }
    }

    /// One thousand times a normal number, rounded to binary64, has a
    /// significand of 53 bits, or two to the power of 53 where rounding
    /// carried, and lies within half a step of the exact product.
    pub proof fn lemma_thousandfold_is_nearest(self)
        requires
            0 < self.exponent_field() < 2047,
        ensures
            0x10_0000_0000_0000 <= self.thousandfold().0 <= 0x20_0000_0000_0000,
            self.thousandfold().1 == self.scale() + 9 ==> {
                &&& 2 * (self.thousandfold().0 * 512 - 1000 * self.significand()) <= 512
                &&& 2 * (1000 * self.significand() - self.thousandfold().0 * 512) <= 512
            },
            self.thousandfold().1 == self.scale() + 10 ==> {
                &&& 2 * (self.thousandfold().0 * 1024 - 1000 * self.significand()) <= 1024
                &&& 2 * (1000 * self.significand() - self.thousandfold().0 * 1024) <= 1024
            },
    {
        let product = 1000 * self.significand();
        lemma_div_half_even_is_nearest(product, 512);
        lemma_div_half_even_is_nearest(product, 1024);
    }

    /// A number of seconds with the sign bit set, and what is not a number,
    /// are no milliseconds at all; infinity is as many as can be held.
    pub proof fn lemma_millis_of_special_values(self)
        ensures
            self.sign_set() ==> self.millis() == 0,
            self.is_nan() ==> self.millis() == 0,
            self.bits == 0 ==> self.millis() == 0,
            self.bits == 0x7FF0_0000_0000_0000 ==> self.millis() == u64::MAX,
    {
    }

    /// The value with the given bit pattern.
    pub fn from_bits(bits: u64) -> (r: Float64)
        ensures
            r.bits == bits,
    {
        Float64 { bits }
    }

    /// The binary32 number nearest to this number.
    pub fn narrow(self) -> (r: Float32)
        ensures
            r == self.narrowed(),
    {
        let sign: u32 = if self.bits >= DOUBLE_SIGN_BIT {
            SINGLE_SIGN_BIT
        } else {
            0
        };
        let exponent: u64 = (self.bits / HIDDEN_BIT) % 2048;
        let fraction: u64 = self.bits % HIDDEN_BIT;
        if exponent == EXPONENT_FIELD_MAX {
            return if fraction == 0 {
                Float32 { bits: sign + SINGLE_INFINITY_BITS }
            } else {
                Float32 { bits: 0x7FC0_0000 }
            };
        }
        if exponent == 0 {
            return Float32 { bits: sign };
        }
        let significand: u64 = HIDDEN_BIT + fraction;
        let power: i64 = exponent as i64 - 1023;
        let magnitude: u64 = if power >= -126 {
            let rounded = divide_half_even(significand as u128, 0x2000_0000) as u64;
            let sum: u64 = ((power + 126) as u64) * 0x80_0000 + rounded;
            if sum >= SINGLE_INFINITY_BITS as u64 {
                SINGLE_INFINITY_BITS as u64
            } else {
                sum
            }
        } else if power >= -150 {
            let divisor = power_of_two((-97 - power) as u32);
            divide_half_even(significand as u128, divisor as u128) as u64
        } else {
            0
        };
        proof {
            if -150 <= power < -126 {
                lemma2_to64();
                lemma_pow2_strictly_increases(29, (-97 - power) as nat);
                let d = pow2((-97 - power) as nat);
                lemma_fundamental_div_mod(significand as int, d as int);
                assert((significand as int / d as int) < 0x100_0000) by (nonlinear_arith)
                    requires
                        d * (significand as int / d as int) <= significand,
                        significand < 0x20_0000_0000_0000,
                        d >= 0x2000_0000,
                ;
            }
        }
        Float32 { bits: sign + magnitude as u32 }
    }

    /// The bit pattern.
    pub fn to_bits(self) -> (bits: u64)
        ensures
            bits == self.bits,
    {
        self.bits
    }

    /// The seconds that `ms` milliseconds are: `ms` as binary64, divided by
    /// one thousand, with no rounding but that of binary64.
    pub fn from_millis(ms: u64) -> (r: Float64)
        ensures
            r == seconds_of_millis(ms),
    {
        if ms == 0 {
            return Float64 { bits: 0 };
        }
        let a = round_to_binary53(ms);
        let significand: u128;
        let scale: i64;
        if a < 1000 * (SIGNIFICAND_LIMIT as u128) {
            let mut t: u64 = a as u64;
            let mut s: u32 = 0;
            proof {
                lemma2_to64();
                assert(a * pow2(0) == a) by (nonlinear_arith)
                    requires
                        pow2(0) == 1,
                ;
            }
            while t < 1000 * HIDDEN_BIT
                invariant
                    0 < t < 1000 * 0x20_0000_0000_0000,
                    t == a * pow2(s as nat),
                    pow2(s as nat) <= t,
                    s <= 62,
                    doublings_to_reach(a as nat, 1000 * 0x10_0000_0000_0000) == s
                        + doublings_to_reach(t as nat, 1000 * 0x10_0000_0000_0000),
                decreases
                        (if t < 1000 * 0x10_0000_0000_0000 {
                            1000 * 0x10_0000_0000_0000 - t
                        } else {
                            0
                        }),
            {
                proof {
                    lemma_pow2_unfold((s + 1) as nat);
                    assert(a * (2 * pow2(s as nat)) == 2 * (a * pow2(s as nat)))
                        by (nonlinear_arith);
                    lemma2_to64_rest();
                    if s + 1 > 62 {
                        lemma_pow2_strictly_increases(62, (s + 1) as nat);
                    }
                }
                t = t * 2;
                s += 1;
            }
            significand = divide_half_even(t as u128, 1000);
            scale = -(s as i64);
        } else if a < 2000 * (SIGNIFICAND_LIMIT as u128) {
            significand = divide_half_even(a, 2000);
            scale = 1;
        } else {
            significand = divide_half_even(a, 4000);
            scale = 2;
        }
        let bits: u64 = if significand == SIGNIFICAND_LIMIT as u128 {
            ((scale + 1076) as u64) * HIDDEN_BIT
        } else {
            ((scale + 1075) as u64) * HIDDEN_BIT + (significand as u64 - HIDDEN_BIT)
        };
        Float64 { bits }
    }

    /// The whole milliseconds that this number of seconds is; zero for a
    /// number below zero.
    pub fn to_millis(self) -> (r: u64)
        ensures
            r == self.millis(),
            self.sign_set() ==> r == 0,
    {
        let bits = self.bits;
        if bits >= DOUBLE_SIGN_BIT {
            return 0;
        }
        let exponent: u64 = bits / HIDDEN_BIT;
        let fraction: u64 = bits % HIDDEN_BIT;
        if exponent == EXPONENT_FIELD_MAX {
            return if fraction == 0 {
                u64::MAX
            } else {
                0
            };
        }
        if exponent == 0 {
            return 0;
        }
        let product: u64 = 1000 * (HIDDEN_BIT + fraction);
        let significand: u64;
        let scale: i64;
        if product < 0x4000_0000_0000_0000 {
            significand = divide_half_even(product as u128, 512) as u64;
            scale = exponent as i64 - EXPONENT_OFFSET + 9;
        } else {
            significand = divide_half_even(product as u128, 1024) as u64;
            scale = exponent as i64 - EXPONENT_OFFSET + 10;
        }
        proof {
            lemma2_to64();
            lemma2_to64_rest();
        }
        if scale >= 12 {
            proof {
                if scale > 12 {
                    lemma_pow2_strictly_increases(12, scale as nat);
                }
                assert(significand * pow2(scale as nat) >= 0x10_0000_0000_0000 * 0x1000)
                    by (nonlinear_arith)
                    requires
                        significand >= 0x10_0000_0000_0000,
                        pow2(scale as nat) >= 0x1000,
                ;
            }
            u64::MAX
        } else if scale >= 0 {
            let factor = power_of_two(scale as u32);
            proof {
                if scale < 11 {
                    lemma_pow2_strictly_increases(scale as nat, 11);
                }
                assert(significand * factor <= 0x20_0000_0000_0000 * 0x800) by (nonlinear_arith)
                    requires
                        significand <= 0x20_0000_0000_0000,
                        factor <= 0x800,
                ;
            }
            let whole: u128 = (significand as u128) * (factor as u128);
            if whole > u64::MAX as u128 {
                u64::MAX
            } else {
                whole as u64
            }
        } else if scale <= -55 {
            proof {
                let j = (-scale) as nat;
                if j > 55 {
                    lemma_pow2_strictly_increases(55, j);
                }
                lemma_pow2_pos(j);
                lemma_basic_div((2 * significand + pow2(j)) as int, (2 * pow2(j)) as int);
            }
            0
        } else {
            let half = power_of_two((-scale) as u32);
            proof {
                if -scale < 54 {
                    lemma_pow2_strictly_increases((-scale) as nat, 54);
                }
            }
            (2 * significand + half) / (2 * half)
        }
    }
}

} // verus!
