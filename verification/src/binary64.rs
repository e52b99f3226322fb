//! IEEE 754 binary64 numbers, held by their bit pattern.
//!
//! The quantities of the operator (extents of time, byte counts, fractions) are
//! binary64 numbers in their base unit. This module gives such a number its exact
//! mathematical meaning, so that a comparison or a conversion of a quantity has a
//! contract over integers.

use vstd::arithmetic::div_mod::{lemma_div_by_multiple, lemma_div_denominator};
use vstd::arithmetic::power2::*;
use vstd::prelude::*;
use vstd::std_specs::cmp::PartialEqSpecImpl;

verus! {

/// `2^52`: the number of bit patterns that share one exponent.
pub const BINADE: u64 = 0x10_0000_0000_0000;

/// The bit pattern of positive infinity. A larger one without the sign bit is a
/// NaN.
pub const INFINITE: u64 = 0x7FF0_0000_0000_0000;

/// The sign bit.
pub const SIGN: u64 = 0x8000_0000_0000_0000;

/// The base-two logarithm of the number of smallest positive numbers in one.
pub const SCALE: u32 = 1074;

/// The number with the unsigned bit pattern `bits`, counted in `2^-1074`, which
/// is the smallest positive binary64 number. Infinity counts as `2^1024`.
pub open spec fn magnitude(bits: nat) -> nat {
    let exponent = bits / (BINADE as nat);
    let fraction = bits % (BINADE as nat);
    if exponent == 0 {
        fraction
    } else {
        (BINADE + fraction) as nat * pow2((exponent - 1) as nat)
    }
}

/// Whether `num / den` (counted in `2^-1074`) rounds to `bits` or a larger bit
/// pattern: it is above the middle between `bits` and the pattern before it, or
/// it is the middle and `bits` is the even one of the two.
pub open spec fn rounds_to_or_above(num: nat, den: nat, bits: nat) -> bool {
    bits > 0 ==> {
        let middle = (magnitude((bits - 1) as nat) + magnitude(bits)) * den;
        middle < 2 * num || (bits % 2 == 0 && middle == 2 * num)
    }
}

/// Whether `bits` is the unsigned bit pattern nearest to `num / den`, where a tie
/// goes to the even pattern. Every number from halfway between the largest finite
/// number and `2^1024` on goes to infinity.
pub open spec fn rounds_to(num: nat, den: nat, bits: nat) -> bool {
    &&& bits <= INFINITE
    &&& rounds_to_or_above(num, den, bits)
    &&& bits < INFINITE ==> !rounds_to_or_above(num, den, bits + 1)
}

proof fn lemma_magnitude_step(bits: nat)
    ensures
        magnitude(bits + 1) > magnitude(bits),
{
    let exponent = bits / (BINADE as nat);
    let fraction = bits % (BINADE as nat);
    if exponent > 0 {
        lemma_pow2_pos((exponent - 1) as nat);
        lemma_pow2_unfold(exponent);
    }
    lemma_pow2_pos(exponent);
    lemma2_to64();
    if fraction + 1 < BINADE {
        assert((bits + 1) / (BINADE as nat) == exponent);
        assert((bits + 1) % (BINADE as nat) == fraction + 1);
        if exponent > 0 {
            let p = pow2((exponent - 1) as nat);
            assert((BINADE + fraction + 1) * p > (BINADE + fraction) * p) by (nonlinear_arith)
                requires
                    p > 0,
            ;
        }
    } else {
        assert((bits + 1) / (BINADE as nat) == exponent + 1);
        assert((bits + 1) % (BINADE as nat) == 0);
        if exponent > 0 {
            let p = pow2((exponent - 1) as nat);
            assert(BINADE * pow2(exponent) > (BINADE + fraction) * p) by (nonlinear_arith)
                requires
                    p > 0,
                    pow2(exponent) == 2 * p,
                    fraction < BINADE,
            ;
        }
    }
}

/// A larger bit pattern is a larger number.
pub proof fn lemma_magnitude_increases(a: nat, b: nat)
    requires
        a < b,
    ensures
        magnitude(a) < magnitude(b),
    decreases b - a,
{
    lemma_magnitude_step((b - 1) as nat);
    if a + 1 < b {
        lemma_magnitude_increases(a, (b - 1) as nat);
    }
}

/// At most one bit pattern is nearest to a number.
pub proof fn lemma_rounding_is_unique(num: nat, den: nat, a: nat, b: nat)
    requires
        den > 0,
        rounds_to(num, den, a),
        rounds_to(num, den, b),
    ensures
        a == b,
{
    if a < b {
        lemma_rounding_excludes_larger(num, den, a, b);
    } else if b < a {
        lemma_rounding_excludes_larger(num, den, b, a);
    }
}

proof fn lemma_rounding_excludes_larger(num: nat, den: nat, a: nat, b: nat)
    requires
        den > 0,
        rounds_to(num, den, a),
        a < b,
    ensures
        !rounds_to(num, den, b),
{
    let above = magnitude(a) + magnitude(a + 1);
    let below = magnitude((b - 1) as nat) + magnitude(b);
    if a + 1 < b {
        lemma_magnitude_increases(a, (b - 1) as nat);
        lemma_magnitude_increases(a + 1, b);
        assert(above * den < below * den) by (nonlinear_arith)
            requires
                above < below,
                den > 0,
        ;
    }
}

/// A larger number rounds to the same bit pattern or to a larger one.
pub proof fn lemma_rounding_is_monotone(num1: nat, num2: nat, den: nat, a: nat, b: nat)
    requires
        den > 0,
        num1 <= num2,
        rounds_to(num1, den, a),
        rounds_to(num2, den, b),
    ensures
        a <= b,
{
    if b < a {
        if b + 1 < a {
            lemma_magnitude_increases(b, (a - 1) as nat);
            lemma_magnitude_increases(b + 1, a);
            let lower = magnitude(b) + magnitude(b + 1);
            let upper = magnitude((a - 1) as nat) + magnitude(a);
            assert(lower * den < upper * den) by (nonlinear_arith)
                requires
                    lower < upper,
                    den > 0,
            ;
        }
    }
}

/// A number that has a bit pattern rounds to it.
pub proof fn lemma_exact_number_rounds_to_itself(num: nat, den: nat, bits: nat)
    requires
        den > 0,
        bits <= INFINITE,
        magnitude(bits) * den == num,
    ensures
        rounds_to(num, den, bits),
{
    let at = magnitude(bits);
    if bits > 0 {
        lemma_magnitude_step((bits - 1) as nat);
        let below = magnitude((bits - 1) as nat);
        assert((below + at) * den < 2 * (at * den)) by (nonlinear_arith)
            requires
                below < at,
                den > 0,
        ;
    }
    lemma_magnitude_step(bits);
    let above = magnitude(bits + 1);
    assert((at + above) * den > 2 * (at * den)) by (nonlinear_arith)
        requires
            above > at,
            den > 0,
    ;
}

proof fn lemma_integer_has_bits(n: nat, exponent: nat) -> (bits: nat)
    requires
        0 < n <= 2 * BINADE,
        exponent <= SCALE,
        n * pow2(exponent) >= BINADE,
    ensures
        bits < INFINITE,
        magnitude(bits) == n * pow2(exponent),
    decreases exponent,
{
    if n >= BINADE {
        lemma_magnitude_of_parts(n, exponent);
        exponent * BINADE as nat + n
    } else {
        lemma2_to64();
        assert(exponent > 0) by (nonlinear_arith)
            requires
                n < BINADE,
                n * pow2(exponent) >= BINADE,
                pow2(0) == 1,
        ;
        lemma_pow2_unfold(exponent);
        let p = pow2((exponent - 1) as nat);
        assert((2 * n) * p == n * (2 * p)) by (nonlinear_arith);
        lemma_integer_has_bits(2 * n, (exponent - 1) as nat)
    }
}

proof fn lemma_multiple_has_bits(n: nat, exponent: nat) -> (bits: nat)
    requires
        n <= 2 * BINADE,
        exponent <= SCALE,
        pow2(exponent) >= BINADE,
    ensures
        bits < INFINITE,
        magnitude(bits) == n * pow2(exponent),
{
    if n == 0 {
        0
    } else {
        assert(n * pow2(exponent) >= BINADE) by (nonlinear_arith)
            requires
                n >= 1,
                pow2(exponent) >= BINADE,
        ;
        lemma_integer_has_bits(n, exponent)
    }
}

/// A number between two multiples of a power of two rounds to a number between
/// them, where the multiples are exact.
pub proof fn lemma_rounding_stays_between(
    num: nat,
    den: nat,
    low: nat,
    high: nat,
    exponent: nat,
    bits: nat,
)
    requires
        den > 0,
        low <= 2 * BINADE,
        high <= 2 * BINADE,
        exponent <= SCALE,
        pow2(exponent) >= BINADE,
        low * pow2(exponent) * den <= num <= high * pow2(exponent) * den,
        rounds_to(num, den, bits),
    ensures
        bits < INFINITE,
        low * pow2(exponent) <= magnitude(bits) <= high * pow2(exponent),
{
    let below = lemma_multiple_has_bits(low, exponent);
    let above = lemma_multiple_has_bits(high, exponent);
    lemma_exact_number_rounds_to_itself(low * pow2(exponent) * den, den, below);
    lemma_exact_number_rounds_to_itself(high * pow2(exponent) * den, den, above);
    lemma_rounding_is_monotone(low * pow2(exponent) * den, num, den, below, bits);
    lemma_rounding_is_monotone(num, high * pow2(exponent) * den, den, bits, above);
    if below < bits {
        lemma_magnitude_increases(below, bits);
    }
    if bits < above {
        lemma_magnitude_increases(bits, above);
    }
}

/// Some bit pattern is nearest to a number.
pub proof fn lemma_rounding_exists(num: nat, den: nat)
    ensures
        exists|bits: nat| rounds_to(num, den, bits),
{
    lemma_rounding_exists_up_to(num, den, INFINITE as nat);
}

proof fn lemma_rounding_exists_up_to(num: nat, den: nat, bits: nat)
    requires
        bits <= INFINITE,
        bits < INFINITE ==> !rounds_to_or_above(num, den, bits + 1),
    ensures
        exists|b: nat| rounds_to(num, den, b),
    decreases bits,
{
    if rounds_to_or_above(num, den, bits) {
        assert(rounds_to(num, den, bits));
    } else {
        lemma_rounding_exists_up_to(num, den, (bits - 1) as nat);
    }
}

proof fn lemma_same_ratio(num1: nat, den1: nat, num2: nat, den2: nat, bits: nat)
    requires
        den1 > 0,
        den2 > 0,
        num1 * den2 == num2 * den1,
        rounds_to(num1, den1, bits),
    ensures
        rounds_to(num2, den2, bits),
{
    if bits > 0 {
        let below = magnitude((bits - 1) as nat) + magnitude(bits);
        lemma_ratio_order(below, num1, den1, num2, den2);
    }
    if bits < INFINITE {
        let above = magnitude(bits) + magnitude(bits + 1);
        lemma_ratio_order(above, num1, den1, num2, den2);
    }
}

proof fn lemma_ratio_order(bound: nat, num1: nat, den1: nat, num2: nat, den2: nat)
    by (nonlinear_arith)
    requires
        den1 > 0,
        den2 > 0,
        num1 * den2 == num2 * den1,
    ensures
        bound * den1 < 2 * num1 <==> bound * den2 < 2 * num2,
        bound * den1 == 2 * num1 <==> bound * den2 == 2 * num2,
{
    assert((bound * den1) * den2 == (bound * den2) * den1);
    assert((2 * num1) * den2 == (2 * num2) * den1);
}

/// `significand * 2^exponent` as a bit pattern, for a significand that needs no
/// leading zero bit unless the exponent is the smallest.
proof fn lemma_magnitude_of_parts(significand: nat, exponent: nat)
    requires
        significand <= 2 * BINADE,
        significand >= BINADE || exponent == 0,
    ensures
        magnitude(exponent * BINADE as nat + significand) == significand * pow2(exponent),
{
    let bits = exponent * BINADE as nat + significand;
    lemma2_to64();
    if significand == 2 * BINADE {
        assert(bits / (BINADE as nat) == exponent + 2);
        assert(bits % (BINADE as nat) == 0);
        lemma_pow2_unfold(exponent + 1);
        assert(BINADE * (2 * pow2(exponent)) == (2 * BINADE) * pow2(exponent)) by (nonlinear_arith);
    } else if significand >= BINADE {
        assert(bits / (BINADE as nat) == exponent + 1);
        assert(bits % (BINADE as nat) == significand - BINADE);
    } else {
        assert(bits / (BINADE as nat) == 0);
        assert(bits % (BINADE as nat) == significand);
    }
}

/// Rounding a quotient with the remainder in hand gives the nearest bit pattern.
proof fn lemma_rounded_quotient(n: nat, d: nat, exponent: nat, quotient: nat, remainder: nat)
    requires
        d > 0,
        n == d * quotient + remainder,
        remainder < d,
        quotient < 2 * BINADE,
        quotient >= BINADE || exponent == 0,
    ensures
        ({
            let bits = exponent * BINADE as nat + quotient;
            let up = 2 * remainder > d || (2 * remainder == d && quotient % 2 == 1);
            let target = n * pow2(exponent);
            &&& bits >= INFINITE ==> rounds_to(target, d, INFINITE as nat)
            &&& bits < INFINITE && !up ==> rounds_to(target, d, bits)
            &&& bits < INFINITE && up ==> rounds_to(target, d, bits + 1)
        }),
{
    let bits = exponent * BINADE as nat + quotient;
    let up = 2 * remainder > d || (2 * remainder == d && quotient % 2 == 1);
    let p = pow2(exponent);
    let target = n * p;
    lemma_pow2_pos(exponent);
    lemma_magnitude_of_parts(quotient, exponent);
    lemma_magnitude_of_parts(quotient + 1, exponent);
    assert(bits % 2 == quotient % 2);
    let middle = (quotient * p + (quotient + 1) * p) * d;
    assert(middle == 2 * target + (d - 2 * remainder) * p) by (nonlinear_arith)
        requires
            target == n * p,
            n == d * quotient + remainder,
            middle == (quotient * p + (quotient + 1) * p) * d,
    ;
    assert((d - 2 * remainder) * p > 0 <==> d > 2 * remainder) by (nonlinear_arith)
        requires
            p > 0,
    ;
    assert((d - 2 * remainder) * p == 0 <==> d == 2 * remainder) by (nonlinear_arith)
        requires
            p > 0,
    ;
    assert((2 * (quotient * p)) * d <= 2 * target) by (nonlinear_arith)
        requires
            target == n * p,
            n == d * quotient + remainder,
    ;
    assert((2 * ((quotient + 1) * p)) * d > 2 * target) by (nonlinear_arith)
        requires
            target == n * p,
            n == d * quotient + remainder,
            remainder < d,
            p > 0,
    ;
    if bits >= INFINITE {
        let last = (INFINITE - 1) as nat;
        lemma_magnitude_step(last);
        if bits > INFINITE {
            lemma_magnitude_increases(INFINITE as nat, bits);
        }
        let below = magnitude(last) + magnitude(INFINITE as nat);
        assert(below * d < (2 * (quotient * p)) * d) by (nonlinear_arith)
            requires
                below < 2 * (quotient * p),
                d > 0,
        ;
    } else if !up {
        if bits > 0 {
            lemma_magnitude_step((bits - 1) as nat);
            let below = magnitude((bits - 1) as nat) + magnitude(bits);
            assert(below * d < (2 * (quotient * p)) * d) by (nonlinear_arith)
                requires
                    below < 2 * (quotient * p),
                    d > 0,
            ;
        }
    } else {
        lemma_magnitude_step(bits + 1);
        let above = magnitude(bits + 1) + magnitude(bits + 2);
        assert(above * d > (2 * ((quotient + 1) * p)) * d) by (nonlinear_arith)
            requires
                above > 2 * ((quotient + 1) * p),
                d > 0,
        ;
    }
}

/// The bit pattern nearest to `numerator / denominator * 2^exponent`.
fn nearest(numerator: u64, denominator: u64, exponent: u32) -> (bits: u64)
    requires
        0 < denominator <= 1000,
        exponent <= 4000,
    ensures
        rounds_to(
            numerator as nat * pow2(exponent as nat),
            denominator as nat,
            bits as nat,
        ),
{
    let ghost target = numerator as nat * pow2(exponent as nat);
    let mut n: u64 = numerator;
    let mut d: u64 = denominator;
    let mut e: u32 = exponent;
    while n < BINADE * d && e > 0
        invariant
            0 < d <= 1000,
            e <= 4000,
            n as nat * pow2(e as nat) == target,
        decreases e,
    {
        proof {
            lemma_pow2_unfold(e as nat);
            let p = pow2((e - 1) as nat);
            assert(n * (2 * p) == (2 * n) * p) by (nonlinear_arith);
        }
        n = n * 2;
        e = e - 1;
    }
    assert(target * d == n as nat * pow2(e as nat) * denominator);
    while n / d >= 2 * BINADE
        invariant
            0 < denominator,
            0 < d <= 4096,
            e <= 4000 + d,
            n >= BINADE * d || e == 0,
            target * d == n as nat * pow2(e as nat) * denominator,
        decreases 4096 - d,
    {
        proof {
            assert(n >= 2 * BINADE * d) by (nonlinear_arith)
                requires
                    n / d >= 2 * BINADE,
                    d > 0,
            ;
            lemma_pow2_unfold((e + 1) as nat);
            let p = pow2(e as nat);
            assert(target * (2 * d) == n * (2 * p) * denominator) by (nonlinear_arith)
                requires
                    target * d == n * p * denominator,
            ;
        }
        d = d * 2;
        e = e + 1;
    }
    let quotient = n / d;
    let remainder = n % d;
    let up = 2 * remainder > d || (2 * remainder == d && quotient % 2 == 1);
    proof {
        assert(n == d * quotient + remainder) by (nonlinear_arith)
            requires
                d > 0,
                quotient == n / d,
                remainder == n % d,
        ;
        assert(quotient >= BINADE || e == 0) by (nonlinear_arith)
            requires
                d > 0,
                quotient == n / d,
                n >= BINADE * d || e == 0,
        ;
    }
    proof {
        lemma_rounded_quotient(n as nat, d as nat, e as nat, quotient as nat, remainder as nat);
    }
    let ghost scaled = n as nat * pow2(e as nat);
    let bits: u64 = if e >= 2047 {
        INFINITE
    } else {
        let exact = e as u64 * BINADE + quotient;
        if exact >= INFINITE {
            INFINITE
        } else if up {
            exact + 1
        } else {
            exact
        }
    };
    proof {
        lemma_same_ratio(scaled, d as nat, target, denominator as nat, bits as nat);
    }
    bits
}

proof fn lemma_one_is_large()
    ensures
        pow2(SCALE as nat) >= BINADE,
{
    lemma2_to64();
    lemma2_to64_rest();
    lemma_pow2_strictly_increases(52, SCALE as nat);
}

fn power_of_two(exponent: u32) -> (power: u64)
    requires
        exponent < 64,
    ensures
        power == pow2(exponent as nat),
{
    let mut power: u64 = 1;
    let mut i: u32 = 0;
    proof {
        lemma2_to64();
    }
    while i < exponent
        invariant
            i <= exponent < 64,
            power == pow2(i as nat),
        decreases exponent - i,
    {
        proof {
            lemma2_to64();
            lemma2_to64_rest();
            lemma_pow2_unfold((i + 1) as nat);
            if i < 63 {
                lemma_pow2_strictly_increases(i as nat, 63);
            }
        }
        power = power * 2;
        i = i + 1;
    }
    power
}

/// A binary64 number. Every bit pattern is one: two infinities, the NaNs, and
/// the finite numbers, with a zero of either sign.
#[derive(Debug, Clone, Copy)]
pub struct Binary64 {
    /// The IEEE 754 bit pattern.
    pub bits: u64,
}

impl Binary64 {
    /// The bit pattern without the sign.
    pub open spec fn unsigned(self) -> nat {
        (self.bits % SIGN) as nat
    }

    pub open spec fn nan(self) -> bool {
        self.unsigned() > INFINITE
    }

    pub open spec fn finite(self) -> bool {
        self.unsigned() < INFINITE
    }

    /// The number, counted in `2^-1074`.
    pub open spec fn value(self) -> int {
        if self.bits >= SIGN {
            -(magnitude(self.unsigned()) as int)
        } else {
            magnitude(self.unsigned()) as int
        }
    }

    /// `self < other`. A NaN is not below any number, and no number is below it.
    pub open spec fn below(self, other: Self) -> bool {
        !self.nan() && !other.nan() && self.value() < other.value()
    }

    /// `self <= other`.
    pub open spec fn at_most(self, other: Self) -> bool {
        !self.nan() && !other.nan() && self.value() <= other.value()
    }

    /// `self == other`. The two zeros are equal, and a NaN equals nothing.
    pub open spec fn equal(self, other: Self) -> bool {
        !self.nan() && !other.nan() && self.value() == other.value()
    }

    /// The nearest integer. A tie goes away from zero.
    pub open spec fn nearest_integer(self) -> int {
        let one = pow2(SCALE as nat);
        let count = ((2 * magnitude(self.unsigned()) + one) / (2 * one)) as int;
        if self.bits >= SIGN {
            -count
        } else {
            count
        }
    }

    /// The nearest integer within `min..=max`. A NaN gives 0.
    pub open spec fn rounded(self, min: int, max: int) -> int {
        if self.nan() {
            0
        } else if self.nearest_integer() < min {
            min
        } else if self.nearest_integer() > max {
            max
        } else {
            self.nearest_integer()
        }
    }

    /// The number nearest to `num / den` (counted in `2^-1074`), with a sign.
    pub open spec fn nearest(num: nat, den: nat, negative: bool) -> Self {
        choose|x: Self| (x.bits >= SIGN <==> negative) && rounds_to(num, den, x.unsigned())
    }

    /// The number nearest to the integer `n`.
    pub open spec fn integer(n: int) -> Self {
        Self::nearest((if n < 0 { -n } else { n }) as nat * pow2(SCALE as nat), 1, n < 0)
    }

    /// The number nearest to `self * factor`.
    pub open spec fn product(self, factor: nat) -> Self {
        Self::nearest(factor * magnitude(self.unsigned()), 1, self.bits >= SIGN)
    }

    /// The number nearest to `self / divisor`.
    pub open spec fn quotient(self, divisor: nat) -> Self {
        Self::nearest(magnitude(self.unsigned()), divisor, self.bits >= SIGN)
    }

    /// There is one nearest number.
    pub proof fn lemma_nearest(num: nat, den: nat, negative: bool)
        requires
            den > 0,
        ensures
            rounds_to(num, den, Self::nearest(num, den, negative).unsigned()),
            Self::nearest(num, den, negative).bits >= SIGN <==> negative,
            forall|x: Self|
                (x.bits >= SIGN <==> negative) && #[trigger] rounds_to(num, den, x.unsigned())
                    ==> x == Self::nearest(num, den, negative),
    {
        lemma_rounding_exists(num, den);
        let bits = choose|bits: nat| rounds_to(num, den, bits);
        let x = Binary64 {
            bits: if negative {
                (SIGN + bits) as u64
            } else {
                bits as u64
            },
        };
        assert(x.unsigned() == bits);
        let y = Self::nearest(num, den, negative);
        assert forall|x: Self|
            (x.bits >= SIGN <==> negative) && #[trigger] rounds_to(
                num,
                den,
                x.unsigned(),
            ) implies x == y by {
            lemma_rounding_is_unique(num, den, x.unsigned(), y.unsigned());
        }
    }

    /// Two numbers that compare equal are the same, unless they are the two zeros.
    pub proof fn lemma_equal_numbers(self, other: Self)
        requires
            self.equal(other),
            self.value() != 0,
        ensures
            self == other,
    {
        let (u, v) = (self.unsigned(), other.unsigned());
        if u < v {
            lemma_magnitude_increases(u, v);
        }
        if v < u {
            lemma_magnitude_increases(v, u);
        }
    }

    /// An integer up to `2^53` is exact.
    pub proof fn lemma_small_integer_is_exact(n: int)
        requires
            -(2 * BINADE) <= n <= 2 * BINADE,
        ensures
            Self::integer(n).finite(),
            Self::integer(n).value() == n * pow2(SCALE as nat),
            Self::integer(n).bits >= SIGN <==> n < 0,
    {
        let count = (if n < 0 { -n } else { n }) as nat;
        let one = pow2(SCALE as nat);
        let num = count * one;
        lemma_one_is_large();
        Self::lemma_nearest(num, 1, n < 0);
        let bits = if count == 0 {
            0
        } else {
            assert(count * one >= BINADE) by (nonlinear_arith)
                requires
                    count >= 1,
                    one >= BINADE,
            ;
            lemma_integer_has_bits(count, SCALE as nat)
        };
        assert(magnitude(bits) == num) by {
            if count == 0 {
                assert(num == 0) by (nonlinear_arith)
                    requires
                        num == count * one,
                        count == 0,
                ;
            }
        }
        lemma_exact_number_rounds_to_itself(num, 1, bits);
        lemma_rounding_is_unique(num, 1, bits, Self::integer(n).unsigned());
        if n < 0 {
            assert(n * one == -(count * one)) by (nonlinear_arith)
                requires
                    count == -n,
            ;
        }
    }

    /// An integer of 64 bits is finite.
    pub proof fn lemma_integer_is_finite(n: int)
        requires
            i64::MIN <= n <= u64::MAX,
        ensures
            Self::integer(n).finite(),
            Self::integer(n).bits >= SIGN <==> n < 0,
    {
        let count = (if n < 0 { -n } else { n }) as nat;
        let one = pow2(SCALE as nat);
        Self::lemma_nearest(count * one, 1, n < 0);
        let exponent = (SCALE + 12) as nat;
        let bits = (exponent * BINADE + BINADE) as nat;
        lemma_magnitude_of_parts(BINADE as nat, exponent);
        lemma_pow2_adds(SCALE as nat, 12);
        lemma2_to64();
        let num = BINADE as nat * pow2(exponent);
        lemma_exact_number_rounds_to_itself(num, 1, bits);
        assert(count * one <= num) by (nonlinear_arith)
            requires
                count <= BINADE * 4096,
                num == BINADE * (one * 4096),
        ;
        lemma_rounding_is_monotone(count * one, num, 1, Self::integer(n).unsigned(), bits);
    }

    /// The bit pattern of `2^64`.
    pub proof fn lemma_two_to_the_64()
        ensures
            Self::integer(0x1_0000_0000_0000_0000) == (Binary64 { bits: 0x43F0_0000_0000_0000 }),
    {
        let one = pow2(SCALE as nat);
        let num = 0x1_0000_0000_0000_0000nat * one;
        let x = Binary64 { bits: 0x43F0_0000_0000_0000 };
        let exponent = (SCALE + 12) as nat;
        lemma_magnitude_of_parts(BINADE as nat, exponent);
        lemma_pow2_adds(SCALE as nat, 12);
        lemma2_to64();
        assert(BINADE * (one * 4096) == num) by (nonlinear_arith)
            requires
                num == 0x1_0000_0000_0000_0000 * one,
                BINADE == 0x10_0000_0000_0000,
        ;
        lemma_exact_number_rounds_to_itself(num, 1, x.unsigned());
        Self::lemma_nearest(num, 1, false);
    }

    /// `2^64` is exact.
    pub proof fn lemma_power_of_64_is_exact()
        ensures
            !Self::integer(0x1_0000_0000_0000_0000).nan(),
            Self::integer(0x1_0000_0000_0000_0000).value() == 0x1_0000_0000_0000_0000 * pow2(
                SCALE as nat,
            ),
    {
        let one = pow2(SCALE as nat);
        let num = 0x1_0000_0000_0000_0000nat * one;
        let x = Binary64 { bits: 0x43F0_0000_0000_0000 };
        let exponent = (SCALE + 12) as nat;
        Self::lemma_two_to_the_64();
        lemma_magnitude_of_parts(BINADE as nat, exponent);
        lemma_pow2_adds(SCALE as nat, 12);
        lemma2_to64();
        assert(BINADE * (one * 4096) == num) by (nonlinear_arith)
            requires
                num == 0x1_0000_0000_0000_0000 * one,
                BINADE == 0x10_0000_0000_0000,
        ;
    }

    /// No integer is nearer to a number than its nearest one. Where two are as near, the
    /// nearest one is the one farther from zero.
    pub proof fn lemma_nearest_integer(self)
        ensures
            ({
                let one = pow2(SCALE as nat) as int;
                let n = self.nearest_integer();
                let off = 2 * (self.value() - n * one);
                &&& -one <= off <= one
                &&& off == one ==> self.value() < 0
                &&& off == -one ==> self.value() > 0
            }),
    {
        let one = pow2(SCALE as nat) as int;
        lemma_pow2_pos(SCALE as nat);
        let m = magnitude(self.unsigned()) as int;
        let count = (2 * m + one) / (2 * one);
        let rest = (2 * m + one) % (2 * one);
        assert(2 * m + one == (2 * one) * count + rest && 0 <= rest < 2 * one) by (nonlinear_arith)
            requires
                one > 0,
                count == (2 * m + one) / (2 * one),
                rest == (2 * m + one) % (2 * one),
        ;
        assert((2 * one) * count == 2 * (count * one)) by (nonlinear_arith);
        assert((-count) * one == -(count * one)) by (nonlinear_arith);
        if count == 0 {
            assert(count * one == 0) by (nonlinear_arith)
                requires
                    count == 0,
            ;
        }
        assert(count >= 0) by (nonlinear_arith)
            requires
                one > 0,
                m >= 0,
                count == (2 * m + one) / (2 * one),
        ;
        if m == 0 {
            assert(count == 0) by (nonlinear_arith)
                requires
                    one > 0,
                    m == 0,
                    count == (2 * m + one) / (2 * one),
            ;
        }
    }

    pub fn is_nan(self) -> (r: bool)
        ensures
            r == self.nan(),
    {
        self.bits % SIGN > INFINITE
    }

    pub fn is_finite(self) -> (r: bool)
        ensures
            r == self.finite(),
    {
        self.bits % SIGN < INFINITE
    }

    /// The bit pattern as a signed count of numbers from zero.
    fn rank(self) -> (r: i64)
        ensures
            r == if self.bits >= SIGN {
                -(self.unsigned() as int)
            } else {
                self.unsigned() as int
            },
    {
        let unsigned = (self.bits % SIGN) as i64;
        if self.bits >= SIGN {
            -unsigned
        } else {
            unsigned
        }
    }

    proof fn lemma_rank_orders(a: Self, b: Self)
        ensures
            ({
                let x = if a.bits >= SIGN { -(a.unsigned() as int) } else { a.unsigned() as int };
                let y = if b.bits >= SIGN { -(b.unsigned() as int) } else { b.unsigned() as int };
                &&& x < y <==> a.value() < b.value()
                &&& x == y <==> a.value() == b.value()
            }),
    {
        let (u, v) = (a.unsigned(), b.unsigned());
        if u < v {
            lemma_magnitude_increases(u, v);
        }
        if v < u {
            lemma_magnitude_increases(v, u);
        }
        if u > 0 {
            lemma_magnitude_increases(0, u);
        }
        if v > 0 {
            lemma_magnitude_increases(0, v);
        }
    }

    pub fn is_below(self, other: Self) -> (r: bool)
        ensures
            r == self.below(other),
    {
        proof {
            Self::lemma_rank_orders(self, other);
        }
        !self.is_nan() && !other.is_nan() && self.rank() < other.rank()
    }

    pub fn is_at_most(self, other: Self) -> (r: bool)
        ensures
            r == self.at_most(other),
    {
        proof {
            Self::lemma_rank_orders(self, other);
        }
        !self.is_nan() && !other.is_nan() && self.rank() <= other.rank()
    }

    pub fn equals(self, other: Self) -> (r: bool)
        ensures
            r == self.equal(other),
    {
        proof {
            Self::lemma_rank_orders(self, other);
        }
        !self.is_nan() && !other.is_nan() && self.rank() == other.rank()
    }

    /// `unsigned` with the sign of `self`.
    fn with_unsigned(self, unsigned: u64) -> (r: Self)
        requires
            unsigned < SIGN,
        ensures
            r.unsigned() == unsigned,
            r.bits >= SIGN <==> self.bits >= SIGN,
    {
        if self.bits >= SIGN {
            Binary64 { bits: SIGN + unsigned }
        } else {
            Binary64 { bits: unsigned }
        }
    }

    /// The number nearest to `n`.
    pub fn from_u64(n: u64) -> (r: Self)
        ensures
            r == Self::integer(n as int),
    {
        proof {
            Self::lemma_nearest(n as nat * pow2(SCALE as nat), 1, false);
        }
        let r = Binary64 { bits: nearest(n, 1, SCALE) };
        assert(r.unsigned() == r.bits);
        r
    }

    /// The number nearest to `n`.
    pub fn from_i64(n: i64) -> (r: Self)
        ensures
            r == Self::integer(n as int),
    {
        proof {
            let count = (if n < 0 { -n } else { n as int }) as nat;
            Self::lemma_nearest(count * pow2(SCALE as nat), 1, n < 0);
        }
        let count: u64 = if n < 0 {
            (-(n as i128)) as u64
        } else {
            n as u64
        };
        let bits = nearest(count, 1, SCALE);
        if n < 0 {
            let r = Binary64 { bits: SIGN + bits };
            assert(r.unsigned() == bits);
            r
        } else {
            let r = Binary64 { bits };
            assert(r.unsigned() == bits);
            r
        }
    }

    /// A finite number or infinity as `significand * 2^exponent`.
    fn parts(self) -> (r: (u64, u32))
        requires
            !self.nan(),
        ensures
            magnitude(self.unsigned()) == r.0 as nat * pow2(r.1 as nat),
            r.0 < 2 * BINADE,
            r.0 >= BINADE || r.1 == 0,
            r.1 <= 2046,
    {
        let unsigned = self.bits % SIGN;
        if unsigned < BINADE {
            proof {
                lemma2_to64();
                assert(self.unsigned() / (BINADE as nat) == 0);
                assert(self.unsigned() % (BINADE as nat) == unsigned);
                assert(unsigned * pow2(0) == unsigned) by (nonlinear_arith)
                    requires
                        pow2(0) == 1,
                ;
            }
            (unsigned, 0)
        } else {
            proof {
                let bits = unsigned as nat;
                assert(bits == self.unsigned());
                assert(bits / (BINADE as nat) == unsigned / BINADE);
                assert(bits % (BINADE as nat) == unsigned % BINADE);
                assert(1 <= unsigned / BINADE <= 2047);
            }
            (BINADE + unsigned % BINADE, (unsigned / BINADE - 1) as u32)
        }
    }

    /// `self * 1000`, rounded to nearest.
    pub fn times_thousand(self) -> (r: Self)
        requires
            !self.nan(),
        ensures
            r == self.product(1000),
    {
        proof {
            Self::lemma_nearest(1000 * magnitude(self.unsigned()), 1, self.bits >= SIGN);
        }
        let (significand, exponent) = self.parts();
        proof {
            let p = pow2(exponent as nat);
            assert((1000 * significand) * p == 1000 * (significand * p)) by (nonlinear_arith);
        }
        self.with_unsigned(nearest(significand * 1000, 1, exponent))
    }

    /// `self / 1000`, rounded to nearest.
    pub fn over_thousand(self) -> (r: Self)
        requires
            self.finite(),
        ensures
            r == self.quotient(1000),
    {
        proof {
            Self::lemma_nearest(magnitude(self.unsigned()), 1000, self.bits >= SIGN);
        }
        let (significand, exponent) = self.parts();
        self.with_unsigned(nearest(significand, 1000, exponent))
    }

    /// The absolute value of the nearest integer, or `u64::MAX` where that is
    /// less.
    fn nearest_count(self) -> (r: u64)
        requires
            !self.nan(),
        ensures
            ({
                let one = pow2(SCALE as nat);
                let count = (2 * magnitude(self.unsigned()) + one) / (2 * one);
                r == if count > u64::MAX { u64::MAX as nat } else { count }
            }),
    {
        let (significand, exponent) = self.parts();
        let ghost one = pow2(SCALE as nat);
        let ghost p = pow2(exponent as nat);
        let ghost size = magnitude(self.unsigned());
        proof {
            lemma_pow2_pos(SCALE as nat);
            lemma_pow2_pos(exponent as nat);
            lemma2_to64();
        }
        if exponent >= SCALE {
            let shift = exponent - SCALE;
            proof {
                let q = pow2(shift as nat) as int;
                lemma_pow2_adds(SCALE as nat, shift as nat);
                assert((2 * size + one) / (2 * one) == significand * q) by (nonlinear_arith)
                    requires
                        size == significand * p,
                        p == one * q,
                        one > 0,
                {
                    assert(2 * size + one == (2 * one) * (significand * q) + one);
                }
            }
            if shift > 11 {
                proof {
                    let q = pow2(shift as nat) as int;
                    if shift > 12 {
                        lemma_pow2_strictly_increases(12, shift as nat);
                    }
                    assert(significand * q >= BINADE * 4096) by (nonlinear_arith)
                        requires
                            significand >= BINADE,
                            q >= 4096,
                    ;
                }
                u64::MAX
            } else {
                let power = power_of_two(shift);
                proof {
                    if shift < 11 {
                        lemma_pow2_strictly_increases(shift as nat, 11);
                    }
                    assert(significand * power <= (2 * BINADE - 1) * 2048) by (nonlinear_arith)
                        requires
                            significand < 2 * BINADE,
                            power <= 2048,
                    ;
                }
                significand * power
            }
        } else {
            let shift = SCALE - exponent;
            proof {
                let q = pow2(shift as nat) as int;
                lemma_pow2_pos(shift as nat);
                lemma_pow2_adds(exponent as nat, shift as nat);
                let x = 2 * significand + q;
                assert(2 * size + one == x * p) by (nonlinear_arith)
                    requires
                        size == significand * p,
                        one == p * q,
                        x == 2 * significand + q,
                ;
                assert(2 * one == p * (2 * q)) by (nonlinear_arith)
                    requires
                        one == p * q,
                ;
                lemma_div_denominator(x * p, p as int, 2 * q);
                lemma_div_by_multiple(x as int, p as int);
                assert((2 * size + one) / (2 * one) == x / (2 * q));
            }
            if shift > 53 {
                proof {
                    let q = pow2(shift as nat) as int;
                    lemma2_to64_rest();
                    if shift > 54 {
                        lemma_pow2_strictly_increases(54, shift as nat);
                    }
                    let x = 2 * significand + q;
                    assert(x / (2 * q) == 0) by (nonlinear_arith)
                        requires
                            0 <= x < 2 * q,
                    ;
                }
                0
            } else {
                let power = power_of_two(shift);
                proof {
                    lemma2_to64_rest();
                    if shift < 53 {
                        lemma_pow2_strictly_increases(shift as nat, 53);
                    }
                    assert((2 * significand + power) / (2 * power) as int <= u64::MAX)
                        by (nonlinear_arith)
                        requires
                            0 <= significand < 2 * BINADE,
                            0 < power,
                            power <= 2 * BINADE,
                    ;
                }
                (2 * significand + power) / (2 * power)
            }
        }
    }

    /// The nearest integer that `i64` holds. A NaN gives 0.
    pub fn round_i64(self) -> (r: i64)
        ensures
            r == self.rounded(i64::MIN as int, i64::MAX as int),
    {
        if self.is_nan() {
            return 0;
        }
        let count = self.nearest_count();
        if self.bits >= SIGN {
            if count >= SIGN {
                i64::MIN
            } else {
                -(count as i64)
            }
        } else if count > i64::MAX as u64 {
            i64::MAX
        } else {
            count as i64
        }
    }

    /// The nearest integer that `u64` holds. A NaN gives 0.
    pub fn round_u64(self) -> (r: u64)
        ensures
            r == self.rounded(0, u64::MAX as int),
    {
        proof {
            lemma_pow2_pos(SCALE as nat);
            let one = pow2(SCALE as nat);
            assert((2 * magnitude(self.unsigned()) + one) / (2 * one) >= 0) by (nonlinear_arith)
                requires
                    one > 0,
            ;
        }
        if self.is_nan() || self.bits >= SIGN {
            return 0;
        }
        self.nearest_count()
    }
}

impl PartialEqSpecImpl for Binary64 {
    open spec fn obeys_eq_spec() -> bool {
        true
    }

    open spec fn eq_spec(&self, other: &Self) -> bool {
        self.equal(*other)
    }
}

impl PartialEq for Binary64 {
    fn eq(&self, other: &Self) -> (r: bool) {
        self.equals(*other)
    }
}

/// Of two numbers, one is below the other or they are equal, and never two of these. A
/// NaN stands in no order to anything.
pub proof fn lemma_order(
    a: Binary64,
    b: Binary64,
    below: bool,
    above: bool,
    equal: bool,
    at_most: bool,
)
    requires
        call_ensures(Binary64::is_below, (a, b), below),
        call_ensures(Binary64::is_below, (b, a), above),
        call_ensures(Binary64::equals, (a, b), equal),
        call_ensures(Binary64::is_at_most, (a, b), at_most),
    ensures
        a.nan() || b.nan() ==> !below && !above && !equal && !at_most,
        !a.nan() && !b.nan() ==> {
            &&& below || above || equal
            &&& !(below && above) && !(below && equal) && !(above && equal)
            &&& at_most <==> below || equal
            &&& below <==> a.value() < b.value()
        },
{
}

/// A number is rounded to the nearest integer, which stays within the bounds of its type.
/// A NaN gives zero.
pub proof fn lemma_rounding(x: Binary64, signed: i64, unsigned: u64)
    requires
        call_ensures(Binary64::round_i64, (x,), signed),
        call_ensures(Binary64::round_u64, (x,), unsigned),
    ensures
        x.nan() ==> signed == 0 && unsigned == 0,
        !x.nan() ==> {
            let n = x.nearest_integer();
            &&& i64::MIN <= n <= i64::MAX ==> signed == n
            &&& n > i64::MAX ==> signed == i64::MAX
            &&& n < i64::MIN ==> signed == i64::MIN
            &&& 0 <= n <= u64::MAX ==> unsigned == n
            &&& n > u64::MAX ==> unsigned == u64::MAX
            &&& n < 0 ==> unsigned == 0
        },
{
}

} // verus!
