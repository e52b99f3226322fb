//! Dimensioned quantities: extents of time, byte counts, and fractions.
//!
//! A quantity is a binary64 number in its base unit: seconds, bytes, or the
//! whole. A conversion into a quantity gives the nearest number. A conversion out
//! rounds to the nearest integer, saturates at the bounds of the integer type,
//! and maps a NaN to 0. A half rounds away from zero.

use crate::binary64;
use crate::binary64::{Binary64, BINADE, SCALE, SIGN};
use vstd::arithmetic::power2::*;
use vstd::prelude::*;

verus! {

/// An extent of time.
#[derive(Debug, Clone, Copy, PartialEq)]
pub struct Time {
    /// The extent in seconds.
    pub secs: Binary64,
}

impl Time {
    /// The extent of `secs` seconds.
    pub open spec fn of_secs(secs: int) -> Self {
        Time { secs: Binary64::integer(secs) }
    }

    /// The extent of `millis` milliseconds.
    pub open spec fn of_millis(millis: int) -> Self {
        Time { secs: Binary64::integer(millis).quotient(1000) }
    }

    /// The extent in whole milliseconds.
    pub open spec fn millis(self) -> int {
        if self.secs.nan() {
            0
        } else {
            self.secs.product(1000).rounded(i64::MIN as int, i64::MAX as int)
        }
    }

    /// Whether the extent is more than zero, and less than the `2^64` seconds from
    /// which on a duration cannot hold it.
    pub open spec fn representable(self) -> bool {
        Binary64::integer(0).below(self.secs) && self.secs.below(
            Binary64::integer(0x1_0000_0000_0000_0000),
        )
    }

    /// Whether the extent is positive, and a duration can hold it.
    pub fn is_representable(self) -> (r: bool)
        ensures
            r == self.representable(),
    {
        proof {
            Binary64::lemma_two_to_the_64();
        }
        let limit = Binary64 { bits: 0x43F0_0000_0000_0000 };
        Binary64::from_u64(0).is_below(self.secs) && self.secs.is_below(limit)
    }

    pub fn from_secs(secs: i64) -> (r: Self)
        ensures
            r == Self::of_secs(secs as int),
    {
        Time { secs: Binary64::from_i64(secs) }
    }

    /// The extent of `millis` milliseconds: the nearest number to the count, divided
    /// by 1000. A caller that makes a quantity in another way must follow this rule.
    pub fn from_millis(millis: i64) -> (r: Self)
        ensures
            r == Self::of_millis(millis as int),
    {
        proof {
            Binary64::lemma_integer_is_finite(millis as int);
        }
        Time { secs: Binary64::from_i64(millis).over_thousand() }
    }

    /// The extent in whole seconds, rounded to nearest. A caller that rounds a quantity
    /// in another way must follow the rules of this module.
    pub fn secs_i64(self) -> (r: i64)
        ensures
            r == self.secs.rounded(i64::MIN as int, i64::MAX as int),
    {
        self.secs.round_i64()
    }

    /// The extent in whole milliseconds, rounded to nearest. A caller that rounds a
    /// quantity in another way must follow the rules of this module.
    pub fn millis_i64(self) -> (r: i64)
        ensures
            r == self.millis(),
    {
        if self.secs.is_nan() {
            0
        } else {
            self.secs.times_thousand().round_i64()
        }
    }
}

/// An extent of whole milliseconds gives its count of milliseconds back. The limit
/// is more than thirty thousand years.
pub proof fn lemma_millis_round_trip(n: int)
    requires
        -0x4_0000_0000_0000 <= n <= 0x4_0000_0000_0000,
    ensures
        Time::of_millis(n).millis() == n,
        Time::of_millis(n).secs.finite(),
        Time::of_millis(n).secs.value() > 0 <==> n > 0,
        Time::of_millis(n).secs.value() < 0 <==> n < 0,
{
    let count = (if n < 0 { -n } else { n }) as nat;
    let one = pow2(SCALE as nat);
    let time = Time::of_millis(n);
    Binary64::lemma_small_integer_is_exact(n);
    let whole = Binary64::integer(n);
    let total = binary64::magnitude(whole.unsigned());
    assert(total == count * one) by {
        if n < 0 {
            assert(n * one == -(count * one)) by (nonlinear_arith)
                requires
                    count == -n,
            ;
        }
    }
    // The quotient is off by less than 1/4096 of a second.
    let unit = pow2(1062);
    lemma_pow2_adds(1062, 12);
    lemma2_to64();
    lemma2_to64_rest();
    lemma_pow2_strictly_increases(52, 1062);
    let low = count * 4096 / 1000;
    let high = if count == 0 {
        0
    } else {
        low + 1
    };
    assert(low * unit * 1000 <= count * one <= high * unit * 1000) by (nonlinear_arith)
        requires
            one == unit * 4096,
            1000 * low <= count * 4096 <= 1000 * high,
    ;
    Binary64::lemma_nearest(total, 1000, whole.bits >= SIGN);
    let size = binary64::magnitude(time.secs.unsigned());
    binary64::lemma_rounding_stays_between(total, 1000, low, high, 1062, time.secs.unsigned());
    // So a thousand times the quotient is off by less than a quarter.
    let product = time.secs.product(1000);
    Binary64::lemma_nearest(1000 * size, 1, time.secs.bits >= SIGN);
    let quarter = pow2(1072);
    lemma_pow2_adds(1072, 2);
    lemma_pow2_strictly_increases(52, 1072);
    let floor = if count == 0 {
        0
    } else {
        (4 * count - 1) as nat
    };
    let ceiling = 4 * count + 1;
    lemma_pow2_adds(1062, 10);
    assert(floor * quarter * 1 <= 1000 * size <= ceiling * quarter * 1) by (nonlinear_arith)
        requires
            quarter == unit * 1024,
            low * unit <= size <= high * unit,
            1000 * low <= count * 4096 < 1000 * low + 1000,
            high <= low + 1,
            floor == 0 || floor == 4 * count - 1,
            ceiling == 4 * count + 1,
    {
        assert(1000 * size <= 1000 * (high * unit));
        assert(1000 * (high * unit) <= (1000 * low) * unit + 1000 * unit);
        assert((1000 * low) * unit <= (count * 4096) * unit);
        assert((count * 4096) * unit == (4 * count) * quarter);
        assert(1000 * size >= 1000 * (low * unit));
        assert(1000 * (low * unit) == (1000 * low) * unit);
        assert((1000 * low) * unit >= (count * 4096 - 1000) * unit);
        assert((count * 4096 - 1000) * unit == (4 * count) * quarter - 1000 * unit);
        assert(1000 * size >= 0);
    }
    binary64::lemma_rounding_stays_between(
        1000 * size,
        1,
        floor,
        ceiling,
        1072,
        product.unsigned(),
    );
    let rounded = binary64::magnitude(product.unsigned());
    assert((2 * rounded + one) / (2 * one) == count) by (nonlinear_arith)
        requires
            one == quarter * 4,
            quarter > 0,
            floor * quarter <= rounded <= ceiling * quarter,
            floor == 0 || floor == 4 * count - 1,
            count == 0 || floor == 4 * count - 1,
            ceiling == 4 * count + 1,
    {
        assert(2 * rounded + one >= (2 * one) * count);
        assert(2 * rounded + one < (2 * one) * (count + 1));
    }
    assert(size == 0 <==> count == 0) by (nonlinear_arith)
        requires
            low * unit <= size <= high * unit,
            count > 0 ==> low >= 1,
            count == 0 ==> high == 0,
            unit > 0,
    ;
}

/// An extent of whole seconds gives its count of seconds back.
pub proof fn lemma_secs_round_trip(n: int)
    requires
        -(2 * BINADE) <= n <= 2 * BINADE,
    ensures
        Time::of_secs(n).secs.rounded(i64::MIN as int, i64::MAX as int) == n,
{
    let one = pow2(SCALE as nat) as int;
    lemma_pow2_pos(SCALE as nat);
    Binary64::lemma_small_integer_is_exact(n);
    let count = if n < 0 {
        -n
    } else {
        n
    };
    assert(n < 0 ==> n * one == -(count * one)) by (nonlinear_arith)
        requires
            n < 0 ==> count == -n,
    ;
    assert((2 * (count * one) + one) / (2 * one) == count) by (nonlinear_arith)
        requires
            one > 0,
    {
        assert(2 * (count * one) + one == (2 * one) * count + one);
    }
}

/// More milliseconds are a longer extent.
pub proof fn lemma_millis_keep_their_order(a: int, b: int)
    requires
        0 <= a < b <= 0x4_0000_0000_0000,
    ensures
        Time::of_millis(a).secs.below(Time::of_millis(b).secs),
{
    let one = pow2(SCALE as nat);
    lemma_millis_round_trip(a);
    lemma_millis_round_trip(b);
    Binary64::lemma_small_integer_is_exact(a);
    Binary64::lemma_small_integer_is_exact(b);
    let x = binary64::magnitude(Binary64::integer(a).unsigned());
    let y = binary64::magnitude(Binary64::integer(b).unsigned());
    assert(x <= y) by (nonlinear_arith)
        requires
            x == a * one,
            y == b * one,
            0 <= a < b,
            one >= 0,
    ;
    Binary64::lemma_nearest(x, 1000, false);
    Binary64::lemma_nearest(y, 1000, false);
    let (p, q) = (Time::of_millis(a).secs, Time::of_millis(b).secs);
    binary64::lemma_rounding_is_monotone(x, y, 1000, p.unsigned(), q.unsigned());
    if p.unsigned() < q.unsigned() {
        binary64::lemma_magnitude_increases(p.unsigned(), q.unsigned());
    } else {
        assert(p == q);
    }
}

/// A count of whole bytes gives its bytes back.
pub proof fn lemma_bytes_round_trip(n: int)
    requires
        0 <= n <= 2 * BINADE,
    ensures
        ByteSize::of_bytes(n).bytes.rounded(0, u64::MAX as int) == n,
        ByteSize::of_bytes(n).bytes.finite(),
        ByteSize::of_bytes(n).bytes.value() > 0 <==> n > 0,
        ByteSize::of_bytes(n).bytes.value() >= 0,
{
    let one = pow2(SCALE as nat) as int;
    lemma_pow2_pos(SCALE as nat);
    Binary64::lemma_small_integer_is_exact(n);
    assert((2 * (n * one) + one) / (2 * one) == n) by (nonlinear_arith)
        requires
            one > 0,
    {
        assert(2 * (n * one) + one == (2 * one) * n + one);
    }
    assert(n * one > 0 <==> n > 0) by (nonlinear_arith)
        requires
            one > 0,
            n >= 0,
    ;
    assert(n * one >= 0) by (nonlinear_arith)
        requires
            one > 0,
            n >= 0,
    ;
}

/// More bytes are a larger count.
pub proof fn lemma_bytes_keep_their_order(a: int, b: int)
    requires
        0 <= a < b <= 2 * BINADE,
    ensures
        ByteSize::of_bytes(a).bytes.below(ByteSize::of_bytes(b).bytes),
{
    let one = pow2(SCALE as nat);
    lemma_pow2_pos(SCALE as nat);
    Binary64::lemma_small_integer_is_exact(a);
    Binary64::lemma_small_integer_is_exact(b);
    assert(a * one < b * one) by (nonlinear_arith)
        requires
            a < b,
            one > 0,
    ;
}

/// `n` seconds.
pub fn secs(n: u32) -> (r: Time)
    ensures
        r == Time::of_secs(n as int),
{
    Time::from_secs(n as i64)
}

/// `n` minutes.
pub fn minutes(n: u32) -> (r: Time)
    ensures
        r == Time::of_secs(60 * n),
{
    Time::from_secs(n as i64 * 60)
}

/// `n` days.
pub fn days(n: u32) -> (r: Time)
    ensures
        r == Time::of_secs(86_400 * n),
{
    Time::from_secs(n as i64 * 86_400)
}

/// A count of bytes.
#[derive(Debug, Clone, Copy, PartialEq)]
pub struct ByteSize {
    /// The count in bytes.
    pub bytes: Binary64,
}

impl ByteSize {
    /// The count of `bytes` bytes.
    pub open spec fn of_bytes(bytes: int) -> Self {
        ByteSize { bytes: Binary64::integer(bytes) }
    }

    /// The count of `bytes` bytes: the nearest number. A caller that makes a quantity in
    /// another way must follow this rule.
    pub fn from_bytes(bytes: u64) -> (r: Self)
        ensures
            r == Self::of_bytes(bytes as int),
    {
        ByteSize { bytes: Binary64::from_u64(bytes) }
    }

    /// The count in whole bytes, rounded to nearest. A caller that rounds a quantity in
    /// another way must follow the rules of this module.
    pub fn bytes_u64(self) -> (r: u64)
        ensures
            r == self.bytes.rounded(0, u64::MAX as int),
    {
        self.bytes.round_u64()
    }
}

/// A dimensionless fraction, where 1 is the whole.
#[derive(Debug, Clone, Copy, PartialEq)]
pub struct Ratio {
    pub fraction: Binary64,
}

/// A quantity that an operator set, with the form in which it is written.
#[derive(Debug, Clone, PartialEq)]
pub struct Setting<Q> {
    pub value: Q,
    /// The written form, such as `30s`, `512MiB` or `25%`.
    pub text: String,
}

/// A thousand milliseconds are one second.
pub proof fn lemma_thousand_millis_are_a_second(n: int)
    requires
        0 <= n <= 0x100_0000_0000,
    ensures
        Time::of_millis(1000 * n) == Time::of_secs(n),
        Time::of_secs(n).millis() == 1000 * n,
{
    let one = pow2(SCALE as nat);
    Binary64::lemma_small_integer_is_exact(n);
    Binary64::lemma_small_integer_is_exact(1000 * n);
    let whole = Binary64::integer(n);
    let num = binary64::magnitude(Binary64::integer(1000 * n).unsigned());
    let part = binary64::magnitude(whole.unsigned());
    assert(num == 1000 * part) by (nonlinear_arith)
        requires
            num == (1000 * n) * one,
            part == n * one,
    ;
    binary64::lemma_exact_number_rounds_to_itself(num, 1000, whole.unsigned());
    Binary64::lemma_nearest(num, 1000, false);
    lemma_millis_round_trip(1000 * n);
}

/// A minute is sixty seconds, and a day is twenty-four hours.
pub proof fn lemma_minutes_and_days(n: u32, second: Time, minute: Time, day: Time)
    requires
        call_ensures(secs, (n,), second),
        call_ensures(minutes, (n,), minute),
        call_ensures(days, (n,), day),
    ensures
        second == Time::of_millis(1000 * n),
        minute == Time::of_secs(60 * n),
        day == Time::of_secs(24 * 60 * 60 * n),
{
    lemma_thousand_millis_are_a_second(n as int);
}

/// The conversions of extents and byte counts give back the counts that they were given.
pub proof fn lemma_conversions(
    n: i64,
    time: Time,
    extent: Time,
    millis: i64,
    seconds: i64,
    m: u64,
    size: ByteSize,
    bytes: u64,
)
    requires
        -0x4_0000_0000_0000 <= n <= 0x4_0000_0000_0000,
        m <= 0x20_0000_0000_0000,
        call_ensures(Time::from_millis, (n,), time),
        call_ensures(Time::millis_i64, (time,), millis),
        call_ensures(Time::from_secs, (n,), extent),
        call_ensures(Time::secs_i64, (extent,), seconds),
        call_ensures(ByteSize::from_bytes, (m,), size),
        call_ensures(ByteSize::bytes_u64, (size,), bytes),
    ensures
        millis == n,
        seconds == n,
        bytes == m,
        extent.secs.value() == n * pow2(SCALE as nat),
        size.bytes.value() == m * pow2(SCALE as nat),
{
    lemma_millis_round_trip(n as int);
    lemma_secs_round_trip(n as int);
    lemma_bytes_round_trip(m as int);
    Binary64::lemma_small_integer_is_exact(n as int);
    Binary64::lemma_small_integer_is_exact(m as int);
}

/// An extent is representable exactly where it is above zero and below `2^64` seconds.
pub proof fn lemma_representable(time: Time, r: bool)
    requires
        call_ensures(Time::is_representable, (time,), r),
    ensures
        r <==> !time.secs.nan() && 0 < time.secs.value() < 0x1_0000_0000_0000_0000 * pow2(
            SCALE as nat,
        ),
{
    Binary64::lemma_small_integer_is_exact(0);
    Binary64::lemma_power_of_64_is_exact();
}

} // verus!
