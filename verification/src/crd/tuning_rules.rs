//! The rules for the quantities of `spec.brokerTuning`, and the messages of its
//! validation.

use crate::binary64;
use crate::binary64::Binary64;
use crate::crd::broker_tuning::BrokerTuning;
use crate::crd::report;
use crate::text;
use crate::text::{decimal_i64, decimal_u64};
use crate::units;
use crate::units::{ByteSize, Ratio, Time};
use vstd::arithmetic::power2::*;
use vstd::prelude::*;
use vstd::string::*;

verus! {

/// The camel-case form of a snake-case name: every `_` is dropped, and a letter
/// that follows one is in upper case.
pub open spec fn camel_case(field: Seq<char>) -> Seq<char>
    decreases field.len(),
{
    if field.len() == 0 {
        Seq::empty()
    } else {
        let start = camel_case(field.drop_last());
        let c = field.last();
        if c == '_' {
            start
        } else if field.len() > 1 && field[field.len() - 2] == '_' {
            start.push(text::ascii_upper(c))
        } else {
            start.push(c)
        }
    }
}

/// The path of a field in the custom resource.
pub open spec fn path(field: Seq<char>) -> Seq<char> {
    "spec.brokerTuning."@ + camel_case(field)
}

/// The message for an invalid field.
pub open spec fn invalid(field: Seq<char>, error: Seq<char>) -> Seq<char> {
    path(field) + ": "@ + error
}

/// The message for two fields that do not fit together.
pub open spec fn invalid_relation(left: Seq<char>, right: Seq<char>, message: Seq<char>) -> Seq<
    char,
> {
    path(left) + " and "@ + path(right) + ": "@ + message
}

/// A rule for an extent of time. Each one but the first also asks what the one
/// before it asks.
#[derive(Debug, Clone, Copy)]
pub enum TimeRule {
    /// Finite, and zero or more.
    Nonnegative,
    /// More than zero.
    Positive,
    /// A whole number of milliseconds.
    WholeMillis,
    /// At most this many milliseconds.
    AtMostMillis(i32),
}

/// Whether `time` is the extent that its own count of milliseconds gives back.
pub open spec fn whole_millis(time: Time) -> bool {
    Time::of_millis(time.millis()).secs.equal(time.secs)
}

/// What `rule` finds wrong with the extent `time` of `field`.
pub open spec fn time_error(field: Seq<char>, time: Time, rule: TimeRule) -> Option<Seq<char>> {
    if !time.secs.finite() || time.secs.value() < 0 {
        Some(invalid(field, "must be finite and nonnegative"@))
    } else if rule is Nonnegative {
        None
    } else if time.secs.value() == 0 {
        Some(invalid(field, "must be positive"@))
    } else if rule is Positive {
        None
    } else if !whole_millis(time) {
        Some(invalid(field, "must be a whole number of milliseconds"@))
    } else {
        match rule {
            TimeRule::AtMostMillis(max) if time.millis() > max => Some(
                invalid(field, "must be at most "@ + text::signed_decimal(max as int) + "ms"@),
            ),
            _ => None,
        }
    }
}

/// What is wrong with the byte count `size` of `field`, which is at most `max`.
pub open spec fn size_error(field: Seq<char>, size: ByteSize, max: u64) -> Option<Seq<char>> {
    let count = size.bytes.rounded(0, u64::MAX as int);
    if !size.bytes.finite() || size.bytes.value() <= 0 || !ByteSize::of_bytes(count).bytes.equal(
        size.bytes,
    ) {
        Some(invalid(field, "must be a positive whole number of bytes"@))
    } else if count > max {
        Some(invalid(field, "must be at most "@ + text::decimal(max as nat) + " bytes"@))
    } else {
        None
    }
}

/// A rule for a fraction.
#[derive(Debug, Clone, Copy)]
pub enum RatioRule {
    /// Finite and more than zero.
    Positive,
    /// From nothing to the whole.
    UnitInterval,
}

/// What `rule` finds wrong with the fraction `ratio` of `field`.
pub open spec fn ratio_error(field: Seq<char>, ratio: Ratio, rule: RatioRule) -> Option<Seq<char>> {
    let fraction = ratio.fraction;
    match rule {
        RatioRule::Positive => if fraction.finite() && fraction.value() > 0 {
            None
        } else {
            Some(invalid(field, "must be finite and positive"@))
        },
        RatioRule::UnitInterval => if fraction.finite() && 0 <= fraction.value()
            <= Binary64::integer(1).value() {
            None
        } else {
            Some(invalid(field, "must be between 0% and 100%"@))
        },
    }
}

pub fn validate_nonnegative_tuning_time(field: &str, value: Time) -> (r: Result<(), String>)
    ensures
        report::reports(r, time_error(field@, value, TimeRule::Nonnegative)),
{
    proof {
        Binary64::lemma_small_integer_is_exact(0);
    }
    if value.secs.is_finite() && Time::from_secs(0).secs.is_at_most(value.secs) {
        Ok(())
    } else {
        Err(BrokerTuning::invalid(field, "must be finite and nonnegative"))
    }
}

pub fn validate_positive_tuning_time(field: &str, value: Time) -> (r: Result<(), String>)
    ensures
        report::reports(r, time_error(field@, value, TimeRule::Positive)),
{
    validate_nonnegative_tuning_time(field, value)?;
    proof {
        Binary64::lemma_small_integer_is_exact(0);
    }
    if Time::from_secs(0).secs.is_below(value.secs) {
        Ok(())
    } else {
        Err(BrokerTuning::invalid(field, "must be positive"))
    }
}

pub fn validate_whole_millis_tuning_time(field: &str, value: Time) -> (r: Result<(), String>)
    ensures
        report::reports(r, time_error(field@, value, TimeRule::WholeMillis)),
{
    validate_positive_tuning_time(field, value)?;
    if Time::from_millis(value.millis_i64()).secs.equals(value.secs) {
        Ok(())
    } else {
        Err(BrokerTuning::invalid(field, "must be a whole number of milliseconds"))
    }
}

pub fn validate_bounded_tuning_time(field: &str, value: Time, max_ms: i32) -> (r: Result<
    (),
    String,
>)
    ensures
        report::reports(r, time_error(field@, value, TimeRule::AtMostMillis(max_ms))),
{
    validate_whole_millis_tuning_time(field, value)?;
    if value.millis_i64() <= max_ms as i64 {
        Ok(())
    } else {
        let mut message = String::from_str("must be at most ");
        message.append(decimal_i64(max_ms as i64).as_str());
        message.append("ms");
        Err(BrokerTuning::invalid(field, message.as_str()))
    }
}

pub fn validate_tuning_size(field: &str, value: ByteSize, max: u64) -> (r: Result<(), String>)
    ensures
        report::reports(r, size_error(field@, value, max)),
{
    let bytes = value.bytes_u64();
    proof {
        Binary64::lemma_small_integer_is_exact(0);
    }
    if !value.bytes.is_finite() || value.bytes.is_at_most(ByteSize::from_bytes(0).bytes)
        || !ByteSize::from_bytes(bytes).bytes.equals(value.bytes) {
        return Err(BrokerTuning::invalid(field, "must be a positive whole number of bytes"));
    }
    if bytes <= max {
        Ok(())
    } else {
        let mut message = String::from_str("must be at most ");
        message.append(decimal_u64(max).as_str());
        message.append(" bytes");
        Err(BrokerTuning::invalid(field, message.as_str()))
    }
}

pub fn validate_positive_tuning_ratio(field: &str, value: Ratio) -> (r: Result<(), String>)
    ensures
        report::reports(r, ratio_error(field@, value, RatioRule::Positive)),
{
    proof {
        Binary64::lemma_small_integer_is_exact(0);
    }
    if value.fraction.is_finite() && Binary64::from_u64(0).is_below(value.fraction) {
        Ok(())
    } else {
        Err(BrokerTuning::invalid(field, "must be finite and positive"))
    }
}

pub fn validate_unit_interval_tuning_ratio(field: &str, value: Ratio) -> (r: Result<(), String>)
    ensures
        report::reports(r, ratio_error(field@, value, RatioRule::UnitInterval)),
{
    proof {
        Binary64::lemma_small_integer_is_exact(0);
        Binary64::lemma_small_integer_is_exact(1);
    }
    if value.fraction.is_finite() && Binary64::from_u64(0).is_at_most(value.fraction)
        && value.fraction.is_at_most(Binary64::from_u64(1)) {
        Ok(())
    } else {
        Err(BrokerTuning::invalid(field, "must be between 0% and 100%"))
    }
}

/// A bounded extent is valid exactly where it is a whole number of milliseconds,
/// from one to the bound.
pub proof fn lemma_bounded_time(field: Seq<char>, time: Time, max: i32)
    ensures
        time_error(field, time, TimeRule::AtMostMillis(max)) is None <==> exists|n: int|
            1 <= n <= max && #[trigger] Time::of_millis(n).secs.equal(time.secs),
{
    let n = time.millis();
    if time_error(field, time, TimeRule::AtMostMillis(max)) is None {
        Binary64::lemma_integer_is_finite(n);
        Binary64::lemma_nearest(
            binary64::magnitude(Binary64::integer(n).unsigned()),
            1000,
            n < 0,
        );
        if n == 0 {
            units::lemma_millis_round_trip(0);
        }
        assert(Time::of_millis(n).secs.equal(time.secs));
    }
    if exists|n: int| 1 <= n <= max && #[trigger] Time::of_millis(n).secs.equal(time.secs) {
        let n = choose|n: int| 1 <= n <= max && #[trigger] Time::of_millis(n).secs.equal(time.secs);
        units::lemma_millis_round_trip(n);
        Time::of_millis(n).secs.lemma_equal_numbers(time.secs);
    }
}

/// A byte count is valid exactly where it is a whole number of bytes, from one to
/// its bound. Above the bound of this law not every whole number is a binary64
/// number.
pub proof fn lemma_bounded_size(field: Seq<char>, size: ByteSize, max: u64)
    requires
        max <= 2 * binary64::BINADE,
    ensures
        size_error(field, size, max) is None <==> exists|n: int|
            1 <= n <= max && #[trigger] ByteSize::of_bytes(n).bytes.equal(size.bytes),
{
    if size_error(field, size, max) is None {
        let n = size.bytes.rounded(0, u64::MAX as int);
        units::lemma_bytes_round_trip(0);
        assert(ByteSize::of_bytes(n).bytes.equal(size.bytes));
    }
    if exists|n: int| 1 <= n <= max && #[trigger] ByteSize::of_bytes(n).bytes.equal(size.bytes) {
        let n = choose|n: int|
            1 <= n <= max && #[trigger] ByteSize::of_bytes(n).bytes.equal(size.bytes);
        units::lemma_bytes_round_trip(n);
        ByteSize::of_bytes(n).bytes.lemma_equal_numbers(size.bytes);
    }
}

/// A camel-case name has no underscore.
pub proof fn lemma_camel_case_has_no_underscore(field: Seq<char>)
    ensures
        !camel_case(field).contains('_'),
    decreases field.len(),
{
    if field.len() > 0 {
        lemma_camel_case_has_no_underscore(field.drop_last());
        let start = camel_case(field.drop_last());
        assert forall|i: int| 0 <= i < camel_case(field).len() implies #[trigger] camel_case(
            field,
        )[i] != '_' by {
            if i < start.len() {
                assert(start.contains(start[i]));
            }
        }
    }
}

/// A name without an underscore is its own camel-case form.
pub proof fn lemma_plain_name_is_camel_case(field: Seq<char>)
    requires
        !field.contains('_'),
    ensures
        camel_case(field) == field,
    decreases field.len(),
{
    if field.len() > 0 {
        let start = field.drop_last();
        assert forall|i: int| 0 <= i < start.len() implies #[trigger] start[i] != '_' by {
            assert(field.contains(field[i]));
        }
        lemma_plain_name_is_camel_case(start);
        assert(field.contains(field[field.len() - 1]));
        if field.len() > 1 {
            assert(field.contains(field[field.len() - 2]));
        }
        assert(camel_case(field) =~= field);
    }
}

/// Each word after an underscore begins with a letter in upper case, and is else as it
/// was.
pub proof fn lemma_camel_case_of_words(start: Seq<char>, letter: char, rest: Seq<char>)
    requires
        letter != '_',
        !rest.contains('_'),
    ensures
        camel_case(start.push('_').push(letter) + rest) == camel_case(start).push(
            text::ascii_upper(letter),
        ) + rest,
    decreases rest.len(),
{
    let head = start.push('_').push(letter);
    if rest.len() == 0 {
        assert(head + rest =~= head);
        assert(head.drop_last() =~= start.push('_'));
        assert(start.push('_').drop_last() =~= start);
        assert(camel_case(start.push('_')) == camel_case(start));
        assert(head[head.len() - 2] == '_');
        assert(camel_case(start).push(text::ascii_upper(letter)) + rest =~= camel_case(start).push(
            text::ascii_upper(letter),
        ));
    } else {
        let whole = head + rest;
        let before = rest.drop_last();
        assert forall|i: int| 0 <= i < before.len() implies #[trigger] before[i] != '_' by {
            assert(rest.contains(rest[i]));
        }
        lemma_camel_case_of_words(start, letter, before);
        assert(whole.drop_last() =~= head + before);
        assert(rest.contains(rest[rest.len() - 1]));
        assert(whole.last() == rest.last());
        if rest.len() == 1 {
            assert(whole[whole.len() - 2] == letter);
        } else {
            assert(whole[whole.len() - 2] == rest[rest.len() - 2]);
            assert(rest.contains(rest[rest.len() - 2]));
        }
        let camel = camel_case(start).push(text::ascii_upper(letter));
        assert((camel + before).push(rest.last()) =~= camel + rest);
    }
}

/// A message begins with the path of its field, and ends with the error. A message about
/// two fields names both.
pub proof fn lemma_messages(
    left: &str,
    right: &str,
    error: &str,
    path: String,
    one: String,
    both: String,
)
    requires
        call_ensures(BrokerTuning::path, (left,), path),
        call_ensures(BrokerTuning::invalid, (left, error), one),
        call_ensures(BrokerTuning::invalid_relation, (left, right, error), both),
    ensures
        path@ == "spec.brokerTuning."@ + camel_case(left@),
        one@ == "spec.brokerTuning."@ + camel_case(left@) + ": "@ + error@,
        both@ == "spec.brokerTuning."@ + camel_case(left@) + " and "@ + ("spec.brokerTuning."@
            + camel_case(right@)) + ": "@ + error@,
{
}

/// An extent is judged by its number of seconds: each rule asks for more than the one
/// before it, and the message tells what is missing first.
pub proof fn lemma_time_rules(
    field: &str,
    value: Time,
    max: i32,
    nonnegative: Result<(), String>,
    positive: Result<(), String>,
    whole: Result<(), String>,
    bounded: Result<(), String>,
)
    requires
        call_ensures(validate_nonnegative_tuning_time, (field, value), nonnegative),
        call_ensures(validate_positive_tuning_time, (field, value), positive),
        call_ensures(validate_whole_millis_tuning_time, (field, value), whole),
        call_ensures(validate_bounded_tuning_time, (field, value, max), bounded),
    ensures
        nonnegative is Ok <==> value.secs.finite() && value.secs.value() >= 0,
        positive is Ok <==> value.secs.finite() && value.secs.value() > 0,
        whole is Ok ==> positive is Ok,
        bounded is Ok <==> whole is Ok && value.millis() <= max,
        bounded is Ok <==> exists|n: int|
            1 <= n <= max && #[trigger] Time::of_millis(n).secs.equal(value.secs),
        forall|n: int|
            1 <= n <= 0x4_0000_0000_0000 && #[trigger] Time::of_millis(n).secs.equal(value.secs)
                ==> whole is Ok,
        whole is Ok ==> exists|n: int|
            n > 0 && #[trigger] Time::of_millis(n).secs.equal(value.secs),
        nonnegative is Err ==> positive is Err && whole is Err && bounded is Err && positive->Err_0@
            == nonnegative->Err_0@ && whole->Err_0@ == nonnegative->Err_0@ && bounded->Err_0@
            == nonnegative->Err_0@,
{
    lemma_bounded_time(field@, value, max);
    assert forall|n: int|
        1 <= n <= 0x4_0000_0000_0000 && #[trigger] Time::of_millis(n).secs.equal(
            value.secs,
        ) implies whole is Ok by {
        units::lemma_millis_round_trip(n);
        Time::of_millis(n).secs.lemma_equal_numbers(value.secs);
    }
    if whole is Ok {
        let n = value.millis();
        Binary64::lemma_integer_is_finite(n);
        Binary64::lemma_nearest(
            binary64::magnitude(Binary64::integer(n).unsigned()),
            1000,
            n < 0,
        );
        if n == 0 {
            units::lemma_millis_round_trip(0);
        }
        assert(Time::of_millis(n).secs.equal(value.secs));
    }
}

/// A fraction is judged by its number: above zero, or from nothing to the whole.
pub proof fn lemma_ratio_rules(
    field: &str,
    value: Ratio,
    positive: Result<(), String>,
    part: Result<(), String>,
)
    requires
        call_ensures(validate_positive_tuning_ratio, (field, value), positive),
        call_ensures(validate_unit_interval_tuning_ratio, (field, value), part),
    ensures
        positive is Ok <==> value.fraction.finite() && value.fraction.value() > 0,
        part is Ok <==> value.fraction.finite() && 0 <= value.fraction.value() <= pow2(
            binary64::SCALE as nat,
        ),
{
    Binary64::lemma_small_integer_is_exact(1);
}

/// A byte count of up to `2^53` bytes is accepted exactly where it is a whole number from
/// one to its bound.
pub proof fn lemma_size_rule(field: &str, value: ByteSize, max: u64, r: Result<(), String>)
    requires
        call_ensures(validate_tuning_size, (field, value, max), r),
        max <= 0x20_0000_0000_0000,
    ensures
        r is Ok <==> exists|n: int|
            1 <= n <= max && #[trigger] ByteSize::of_bytes(n).bytes.equal(value.bytes),
{
    lemma_bounded_size(field@, value, max);
}

} // verus!
