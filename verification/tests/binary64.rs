use krabka_operator::binary64::Binary64;
use krabka_operator::text::{decimal_i64, decimal_u64, is_blank, starts_with, to_ascii_upper};
use krabka_operator::units::{days, minutes, secs, ByteSize, Time};

fn of(x: f64) -> Binary64 {
    Binary64 { bits: x.to_bits() }
}

/// Numbers of every magnitude: random bit patterns, and the corners.
fn numbers() -> Vec<f64> {
    let mut state: u64 = 0x9E37_79B9_7F4A_7C15;
    let mut numbers = vec![
        0.0,
        -0.0,
        0.5,
        -0.5,
        1.0,
        1.5,
        2.5,
        -2.5,
        0.001,
        999.9995,
        4503599627370495.5,
        4503599627370496.0,
        9007199254740993.0,
        9.223372036854775e18,
        1.8446744073709552e19,
        -9.223372036854776e18,
        f64::MIN_POSITIVE,
        f64::from_bits(1),
        f64::MAX,
        f64::MIN,
        f64::INFINITY,
        f64::NEG_INFINITY,
        f64::NAN,
    ];
    for i in 0..4000 {
        state ^= state << 13;
        state ^= state >> 7;
        state ^= state << 17;
        numbers.push(f64::from_bits(state));
        // Numbers near the integers, where the rounding matters.
        numbers.push(((state >> (i % 64)) as f64) / 2.0);
        numbers.push(-((state >> (i % 64)) as f64) / 1000.0);
    }
    numbers
}

#[test]
fn comparisons_are_those_of_binary64() {
    let numbers = numbers();
    for pair in numbers.windows(2).chain(numbers[..23].chunks(2).filter(|p| p.len() == 2)) {
        let (a, b) = (pair[0], pair[1]);
        for (a, b) in [(a, b), (b, a), (a, a)] {
            assert_eq!(of(a).is_below(of(b)), a < b, "{a} {b}");
            assert_eq!(of(a).is_at_most(of(b)), a <= b, "{a} {b}");
            assert_eq!(of(a).equals(of(b)), a == b, "{a} {b}");
            assert_eq!(of(a) == of(b), a == b, "{a} {b}");
        }
    }
    assert!(of(0.0) == of(-0.0));
}

#[test]
fn classes_are_those_of_binary64() {
    for x in numbers() {
        assert_eq!(of(x).is_nan(), x.is_nan(), "{x}");
        assert_eq!(of(x).is_finite(), x.is_finite(), "{x}");
    }
}

#[test]
fn conversions_are_those_of_binary64() {
    let mut integers: Vec<u64> = vec![0, 1, 2, 1 << 53, (1 << 53) + 1, (1 << 53) + 3, u64::MAX];
    let mut state: u64 = 0xD1B5_4A32_D192_ED03;
    for i in 0..4000 {
        state ^= state << 13;
        state ^= state >> 7;
        state ^= state << 17;
        integers.push(state >> (i % 64));
    }
    for n in integers {
        assert_eq!(Binary64::from_u64(n).bits, (n as f64).to_bits(), "{n}");
        let n = n as i64;
        assert_eq!(Binary64::from_i64(n).bits, (n as f64).to_bits(), "{n}");
    }
    assert_eq!(Binary64::from_i64(i64::MIN).bits, (i64::MIN as f64).to_bits());
}

#[test]
fn scaling_is_that_of_binary64() {
    for x in numbers() {
        if !x.is_nan() {
            assert_eq!(of(x).times_thousand().bits, (x * 1000.0).to_bits(), "{x}");
        }
        if x.is_finite() {
            assert_eq!(of(x).over_thousand().bits, (x / 1000.0).to_bits(), "{x}");
        }
    }
}

#[test]
fn rounding_is_that_of_binary64() {
    for x in numbers() {
        assert_eq!(of(x).round_i64(), x.round() as i64, "{x}");
        assert_eq!(of(x).round_u64(), x.round() as u64, "{x}");
    }
}

#[test]
fn quantities_convert_through_their_base_unit() {
    assert_eq!(Time::from_millis(1500).secs.bits, 1.5f64.to_bits());
    assert_eq!(Time::from_millis(1).secs.bits, 0.001f64.to_bits());
    assert_eq!(Time::from_secs(-3).secs.bits, (-3.0f64).to_bits());
    assert_eq!(secs(15).secs_i64(), 15);
    assert_eq!(minutes(2).secs_i64(), 120);
    assert_eq!(days(3).secs_i64(), 259_200);
    assert_eq!(ByteSize::from_bytes(1 << 20).bytes.bits, 1048576.0f64.to_bits());
    assert_eq!(ByteSize::from_bytes(1 << 20).bytes_u64(), 1 << 20);
    let nan = Time { secs: of(f64::NAN) };
    assert_eq!(nan.millis_i64(), 0);
    assert_eq!(nan.secs_i64(), 0);
    let endless = Time { secs: of(f64::INFINITY) };
    assert_eq!(endless.millis_i64(), i64::MAX);
}

#[test]
fn whole_milliseconds_come_back() {
    let mut n: i64 = 1;
    while n <= 1 << 50 {
        for m in [n - 1, n, n + 1, n * 7 / 5] {
            if m <= 1 << 50 {
                assert_eq!(Time::from_millis(m).millis_i64(), m);
                assert_eq!(Time::from_millis(-m).millis_i64(), -m);
            }
        }
        n *= 2;
    }
}

#[test]
fn longer_extents_and_larger_counts_are_in_order() {
    for (a, b) in [(0, 1), (99, 100), (999, 1000), (86_399_999, 86_400_000)] {
        assert!(Time::from_millis(a).secs.is_below(Time::from_millis(b).secs));
        assert!(!Time::from_millis(b).secs.is_at_most(Time::from_millis(a).secs));
        let (a, b) = (ByteSize::from_bytes(a as u64), ByteSize::from_bytes(b as u64));
        assert!(a.bytes.is_below(b.bytes));
    }
}

#[test]
fn blank_strings_are_empty_once_trimmed() {
    for c in (0..=0x10_FFFFu32).filter_map(char::from_u32) {
        let s = c.to_string();
        assert_eq!(is_blank(&s), s.trim().is_empty(), "{:?}", c);
    }
    for s in ["", " ", "\t\n", " a ", "a", "\u{2003}\u{a0}", "\u{200b}"] {
        assert_eq!(is_blank(s), s.trim().is_empty(), "{s:?}");
    }
}

#[test]
fn strings_have_their_usual_operations() {
    for c in (0..=0x10_FFFFu32).filter_map(char::from_u32) {
        assert_eq!(to_ascii_upper(c), c.to_ascii_uppercase());
    }
    for (s, prefix) in [("", ""), ("ab", "a"), ("ab", "ab"), ("ab", "abc"), ("äb", "ä"), ("b", "a")] {
        assert_eq!(starts_with(s, prefix), s.starts_with(prefix));
    }
    for n in [0, 9, 10, 1234567890, u64::MAX] {
        assert_eq!(decimal_u64(n), n.to_string());
    }
    for n in [0, -1, 9, -10, i64::MAX, i64::MIN] {
        assert_eq!(decimal_i64(n), n.to_string());
    }
}
