use conmon_rs::number::{append_decimal, parse_i32, parse_i64, parse_u64, to_decimal};

const SAMPLES: [&str; 44] = [
    "",
    "0",
    "7",
    "42",
    "007",
    "+0",
    "+42",
    "-0",
    "-5",
    "-42",
    "+",
    "-",
    "+-1",
    "-+1",
    "--1",
    "++1",
    "abc",
    "12a",
    "a12",
    "1 2",
    " 12",
    "12 ",
    "1_000",
    "1.5",
    "0x10",
    "1e3",
    "\u{0661}\u{0662}",
    "\u{ff11}",
    "2147483647",
    "2147483648",
    "-2147483648",
    "-2147483649",
    "9223372036854775807",
    "9223372036854775808",
    "-9223372036854775808",
    "-9223372036854775809",
    "18446744073709551615",
    "18446744073709551616",
    "+18446744073709551615",
    "000000000000000000000000000000000001",
    "99999999999999999999999999999999",
    "-99999999999999999999999999999999",
    "4294967296",
    "1\n",
];

#[test]
fn unsigned_numbers_read_as_the_standard_library_reads_them() {
    for text in SAMPLES.iter() {
        assert_eq!(parse_u64(text), text.parse::<u64>().ok(), "text {:?}", text);
    }
}

#[test]
fn signed_numbers_read_as_the_standard_library_reads_them() {
    for text in SAMPLES.iter() {
        assert_eq!(parse_i64(text), text.parse::<i64>().ok(), "text {:?}", text);
    }
}

#[test]
fn descriptor_numbers_read_as_the_standard_library_reads_them() {
    for text in SAMPLES.iter() {
        assert_eq!(parse_i32(text), text.parse::<i32>().ok(), "text {:?}", text);
    }
}

#[test]
fn unsigned_number_values() {
    assert_eq!(parse_u64("0"), Some(0));
    assert_eq!(parse_u64("42"), Some(42));
    assert_eq!(parse_u64("+42"), Some(42));
    assert_eq!(parse_u64("0042"), Some(42));
    assert_eq!(parse_u64("18446744073709551615"), Some(u64::MAX));
}

#[test]
fn unsigned_number_refusals() {
    assert_eq!(parse_u64(""), None);
    assert_eq!(parse_u64("abc"), None);
    assert_eq!(parse_u64("-5"), None);
    assert_eq!(parse_u64("-0"), None);
    assert_eq!(parse_u64("+"), None);
    assert_eq!(parse_u64("18446744073709551616"), None);
    assert_eq!(parse_u64("12 "), None);
}

#[test]
fn signed_number_values() {
    assert_eq!(parse_i64("-5"), Some(-5));
    assert_eq!(parse_i64("5"), Some(5));
    assert_eq!(parse_i64("+5"), Some(5));
    assert_eq!(parse_i64("-0"), Some(0));
    assert_eq!(parse_i64("-1"), Some(-1));
    assert_eq!(parse_i64("9223372036854775807"), Some(i64::MAX));
    assert_eq!(parse_i64("-9223372036854775808"), Some(i64::MIN));
}

#[test]
fn signed_number_refusals() {
    assert_eq!(parse_i64(""), None);
    assert_eq!(parse_i64("-"), None);
    assert_eq!(parse_i64("five"), None);
    assert_eq!(parse_i64("--5"), None);
    assert_eq!(parse_i64("9223372036854775808"), None);
    assert_eq!(parse_i64("-9223372036854775809"), None);
}

#[test]
fn descriptor_number_values() {
    assert_eq!(parse_i32("3"), Some(3));
    assert_eq!(parse_i32("-1"), Some(-1));
    assert_eq!(parse_i32("2147483647"), Some(i32::MAX));
    assert_eq!(parse_i32("-2147483648"), Some(i32::MIN));
    assert_eq!(parse_i32("2147483648"), None);
    assert_eq!(parse_i32("-2147483649"), None);
    assert_eq!(parse_i32("3 "), None);
}

#[test]
fn numbers_are_written_in_decimal() {
    assert_eq!(to_decimal(0), "0");
    assert_eq!(to_decimal(7), "7");
    assert_eq!(to_decimal(10), "10");
    assert_eq!(to_decimal(-5), "-5");
    assert_eq!(to_decimal(1048576), "1048576");
    assert_eq!(to_decimal(i64::MAX), "9223372036854775807");
    assert_eq!(to_decimal(i64::MIN), "-9223372036854775808");
    let mut text = "error ".to_string();
    append_decimal(&mut text, -101);
    assert_eq!(text, "error -101");
}

#[test]
fn written_numbers_read_back() {
    for n in [0i64, 1, 9, 10, 99, 100, 12345, -1, -10, -99, i64::MAX, i64::MIN, 2147483647] {
        assert_eq!(to_decimal(n), n.to_string());
        assert_eq!(parse_i64(&to_decimal(n)), Some(n));
        if n >= 0 {
            assert_eq!(parse_u64(&to_decimal(n)), Some(n as u64));
        }
    }
}
