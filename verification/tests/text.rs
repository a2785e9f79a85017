use ulink_zenoh::codec::uuid_to_string;
use ulink_zenoh::handle::{allocate_handle, make_handle};
use ulink_zenoh::model::Uuid;
use ulink_zenoh::text::{chars_of, i32_to_decimal, parse_i32, push_decimal, push_hex};

fn u64_to_decimal(n: u64) -> String {
    let mut out = Vec::new();
    push_decimal(n, &mut out);
    out.into_iter().collect()
}

fn u64_to_hex(n: u64) -> String {
    let mut out = vec!['x'];
    push_hex(n, &mut out);
    out.into_iter().skip(1).collect()
}

#[test]
fn decimal_text_of_unsigned_numbers() {
    assert_eq!(u64_to_decimal(0), "0");
    assert_eq!(u64_to_decimal(9), "9");
    assert_eq!(u64_to_decimal(10), "10");
    assert_eq!(u64_to_decimal(1234567890), "1234567890");
    assert_eq!(u64_to_decimal(u64::MAX), "18446744073709551615");
}

#[test]
fn decimal_text_of_signed_numbers() {
    assert_eq!(i32_to_decimal(0), "0");
    assert_eq!(i32_to_decimal(3), "3");
    assert_eq!(i32_to_decimal(-1), "-1");
    assert_eq!(i32_to_decimal(i32::MAX), "2147483647");
    assert_eq!(i32_to_decimal(i32::MIN), "-2147483648");
}

#[test]
fn decimal_text_is_that_of_std() {
    for v in [0, 1, -1, 7, 10, -10, 99, 100, 12345, -98765, i32::MAX, i32::MIN, i32::MIN + 1] {
        assert_eq!(i32_to_decimal(v), v.to_string());
    }
    for n in [0u64, 1, 10, 255, 1 << 32, u64::MAX - 1, u64::MAX] {
        assert_eq!(u64_to_decimal(n), n.to_string());
        assert_eq!(u64_to_hex(n), format!("{:X}", n));
    }
}

#[test]
fn hexadecimal_text_is_upper_case_without_prefix() {
    assert_eq!(u64_to_hex(0), "0");
    assert_eq!(u64_to_hex(9), "9");
    assert_eq!(u64_to_hex(10), "A");
    assert_eq!(u64_to_hex(15), "F");
    assert_eq!(u64_to_hex(16), "10");
    assert_eq!(u64_to_hex(0xdead_beef), "DEADBEEF");
    assert_eq!(u64_to_hex(u64::MAX), "FFFFFFFFFFFFFFFF");
}

#[test]
fn parse_accepts_signs_and_leading_zeros() {
    assert_eq!(parse_i32("0"), Some(0));
    assert_eq!(parse_i32("3"), Some(3));
    assert_eq!(parse_i32("+5"), Some(5));
    assert_eq!(parse_i32("-5"), Some(-5));
    assert_eq!(parse_i32("-0"), Some(0));
    assert_eq!(parse_i32("007"), Some(7));
    assert_eq!(parse_i32("-0000000000000000000000012"), Some(-12));
    assert_eq!(parse_i32("2147483647"), Some(i32::MAX));
    assert_eq!(parse_i32("-2147483648"), Some(i32::MIN));
}

#[test]
fn parse_refuses_what_is_no_number() {
    for text in [
        "", "+", "-", " 5", "5 ", "1_0", "0x10", "1.0", "--1", "+-1", "1-", "a", "٣", "１",
        "2147483648", "-2147483649", "99999999999999999999999999", "-99999999999999999999999999",
        "12a", "12\n",
    ] {
        assert_eq!(parse_i32(text), None, "{:?}", text);
    }
}

#[test]
fn parse_agrees_with_std() {
    for text in [
        "", "+", "-", "0", "-0", "+0", "00", "1", "-1", "+1", "42", " 42", "42 ", "4 2",
        "2147483647", "2147483648", "-2147483648", "-2147483649", "4294967296",
        "18446744073709551616", "000000000000000000002147483647", "abc", "1e3", "٣",
    ] {
        assert_eq!(parse_i32(text), text.parse::<i32>().ok(), "{:?}", text);
    }
}

#[test]
fn format_code_survives_the_suffix() {
    for format in [0, 1, 2, 3, 4, 5, 6, 7, 8, -1, 1000, i32::MAX, i32::MIN] {
        assert_eq!(parse_i32(&i32_to_decimal(format)), Some(format));
    }
}

#[test]
fn chars_of_keeps_every_character() {
    assert_eq!(chars_of(""), Vec::<char>::new());
    assert_eq!(chars_of("a/ü日"), vec!['a', '/', 'ü', '日']);
}

#[test]
fn request_id_text_is_high_colon_low() {
    assert_eq!(uuid_to_string(&Uuid { msb: 1, lsb: 2 }), "1:2");
    assert_eq!(uuid_to_string(&Uuid { msb: 0, lsb: 0 }), "0:0");
    assert_eq!(
        uuid_to_string(&Uuid { msb: u64::MAX, lsb: 10 }),
        "18446744073709551615:10"
    );
    assert_eq!(
        uuid_to_string(&Uuid { msb: 0x0123_4567_89ab_cdef, lsb: 0xfedc_ba98_7654_3210 }),
        "81985529216486895:18364758544493064720"
    );
}

#[test]
fn request_id_texts_differ_where_digits_could_run_together() {
    assert_ne!(
        uuid_to_string(&Uuid { msb: 1, lsb: 23 }),
        uuid_to_string(&Uuid { msb: 12, lsb: 3 })
    );
}

#[test]
fn handle_is_key_underscore_hex() {
    assert_eq!(make_handle("up/a", 0), "up/a_0");
    assert_eq!(make_handle("up/a", 255), "up/a_FF");
    assert_eq!(make_handle("", 171), "_AB");
    assert_eq!(make_handle("up/a_b", u64::MAX), "up/a_b_FFFFFFFFFFFFFFFF");
}

#[test]
fn handles_of_one_key_differ() {
    let mut counter = 0u64;
    let mut seen = Vec::new();
    for _ in 0..40 {
        let handle = allocate_handle("up/a", &mut counter);
        assert!(!seen.contains(&handle));
        seen.push(handle);
    }
    assert_eq!(counter, 40);
    assert_eq!(seen[0], "up/a_0");
    assert_eq!(seen[10], "up/a_A");
    assert_eq!(seen[39], "up/a_27");
}

#[test]
fn handle_counter_wraps_after_the_largest() {
    let mut counter = u64::MAX;
    assert_eq!(allocate_handle("k", &mut counter), "k_FFFFFFFFFFFFFFFF");
    assert_eq!(counter, 0);
    assert_eq!(allocate_handle("k", &mut counter), "k_0");
    assert_eq!(counter, 1);
}

#[test]
fn handles_tell_key_and_number_apart() {
    assert_ne!(make_handle("up/a", 0x1F), make_handle("up/a_1", 0xF));
}
