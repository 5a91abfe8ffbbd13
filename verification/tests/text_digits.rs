use xrpl::text::{i64_to_decimal, parse_u64, str_eq, u64_to_decimal};

#[test]
fn unsigned_decimal_text() {
    for n in [0u64, 7, 10, 99, 100, 123456789, u64::MAX] {
        assert_eq!(u64_to_decimal(n), n.to_string());
    }
}

#[test]
fn signed_decimal_text() {
    for n in [0i64, 1, -1, 42, -42, i64::MAX, i64::MIN, i64::MIN + 1] {
        assert_eq!(i64_to_decimal(n), n.to_string());
    }
}

#[test]
fn parse_reads_like_std() {
    let cases = [
        "", "+", "-", "0", "+0", "00042", "42", "+42", "-42", "4a2", " 42", "42 ",
        "18446744073709551615", "18446744073709551616", "99999999999999999999", "١٢",
    ];
    for c in cases {
        assert_eq!(parse_u64(c), c.parse::<u64>().ok(), "input {:?}", c);
    }
}

#[test]
fn parse_then_write_gives_the_digits_back() {
    for n in [0u64, 5, 1000, 98765, u64::MAX] {
        assert_eq!(parse_u64(&u64_to_decimal(n)), Some(n));
    }
}

#[test]
fn strings_compare_by_characters() {
    assert!(str_eq("", ""));
    assert!(str_eq("rAccount", "rAccount"));
    assert!(!str_eq("rAccount", "raccount"));
    assert!(!str_eq("abc", "abcd"));
    assert!(str_eq("héllo", "héllo"));
    assert!(!str_eq("é", "e"));
}
