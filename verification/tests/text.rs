use parity::text::{
    decimal_text, is_blank, is_white_space, join_path, parse_unsigned, replace_text,
    signed_decimal_text,
};
use parity::u256::U256;
use std::path::PathBuf;

#[test]
fn numbers_are_written_in_decimal() {
    for n in [0u64, 1, 9, 10, 99, 100, 1234567890, u64::MAX] {
        assert_eq!(decimal_text(n), n.to_string());
        assert_eq!(parse_unsigned(&decimal_text(n), u64::MAX), Some(n));
    }
    for n in [0i128, -1, 1, -10, i64::MIN as i128, i64::MAX as i128] {
        assert_eq!(signed_decimal_text(n), n.to_string());
    }
}

#[test]
fn numbers_are_read_as_the_standard_library_reads_them() {
    for s in [
        "", "0", "00", "7", "+7", "-7", "-0", "+", "++7", " 7", "7 ", "7a", "\u{663}",
        "4294967295", "4294967296", "18446744073709551615", "18446744073709551616",
        "99999999999999999999999999",
    ] {
        assert_eq!(parse_unsigned(s, u64::MAX), s.parse::<u64>().ok(), "{}", s);
        assert_eq!(
            parse_unsigned(s, u32::MAX as u64),
            s.parse::<u32>().ok().map(|n| n as u64),
            "{}",
            s
        );
    }
}

#[test]
fn white_space_is_that_of_the_standard_library() {
    for n in 0..0x110000u32 {
        if let Some(c) = char::from_u32(n) {
            assert_eq!(is_white_space(c), c.is_whitespace());
        }
    }
    for s in ["", " ", "\t\n", "\u{3000}", "x", " x "] {
        assert_eq!(is_blank(s), s.trim().is_empty());
    }
}

#[test]
fn texts_are_replaced_as_the_standard_library_replaces_them() {
    for s in ["", "$HOME", "$HOME/x", "a$HOMEb$HOME", "$HOM", "$$HOME", "\u{e4}$HOME\u{e4}"] {
        for to in ["", "/home/eve", "$HOME", "\u{e9}"] {
            assert_eq!(replace_text(s, "$HOME", to), s.replace("$HOME", to));
        }
    }
    assert_eq!(replace_text("aaaa", "aa", "b"), "aaaa".replace("aa", "b"));
    assert_eq!(replace_text("aaa", "aa", "b"), "ba");
}

#[test]
fn paths_are_joined_as_the_standard_library_joins_them() {
    for dir in ["", "/", "/a", "/a/", "a", "a//", "\u{e4}"] {
        let mut path = PathBuf::from(dir);
        path.push("network");
        assert_eq!(join_path(dir, "network"), path.to_str().unwrap());
    }
}

#[test]
fn wide_numbers_are_subtracted_and_divided() {
    let small = U256([7, 0, 0, 0]);
    let big = U256([0, 0, 0, 1]);
    assert!(big.at_least(&small) && !small.at_least(&big) && big.at_least(&big));
    assert_eq!(big.minus(&small), U256([u64::MAX - 6, u64::MAX, u64::MAX, 0]));
    assert_eq!(big.minus(&big), U256([0, 0, 0, 0]));
    let (q, r) = U256([0, 1, 0, 0]).div_rem(10);
    assert_eq!((q, r), (U256([1844674407370955161, 0, 0, 0]), 6));
    assert_eq!(U256([0, 0, 0, 0]).decimal_text(), "0");
    assert_eq!(U256([10, 0, 0, 0]).decimal_text(), "10");
    assert_eq!(U256([0, 1, 0, 0]).decimal_text(), "18446744073709551616");
    assert_eq!(U256([5, 3, 0, 0]).decimal_text(), ((3u128 << 64) + 5).to_string());
    assert_eq!(
        U256([u64::MAX, u64::MAX, u64::MAX, u64::MAX]).decimal_text(),
        "115792089237316195423570985008687907853269984665640564039457584007913129639935"
    );
}
