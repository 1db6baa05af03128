use coinswap_btcpay::text::{
    before_first, decimal_text, parse_number, same_text, sats, shorten, split_last, strip_prefix,
    trim,
};

#[test]
fn sats_are_grouped_so_a_bond_amount_can_be_read() {
    assert_eq!(sats(0), "0 sats");
    assert_eq!(sats(999), "999 sats");
    assert_eq!(sats(1_000), "1,000 sats");
    assert_eq!(sats(5_000_000), "5,000,000 sats");
}

#[test]
fn the_largest_amount_is_grouped_too() {
    assert_eq!(sats(u64::MAX), "18,446,744,073,709,551,615 sats");
    assert_eq!(
        sats(u64::MAX).replace([',', ' '], ""),
        format!("{}sats", u64::MAX)
    );
}

#[test]
fn decimals_are_what_the_standard_library_writes() {
    for n in [0, 7, 10, 99, 100, 12_960, 1_000_000_007, u64::MAX] {
        assert_eq!(decimal_text(n), n.to_string());
        assert_eq!(parse_number(&decimal_text(n), u64::MAX), Some(n));
    }
}

#[test]
fn numbers_are_read_as_the_standard_library_reads_them() {
    for raw in [
        "", "+", "-", "-0", "+0", "007", "65535", "65536", "+65535", " 1", "1 ", "1_000", "1.0",
        "12a", "99999999999999999999", "00000000000000000000000001", "\u{663}",
    ] {
        assert_eq!(
            parse_number(raw, 65_535),
            raw.parse::<u16>().ok().map(u64::from),
            "{raw:?}"
        );
        assert_eq!(parse_number(raw, u64::MAX), raw.parse::<u64>().ok(), "{raw:?}");
    }
    assert_eq!(parse_number("18446744073709551615", u64::MAX), Some(u64::MAX));
    assert_eq!(parse_number("18446744073709551616", u64::MAX), None);
    assert_eq!(parse_number("18446744073709551620", u64::MAX), None);
}

#[test]
fn trimming_is_what_the_standard_library_does() {
    for raw in [
        "", " ", "\u{3000}\t a b \r\n", "x", "\u{a0}x\u{85}", "\u{200b}x", "\u{2028}y\u{205f}",
        "\u{180e}z\u{feff}", "\u{b} w \u{1c}", "\u{1680}v\u{2000}\u{200a}\u{202f}",
    ] {
        assert_eq!(trim(raw), raw.trim(), "{raw:?}");
    }
}

#[test]
fn every_white_space_character_is_trimmed_and_no_other() {
    for c in '\u{0}'..='\u{ffff}' {
        let raw = format!("{c}x{c}");
        assert_eq!(trim(&raw), raw.trim(), "{c:?}");
    }
}

#[test]
fn parts_of_a_text() {
    assert_eq!(strip_prefix("http://x", "http://"), Some("x"));
    assert_eq!(strip_prefix("http:/", "http://"), None);
    assert_eq!(strip_prefix("https://x", "http://"), None);
    assert_eq!(strip_prefix("ab", ""), Some("ab"));
    assert_eq!(before_first("a/b/c", '/'), "a");
    assert_eq!(before_first("abc", '/'), "abc");
    assert_eq!(before_first("/abc", '/'), "");
    assert_eq!(split_last("a:b:c", ':'), Some(("a:b", "c")));
    assert_eq!(split_last(":", ':'), Some(("", "")));
    assert_eq!(split_last("abc", ':'), None);
    assert_eq!(shorten("äbcdef", 2), "äb");
    assert_eq!(shorten("ab", 16), "ab");
    assert!(same_text("ab", "ab"));
    assert!(!same_text("ab", "abc"));
}
