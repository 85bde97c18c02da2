use monitor_controller::text::{decimal_string, hex_string, parse_u16, parse_u32, sorted_strings, str_less, trim};

#[test]
fn decimal_string_writes_plain_decimal() {
    assert_eq!(decimal_string(0), "0");
    assert_eq!(decimal_string(7), "7");
    assert_eq!(decimal_string(8080), "8080");
    assert_eq!(decimal_string(65535), "65535");
    assert_eq!(decimal_string(u64::MAX), u64::MAX.to_string());
}

#[test]
fn hex_string_pads_to_width() {
    assert_eq!(hex_string(0, 8), "00000000");
    assert_eq!(hex_string(0xbeef, 8), "0000beef");
    assert_eq!(hex_string(0xdeadbeef, 8), "deadbeef");
    assert_eq!(hex_string(0x1_2345_6789, 8), "23456789");
    assert_eq!(hex_string(5, 0), "");
}

#[test]
fn decimal_round_trip_on_ports() {
    for p in [0u16, 1, 9, 10, 99, 100, 7000, 9123, 65535] {
        assert_eq!(parse_u16(&decimal_string(p as u64)), Some(p));
    }
}

#[test]
fn parse_reads_decimal_numbers_that_fit() {
    assert_eq!(parse_u16("8080"), Some(8080));
    assert_eq!(parse_u16("+12"), Some(12));
    assert_eq!(parse_u16("65536"), None);
    assert_eq!(parse_u16(""), None);
    assert_eq!(parse_u16("+"), None);
    assert_eq!(parse_u16("12a"), None);
    assert_eq!(parse_u16(" 12"), None);
    assert_eq!(parse_u16("-1"), None);
    assert_eq!(parse_u32("4294967295"), Some(4294967295));
    assert_eq!(parse_u32("4294967296"), None);
    assert_eq!(parse_u32("007"), Some(7));
}

#[test]
fn trim_drops_outer_whitespace_only() {
    assert_eq!(trim("  7444 \n"), "7444");
    assert_eq!(trim("a b"), "a b");
    assert_eq!(trim("   "), "");
    assert_eq!(trim("\u{3000}x\t"), "x");
}

#[test]
fn names_sort_by_characters() {
    assert!(str_less("5.1", "7.1"));
    assert!(str_less("Stereo", "Stereo2"));
    assert!(!str_less("b", "a"));
    assert!(!str_less("a", "a"));
    let names = vec!["7.1.4".to_string(), "Stereo".to_string(), "5.1".to_string()];
    assert_eq!(sorted_strings(&names), vec!["5.1".to_string(), "7.1.4".to_string(), "Stereo".to_string()]);
}
