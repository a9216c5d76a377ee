use droplink::protocol::{frame_line, unframe_line};
use droplink::text::{decimal, format_ipv4, lower_hex};

#[test]
fn decimal_text_has_no_leading_zeros() {
    assert_eq!(decimal(0), "0");
    assert_eq!(decimal(7), "7");
    assert_eq!(decimal(10), "10");
    assert_eq!(decimal(65536), "65536");
    assert_eq!(decimal(u64::MAX), "18446744073709551615");
}

#[test]
fn lower_hex_writes_two_digits_per_byte() {
    assert_eq!(lower_hex(&[10, 20, 30]), "0a141e");
    assert_eq!(lower_hex(&[0, 255, 171]), "00ffab");
    assert_eq!(lower_hex(&[]), "");
}

#[test]
fn ipv4_text_is_dotted_decimal() {
    assert_eq!(format_ipv4([192, 168, 1, 42]), "192.168.1.42");
    assert_eq!(format_ipv4([0, 0, 0, 0]), "0.0.0.0");
    assert_eq!(format_ipv4([255, 10, 0, 1]), "255.10.0.1");
}

#[test]
fn lines_are_framed_and_trimmed() {
    assert_eq!(frame_line("{\"type\":\"DONE\"}"), "{\"type\":\"DONE\"}\n");
    assert_eq!(unframe_line("{\"type\":\"DONE\"}\n"), "{\"type\":\"DONE\"}");
    assert_eq!(unframe_line("  \t{\"a\":1}\r\n"), "{\"a\":1}");
    assert_eq!(unframe_line("\u{3000}x y\u{a0}"), "x y");
    assert_eq!(unframe_line(" \n "), "");
    assert_eq!(unframe_line(""), "");
}
