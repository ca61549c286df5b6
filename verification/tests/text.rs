use elmulator::text::{str_equal, trim_line_ending};

#[test]
fn trim_leaves_a_bare_command() {
    assert_eq!(trim_line_ending("ATZ"), "ATZ");
}

#[test]
fn trim_removes_a_carriage_return() {
    assert_eq!(trim_line_ending("ATZ\r"), "ATZ");
}

#[test]
fn trim_removes_every_trailing_line_ending() {
    assert_eq!(trim_line_ending("ATZ\r\n"), "ATZ");
    assert_eq!(trim_line_ending("ATZ\n\r\n\r"), "ATZ");
}

#[test]
fn trim_keeps_inner_and_leading_line_endings() {
    assert_eq!(trim_line_ending("\rAT\nZ\r"), "\rAT\nZ");
}

#[test]
fn trim_keeps_other_whitespace() {
    assert_eq!(trim_line_ending("ATZ \r"), "ATZ ");
    assert_eq!(trim_line_ending("ATZ\t"), "ATZ\t");
    assert_eq!(trim_line_ending(" ATZ"), " ATZ");
}

#[test]
fn trim_of_nothing_but_line_endings_is_empty() {
    assert_eq!(trim_line_ending(""), "");
    assert_eq!(trim_line_ending("\r"), "");
    assert_eq!(trim_line_ending("\r\n\r\n"), "");
}

#[test]
fn trim_counts_characters_and_not_bytes() {
    assert_eq!(trim_line_ending("\u{e9}t\u{e9}\r\n"), "\u{e9}t\u{e9}");
    assert_eq!(trim_line_ending("\u{1F697}\r"), "\u{1F697}");
}

#[test]
fn trim_twice_is_trim_once() {
    for line in ["ATZ\r\n", "ATRV", "\r\n", "21\r0C01\r"] {
        assert_eq!(trim_line_ending(trim_line_ending(line)), trim_line_ending(line));
    }
}

#[test]
fn str_equal_is_exact() {
    assert!(str_equal("ATZ", "ATZ"));
    assert!(str_equal("", ""));
    assert!(!str_equal("ATZ", "atz"));
    assert!(!str_equal("ATZ", "ATZ "));
    assert!(!str_equal("ATZ", "AT"));
    assert!(!str_equal("AT", "ATZ"));
    assert!(!str_equal("ATS0", "ATM0"));
    assert!(str_equal("\u{e9}", "\u{e9}"));
    assert!(!str_equal("\u{e9}", "e"));
}
