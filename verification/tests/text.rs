use nightraid::text::char_is_whitespace;
use nightraid::text::str_eq;
use nightraid::text::trim;

#[test]
fn trim_removes_leading_and_trailing_spaces() {
    assert_eq!(trim("  ping  "), "ping");
    assert_eq!(trim("ping"), "ping");
    assert_eq!(trim("\tlogin abc\r\n"), "login abc");
}

#[test]
fn trim_keeps_interior_whitespace() {
    assert_eq!(trim("  login  \"a  b\"  "), "login  \"a  b\"");
    assert_eq!(trim(" a \t b \n c "), "a \t b \n c");
}

#[test]
fn trim_of_blank_and_empty_is_empty() {
    assert_eq!(trim(""), "");
    assert_eq!(trim(" "), "");
    assert_eq!(trim(" \t\r\n\u{b}\u{c} "), "");
    assert_eq!(trim("\u{3000}\u{2028}"), "");
}

#[test]
fn trim_knows_whitespace_beyond_ascii() {
    assert_eq!(trim("\u{a0}ping\u{3000}"), "ping");
    assert_eq!(trim("\u{85}\u{1680}\u{2000}x\u{200a}\u{2029}\u{202f}\u{205f}"), "x");
}

#[test]
fn trim_keeps_what_only_looks_like_whitespace() {
    assert_eq!(trim("\u{200b}ping\u{200b}"), "\u{200b}ping\u{200b}");
    assert_eq!(trim("\u{feff}ping"), "\u{feff}ping");
    assert_eq!(trim("\u{1c}x"), "\u{1c}x");
}

#[test]
fn trim_handles_multibyte_text() {
    assert_eq!(trim("  héllo wörld  "), "héllo wörld");
    assert_eq!(trim(" 日本語 "), "日本語");
    assert_eq!(trim("\u{1f600} "), "\u{1f600}");
    assert_eq!(trim(" x"), "x");
    assert_eq!(trim("x "), "x");
}

#[test]
fn trim_agrees_with_the_standard_library() {
    let samples = [
        "",
        " ",
        "a",
        " a",
        "a ",
        " a ",
        "  a  b  ",
        "\n\n\n",
        "\t\tlogin \"tok en\"\t\t",
        "\u{a0}\u{a0}quit\u{a0}",
        "\u{2003}é\u{2003}",
        "ping\u{0}",
        "\u{0} ping",
        "p i n g",
    ];
    for sample in samples {
        assert_eq!(trim(sample), sample.trim());
    }
}

#[test]
fn whitespace_is_what_the_standard_library_calls_whitespace() {
    let mut count = 0;
    for code in 0u32..=0x10ffff {
        if let Some(c) = char::from_u32(code) {
            assert_eq!(char_is_whitespace(c), c.is_whitespace());
            if char_is_whitespace(c) {
                count += 1;
            }
        }
    }
    assert_eq!(count, 25);
}

#[test]
fn str_eq_compares_by_content() {
    assert!(str_eq("", ""));
    assert!(str_eq("ping", "ping"));
    assert!(str_eq("héllo", "héllo"));
    assert!(!str_eq("ping", "pong"));
    assert!(!str_eq("ping", "pin"));
    assert!(!str_eq("pin", "ping"));
    assert!(!str_eq("", "x"));
    assert!(!str_eq("Ping", "ping"));
    let owned = String::from("lo") + "gin";
    assert!(str_eq(&owned, "login"));
}
