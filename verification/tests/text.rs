use dns_lib::error::DnsError;
use dns_lib::notify::format_md2;
use dns_lib::text::{render_i32, same_text, scan_separators, trim};

fn s(text: &str) -> String {
    text.to_string()
}

#[test]
fn markdown_specials_are_escaped() {
    assert_eq!(format_md2("foo.example.com"), "foo\\.example\\.com");
    assert_eq!(format_md2("_[]()-.!"), "\\_\\[\\]\\(\\)\\-\\.\\!");
    assert_eq!(format_md2("1.2.3.4 -> 5.6.7.8!"), "1\\.2\\.3\\.4 \\-> 5\\.6\\.7\\.8\\!");
}

#[test]
fn other_characters_are_left_alone() {
    assert_eq!(format_md2(""), "");
    assert_eq!(format_md2("plain text 123"), "plain text 123");
    assert_eq!(format_md2("*~`>#+=|{}\\"), "*~`>#+=|{}\\");
    assert_eq!(format_md2("2001:db8::1"), "2001:db8::1");
    assert_eq!(format_md2("d\u{e9}j\u{e0}.vu"), "d\u{e9}j\u{e0}\\.vu");
}

#[test]
fn escaping_equals_the_chain_of_replacements() {
    let text = "a_b[c]d(e)f-g.h!i__..!!";
    let chained = text
        .replace("_", "\\_")
        .replace("[", "\\[")
        .replace("]", "\\]")
        .replace("(", "\\(")
        .replace(")", "\\)")
        .replace("-", "\\-")
        .replace(".", "\\.")
        .replace("!", "\\!");
    assert_eq!(format_md2(text), chained);
}

#[test]
fn trim_removes_unicode_white_space_at_both_ends_only() {
    assert_eq!(trim("  a  b  "), "a  b");
    assert_eq!(trim("\u{3000}\u{a0}1.2.3.4\u{2003}\n"), "1.2.3.4");
    assert_eq!(trim("\u{200b}x\u{200b}"), "\u{200b}x\u{200b}");
    assert_eq!(trim("x"), "x");
    assert_eq!(trim(""), "");
    assert_eq!(trim("\r\n\t "), "");
    for text in ["", " ", " a", "a ", " a b ", "\n\u{85}z\u{2028}"] {
        assert_eq!(trim(text), text.trim());
    }
}

#[test]
fn integers_are_written_in_decimal() {
    assert_eq!(render_i32(0), "0");
    assert_eq!(render_i32(7), "7");
    assert_eq!(render_i32(10), "10");
    assert_eq!(render_i32(-1), "-1");
    assert_eq!(render_i32(81057), "81057");
    assert_eq!(render_i32(i32::MAX), "2147483647");
    assert_eq!(render_i32(i32::MIN), "-2147483648");
    for n in [-1000, -999, -10, -9, 9, 99, 100, 101, 12345] {
        assert_eq!(render_i32(n), n.to_string());
    }
}

#[test]
fn texts_compare_by_content() {
    assert!(same_text("", ""));
    assert!(same_text("1.2.3.4", "1.2.3.4"));
    assert!(!same_text("1.2.3.4", "1.2.3.5"));
    assert!(!same_text("1.2.3.4", "1.2.3.4 "));
}

#[test]
fn scan_reports_the_last_two_separators() {
    let none = scan_separators("abc", '.');
    assert_eq!((none.len, none.last, none.prev), (3, None, None));
    let one = scan_separators("a.bc", '.');
    assert_eq!((one.len, one.last, one.prev), (4, Some(1), None));
    let many = scan_separators("a.b.c.d", '.');
    assert_eq!((many.len, many.last, many.prev), (7, Some(5), Some(3)));
    let wide = scan_separators("\u{e9}.\u{e9}", '.');
    assert_eq!((wide.len, wide.last, wide.prev), (3, Some(1), None));
}

#[test]
fn errors_have_messages() {
    assert_eq!(
        DnsError::InvalidDomainFormat { domain: s("invalid") }.message(),
        "Invalid domain format: invalid"
    );
    assert_eq!(
        DnsError::NoZoneFound { zone: s("example.com") }.message(),
        "No zone found for domain: example.com"
    );
    assert_eq!(
        DnsError::ProviderRejected { detail: s("1003: Invalid token") }.message(),
        "Cloudflare API error: 1003: Invalid token"
    );
    assert_eq!(
        DnsError::MalformedResponse { body: s("<html>"), reason: s("expected value") }.message(),
        "expected value"
    );
    assert_eq!(DnsError::OperationFailed { detail: s("timed out") }.message(), "timed out");
    assert_eq!(
        DnsError::MissingCredential { domain: s("foo.example.com") }.message(),
        "No token available for domain foo.example.com"
    );
}
