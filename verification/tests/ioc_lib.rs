use huntsman::ioc::Confidence;
use huntsman::json::{hit_line, json_escape};
use huntsman::scanner::{Error, Scanner};

#[test]
fn skips_overlong_indicator_values() {
    // A pathologically long row must not reach the automaton builder; here the
    // only content row is over-length, so the feed yields no indicators.
    let feed = format!("type,value,malware\ndomain,{},m\n", "a".repeat(10_000));
    assert!(matches!(Scanner::from_csv(&feed), Err(Error::NoIndicators)));

    // A normal-length row alongside an over-length one keeps the good one.
    let feed = format!("type,value,malware\ndomain,evil.example,M\nstring,{},N\n", "b".repeat(10_000));
    let s = Scanner::from_csv(&feed).unwrap();
    assert_eq!(s.len(), 1);
    assert!(!s.scan(b"go to evil.example now").is_empty());
}

#[test]
fn confidence_filter_still_applies() {
    let feed = "type,value,malware,context,confidence\n\
                domain,low.example,M,,low\n\
                domain,high.example,M,,high\n";
    let s = Scanner::from_csv_min(feed, Confidence::High).unwrap();
    assert_eq!(s.len(), 1);
}

#[test]
fn escapes_quote_and_backslash() {
    assert_eq!(json_escape(r#"a"b\c"#), r#"a\"b\\c"#);
}

#[test]
fn escapes_control_chars() {
    assert_eq!(json_escape("x\ny\tz"), "x\\ny\\tz");
    assert_eq!(json_escape("\u{01}"), "\\u0001");
}

#[test]
fn passes_through_plain_and_unicode() {
    assert_eq!(json_escape("droidjack.net"), "droidjack.net");
    assert_eq!(json_escape("café"), "café");
}

#[test]
fn escapes_every_short_form_control() {
    assert_eq!(json_escape("\u{08}\u{0c}\r"), "\\b\\f\\r");
    assert_eq!(json_escape("\u{1f}"), "\\u001f");
}

#[test]
fn hit_line_tab_format() {
    let line = hit_line(false, "/tmp/x.bin", 42, "DroidJack", "domain", "droidjack.net");
    assert_eq!(line, "/tmp/x.bin:42\tDroidJack\tdomain=droidjack.net");
}

#[test]
fn hit_line_json_format() {
    let line = hit_line(true, "a\"b", 0, "M", "sha256", "v\\w");
    assert_eq!(
        line,
        r#"{"file":"a\"b","offset":0,"malware":"M","kind":"sha256","value":"v\\w"}"#
    );
    let big = hit_line(false, "p", 1234567890, "m", "k", "v");
    assert_eq!(big, "p:1234567890\tm\tk=v");
}

#[test]
fn confidence_parse_grades() {
    assert!(Confidence::parse("HIGH") == Confidence::High);
    assert!(Confidence::parse("medium") == Confidence::Medium);
    assert!(Confidence::parse("anything else") == Confidence::Low);
}

#[test]
fn error_message_names_the_problem() {
    let err = Scanner::from_csv("type,value,malware\n").err().unwrap();
    assert!(!err.message().is_empty());
}

#[test]
fn escaped_text_is_a_valid_json_string_with_the_same_value() {
    for s in ["plain", "quote \" and \\ backslash", "ctl \u{1}\u{1f}\n\t\r\u{8}\u{c}", "unicode ✓ é", ""] {
        let quoted = format!("\"{}\"", json_escape(s));
        let back: String = serde_json::from_str(&quoted).unwrap();
        assert_eq!(back, s);
        assert!(json_escape(s).chars().all(|c| c as u32 >= 0x20));
    }
    assert_eq!(json_escape("no escapes here"), "no escapes here");
}
