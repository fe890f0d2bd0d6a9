//! Robustness tests for the CSV feed parser: malformed, truncated and
//! adversarial inputs must either build a scanner or return an error.

use huntsman::scanner::Scanner;

/// Drive the parser; success is "did not panic" (Ok or Err both fine).
fn drive(input: &str) {
    let _ = Scanner::from_csv(input);
}

#[test]
fn does_not_panic_on_adversarial_inputs() {
    let cases = [
        "",
        "\n\n\n",
        "type,value,malware",
        "type,value,malware\n",
        "domain",
        "x,y",
        "header\n,,,",
        "header\ndomain,,DroidJack",
        "header\ndomain,a,b,c,d,e,f",
        "header\nstring,DJ_GooDbYe:(,DroidJack",
        "header\n\u{0}\u{1}\u{2},x,y",
        "header\nstring,a\u{FFFF}b,m",
    ];
    for c in cases {
        drive(c);
    }
}

#[test]
fn does_not_panic_on_pathological_sizes() {
    // One enormous line.
    let big = format!("header\ndomain,{},m", "a".repeat(1_000_000));
    drive(&big);
    // Many tiny lines.
    let mut many = String::from("header\n");
    for i in 0..5_000 {
        many.push_str(&format!("string,v{i},m\n"));
    }
    drive(&many);
}

#[test]
fn built_scanner_never_panics_on_arbitrary_haystacks() {
    let s = Scanner::from_csv("header\ndomain,droidjack.net,DroidJack\n").unwrap();
    for bytes in [vec![], vec![0u8; 4096], (0u8..=255).cycle().take(100_000).collect()] {
        let _ = s.scan(&bytes);
    }
}
