//! JSON string escaping (RFC 8259 §7) and the one-line hit reports built with it.

use vstd::prelude::*;
use crate::text::{chars_of, push_char, push_str};

verus! {

broadcast use vstd::string::group_string_axioms;

/// The lower-case hexadecimal digit of `d < 16`.
pub open spec fn hex_digit(d: nat) -> char {
    if d < 10 {
        ((48 + d) as u32) as char
    } else {
        ((87 + d) as u32) as char
    }
}

/// The escape sequence that stands for `c` inside a JSON string literal.
pub open spec fn escape_char(c: char) -> Seq<char> {
    if c == '"' {
        seq!['\\', '"']
    } else if c == '\\' {
        seq!['\\', '\\']
    } else if c == '\n' {
        seq!['\\', 'n']
    } else if c == '\r' {
        seq!['\\', 'r']
    } else if c == '\t' {
        seq!['\\', 't']
    } else if c == '\u{08}' {
        seq!['\\', 'b']
    } else if c == '\u{0c}' {
        seq!['\\', 'f']
    } else if (c as u32) < 0x20 {
        seq!['\\', 'u', '0', '0', hex_digit((c as u32 / 16) as nat), hex_digit((c as u32 % 16) as nat)]
    } else {
        seq![c]
    }
}

/// `s` escaped for embedding in a JSON string literal.
pub open spec fn json_escaped(s: Seq<char>) -> Seq<char>
    decreases s.len(),
{
    if s.len() == 0 {
        Seq::empty()
    } else {
        json_escaped(s.drop_last()) + escape_char(s.last())
    }
}

/// The value of a hexadecimal digit, if `c` is one.
pub open spec fn hex_value(c: char) -> Option<nat> {
    if '0' <= c <= '9' {
        Some((c as u32 - 48) as nat)
    } else if 'a' <= c <= 'f' {
        Some((c as u32 - 87) as nat)
    } else if 'A' <= c <= 'F' {
        Some((c as u32 - 55) as nat)
    } else {
        None
    }
}

/// The characters a JSON string literal's content denotes: the decoding a
/// JSON reader applies to the text between the quotes.
pub open spec fn json_unescaped(t: Seq<char>) -> Seq<char>
    decreases t.len(),
{
    if t.len() == 0 {
        Seq::empty()
    } else if t[0] == '\\' && t.len() >= 2 {
        let e = t[1];
        if e == '"' || e == '\\' || e == '/' {
            seq![e] + json_unescaped(t.skip(2))
        } else if e == 'n' {
            seq!['\n'] + json_unescaped(t.skip(2))
        } else if e == 'r' {
            seq!['\r'] + json_unescaped(t.skip(2))
        } else if e == 't' {
            seq!['\t'] + json_unescaped(t.skip(2))
        } else if e == 'b' {
            seq!['\u{08}'] + json_unescaped(t.skip(2))
        } else if e == 'f' {
            seq!['\u{0c}'] + json_unescaped(t.skip(2))
        } else if e == 'u' && t.len() >= 6 && hex_value(t[2]) is Some && hex_value(t[3]) is Some
            && hex_value(t[4]) is Some && hex_value(t[5]) is Some {
            let v = hex_value(t[2])->0 * 4096 + hex_value(t[3])->0 * 256 + hex_value(t[4])->0 * 16
                + hex_value(t[5])->0;
            seq![(v as u32) as char] + json_unescaped(t.skip(6))
        } else {
            seq![t[0]] + json_unescaped(t.skip(1))
        }
    } else {
        seq![t[0]] + json_unescaped(t.skip(1))
    }
}

/// `t` holds no raw control character, as the content of a JSON string must.
pub open spec fn free_of_controls(t: Seq<char>) -> bool {
    forall|i: int| 0 <= i < t.len() ==> (#[trigger] t[i] as u32) >= 0x20
}

proof fn lemma_escaped_front(s: Seq<char>)
    requires
        s.len() > 0,
    ensures
        json_escaped(s) == escape_char(s[0]) + json_escaped(s.drop_first()),
    decreases s.len(),
{
    if s.len() == 1 {
        reveal_with_fuel(json_escaped, 2);
        assert(s.drop_last() =~= Seq::<char>::empty());
        assert(json_escaped(s.drop_first()) =~= Seq::<char>::empty());
        assert(s.drop_first() =~= Seq::<char>::empty());
        assert(json_escaped(s) =~= escape_char(s[0]));
    } else {
        lemma_escaped_front(s.drop_last());
        assert(s.drop_last().drop_first() =~= s.drop_first().drop_last());
        assert(s.drop_last()[0] == s[0]);
        assert(s.drop_first().last() == s.last());
        assert(json_escaped(s) =~= escape_char(s[0]) + json_escaped(s.drop_first()));
    }
}

proof fn lemma_escape_char_roundtrip(c: char, rest: Seq<char>)
    ensures
        json_unescaped(escape_char(c) + rest) == seq![c] + json_unescaped(rest),
{
    let t = escape_char(c) + rest;
    let n = c as u32;
    if c == '"' || c == '\\' || c == '\n' || c == '\r' || c == '\t' || c == '\u{08}' || c
        == '\u{0c}' {
        assert(t.skip(2) =~= rest);
    } else if n < 0x20 {
        assert(t.skip(6) =~= rest);
        let hi = (n / 16) as nat;
        let lo = (n % 16) as nat;
        assert(hi < 2);
        assert(hex_value(hex_digit(0)) == Some(0nat));
        assert(hex_value(hex_digit(hi)) == Some(hi));
        assert(hex_value(hex_digit(lo)) == Some(lo));
        assert(hi * 16 + lo == n);
        assert((n as u32) as char == c);
    } else {
        assert(t.skip(1) =~= rest);
    }
}

/// The decoding of an escaped string is the string itself.
pub proof fn lemma_json_escape_roundtrip(s: Seq<char>)
    ensures
        json_unescaped(json_escaped(s)) == s,
    decreases s.len(),
{
    if s.len() > 0 {
        lemma_escaped_front(s);
        lemma_escape_char_roundtrip(s[0], json_escaped(s.drop_first()));
        lemma_json_escape_roundtrip(s.drop_first());
        assert(seq![s[0]] + s.drop_first() =~= s);
    }
}

/// An escaped string holds no raw control character.
pub proof fn lemma_json_escape_free_of_controls(s: Seq<char>)
    ensures
        free_of_controls(json_escaped(s)),
    decreases s.len(),
{
    if s.len() > 0 {
        lemma_json_escape_free_of_controls(s.drop_last());
        let a = json_escaped(s.drop_last());
        let b = escape_char(s.last());
        assert forall|i: int| 0 <= i < b.len() implies (#[trigger] b[i] as u32) >= 0x20 by {
            let n = s.last() as u32;
            if n < 0x20 && !(s.last() == '\n' || s.last() == '\r' || s.last() == '\t' || s.last()
                == '\u{08}' || s.last() == '\u{0c}') {
                assert(n / 16 < 2);
            }
        }
        assert forall|i: int| 0 <= i < (a + b).len() implies ((#[trigger] (a + b)[i]) as u32) >= 0x20 by {
            if i < a.len() {
                assert((a + b)[i] == a[i]);
            } else {
                assert((a + b)[i] == b[i - a.len()]);
            }
        }
    }
}

/// `c` may follow a backslash as a one-character escape (RFC 8259 §7).
pub open spec fn short_escape(c: char) -> bool {
    c == '"' || c == '\\' || c == '/' || c == 'b' || c == 'f' || c == 'n' || c == 'r' || c == 't'
}

/// `t` is a valid content of a JSON string literal (RFC 8259 §7): unescaped
/// characters (from U+0020 up, but neither a quote nor a backslash), the
/// two-character escapes of a quote, backslash, slash, b, f, n, r and t, and
/// `\u` followed by four hexadecimal digits.
pub open spec fn json_string_body(t: Seq<char>) -> bool
    decreases t.len(),
{
    if t.len() == 0 {
        true
    } else if t[0] == '\\' {
        if t.len() >= 2 && short_escape(t[1]) {
            json_string_body(t.skip(2))
        } else if t.len() >= 6 && t[1] == 'u' && hex_value(t[2]) is Some && hex_value(t[3]) is Some
            && hex_value(t[4]) is Some && hex_value(t[5]) is Some {
            json_string_body(t.skip(6))
        } else {
            false
        }
    } else {
        t[0] != '"' && (t[0] as u32) >= 0x20 && json_string_body(t.skip(1))
    }
}

/// `q` is a valid JSON string literal: quotes around a valid content.
pub open spec fn json_string_literal(q: Seq<char>) -> bool {
    &&& q.len() >= 2
    &&& q[0] == '"'
    &&& q.last() == '"'
    &&& json_string_body(q.subrange(1, q.len() - 1))
}

proof fn lemma_escape_char_valid(c: char, rest: Seq<char>)
    requires
        json_string_body(rest),
    ensures
        json_string_body(escape_char(c) + rest),
{
    let t = escape_char(c) + rest;
    let n = c as u32;
    if c == '"' || c == '\\' || c == '\n' || c == '\r' || c == '\t' || c == '\u{08}' || c
        == '\u{0c}' {
        assert(t.skip(2) =~= rest);
    } else if n < 0x20 {
        assert(t.skip(6) =~= rest);
        let hi = (n / 16) as nat;
        let lo = (n % 16) as nat;
        assert(hi < 2);
        assert(hex_value(hex_digit(0)) == Some(0nat));
        assert(hex_value(hex_digit(hi)) == Some(hi));
        assert(hex_value(hex_digit(lo)) == Some(lo));
    } else {
        assert(t.skip(1) =~= rest);
    }
}

proof fn lemma_json_escape_body(s: Seq<char>)
    ensures
        json_string_body(json_escaped(s)),
    decreases s.len(),
{
    if s.len() > 0 {
        lemma_escaped_front(s);
        lemma_json_escape_body(s.drop_first());
        lemma_escape_char_valid(s[0], json_escaped(s.drop_first()));
    }
}

proof fn lemma_json_escape_plain(s: Seq<char>)
    requires
        forall|i: int| 0 <= i < s.len() ==> #[trigger] s[i] != '"' && s[i] != '\\' && (s[i] as u32) >= 0x20,
    ensures
        json_escaped(s) == s,
    decreases s.len(),
{
    if s.len() > 0 {
        lemma_json_escape_plain(s.drop_last());
        let c = s.last();
        assert(c == s[s.len() - 1]);
        assert(escape_char(c) == seq![c]);
        assert(s.drop_last().push(c) =~= s);
        assert(json_escaped(s) =~= json_escaped(s.drop_last()) + seq![c]);
    }
}

/// What RFC 8259 asks of an escaped string: between quotes it is a valid JSON
/// string literal, its decoding is `s`, it holds no character below U+0020,
/// and a string without quotes, backslashes or control characters is copied
/// unchanged.
pub proof fn lemma_json_escape_rfc8259(s: Seq<char>)
    ensures
        json_string_literal(seq!['"'] + json_escaped(s) + seq!['"']),
        json_unescaped(json_escaped(s)) == s,
        free_of_controls(json_escaped(s)),
        (forall|i: int| 0 <= i < s.len() ==> #[trigger] s[i] != '"' && s[i] != '\\' && (s[i] as u32) >= 0x20)
            ==> json_escaped(s) == s,
{
    lemma_json_escape_body(s);
    lemma_json_escape_roundtrip(s);
    lemma_json_escape_free_of_controls(s);
    let q = seq!['"'] + json_escaped(s) + seq!['"'];
    assert(q.subrange(1, q.len() - 1) =~= json_escaped(s));
    if forall|i: int| 0 <= i < s.len() ==> #[trigger] s[i] != '"' && s[i] != '\\' && (s[i] as u32) >= 0x20 {
        lemma_json_escape_plain(s);
    }
}

/// The lower-case hexadecimal digit of `d < 16`.
pub(crate) fn hex_char(d: u32) -> (c: char)
    requires
        d < 16,
    ensures
        c == hex_digit(d as nat),
{
    if d < 10 {
        let b = (48 + d) as u8;
        b as char
    } else {
        let b = (87 + d) as u8;
        b as char
    }
}

/// Appends the escape sequence of `c`.
fn push_escaped(out: &mut String, c: char)
    ensures
        final(out)@ == old(out)@ + escape_char(c),
{
    let n = c as u32;
    if c == '"' {
        push_char(out, '\\');
        push_char(out, '"');
    } else if c == '\\' {
        push_char(out, '\\');
        push_char(out, '\\');
    } else if c == '\n' {
        push_char(out, '\\');
        push_char(out, 'n');
    } else if c == '\r' {
        push_char(out, '\\');
        push_char(out, 'r');
    } else if c == '\t' {
        push_char(out, '\\');
        push_char(out, 't');
    } else if c == '\u{08}' {
        push_char(out, '\\');
        push_char(out, 'b');
    } else if c == '\u{0c}' {
        push_char(out, '\\');
        push_char(out, 'f');
    } else if n < 0x20 {
        push_char(out, '\\');
        push_char(out, 'u');
        push_char(out, '0');
        push_char(out, '0');
        push_char(out, hex_char(n / 16));
        push_char(out, hex_char(n % 16));
    } else {
        push_char(out, c);
    }
    assert(final(out)@ =~= old(out)@ + escape_char(c));
}

/// Escapes a string for embedding in a JSON string literal (RFC 8259 §7):
/// `"`, `\` and the C0 control characters are escaped, everything else is
/// copied. The result decodes back to `s` and holds no raw control character.
pub fn json_escape(s: &str) -> (out: String)
    ensures
        out@ == json_escaped(s@),
        json_unescaped(out@) == s@,
        free_of_controls(out@),
        json_string_body(out@),
{
    let v = chars_of(s);
    let mut out = String::new();
    let mut i: usize = 0;
    while i < v.len()
        invariant
            i <= v@.len(),
            v@ == s@,
            out@ == json_escaped(v@.take(i as int)),
        decreases v@.len() - i,
    {
        push_escaped(&mut out, v[i]);
        proof {
            assert(v@.take(i + 1).drop_last() =~= v@.take(i as int));
            assert(v@.take(i + 1).last() == v@[i as int]);
        }
        i = i + 1;
    }
    proof {
        assert(v@.take(i as int) =~= s@);
        lemma_json_escape_roundtrip(s@);
        lemma_json_escape_free_of_controls(s@);
        lemma_json_escape_body(s@);
    }
    out
}

/// The decimal digits of `n`, most significant first.
pub open spec fn decimal(n: nat) -> Seq<char>
    decreases n,
{
    if n < 10 {
        seq![hex_digit(n)]
    } else {
        decimal(n / 10).push(hex_digit(n % 10))
    }
}

/// Appends the decimal digits of `n`.
pub(crate) fn push_decimal(out: &mut String, n: usize)
    ensures
        final(out)@ == old(out)@ + decimal(n as nat),
    decreases n,
{
    if n >= 10 {
        push_decimal(out, n / 10);
    }
    push_char(out, hex_char((n % 10) as u32));
    assert(final(out)@ =~= old(out)@ + decimal(n as nat));
}

/// One hit report line (without its line break): a JSON object with the
/// escaped file path, offset, malware family, indicator kind and value, or
/// the tab-separated `path:offset<TAB>malware<TAB>kind=value`.
pub open spec fn hit_line_of(
    json: bool,
    path: Seq<char>,
    offset: nat,
    malware: Seq<char>,
    kind: Seq<char>,
    value: Seq<char>,
) -> Seq<char> {
    if json {
        "{\"file\":\""@ + json_escaped(path) + "\",\"offset\":"@ + decimal(offset)
            + ",\"malware\":\""@ + json_escaped(malware) + "\",\"kind\":\""@
            + json_escaped(kind) + "\",\"value\":\""@ + json_escaped(value) + "\"}"@
    } else {
        path + ":"@ + decimal(offset) + "\t"@ + malware + "\t"@ + kind + "="@ + value
    }
}

/// Formats one hit in the selected output format (JSON Lines or tab-separated).
pub fn hit_line(json: bool, path: &str, offset: usize, malware: &str, kind: &str, value: &str) -> (out:
    String)
    ensures
        out@ == hit_line_of(json, path@, offset as nat, malware@, kind@, value@),
{
    let mut out = String::new();
    if json {
        push_str(&mut out, "{\"file\":\"");
        push_str(&mut out, json_escape(path).as_str());
        push_str(&mut out, "\",\"offset\":");
        push_decimal(&mut out, offset);
        push_str(&mut out, ",\"malware\":\"");
        push_str(&mut out, json_escape(malware).as_str());
        push_str(&mut out, "\",\"kind\":\"");
        push_str(&mut out, json_escape(kind).as_str());
        push_str(&mut out, "\",\"value\":\"");
        push_str(&mut out, json_escape(value).as_str());
        push_str(&mut out, "\"}");
    } else {
        push_str(&mut out, path);
        push_str(&mut out, ":");
        push_decimal(&mut out, offset);
        push_str(&mut out, "\t");
        push_str(&mut out, malware);
        push_str(&mut out, "\t");
        push_str(&mut out, kind);
        push_str(&mut out, "=");
        push_str(&mut out, value);
    }
    assert(out@ =~= hit_line_of(json, path@, offset as nat, malware@, kind@, value@));
    out
}

} // verus!
