//! Character-sequence model of the string operations the library relies on:
//! whitespace trimming, line and field splitting, ASCII case folding and
//! substring search, each stated over `Seq<char>` and implemented on
//! character vectors.

use vstd::prelude::*;

verus! {

broadcast use vstd::string::group_string_axioms;

// ---------------------------------------------------------------------------
// Specifications
// ---------------------------------------------------------------------------

/// Unicode `White_Space`, the property behind `char::is_whitespace`.
pub open spec fn is_ws(c: char) -> bool {
    let n = c as u32;
    ||| 0x09 <= n <= 0x0d
    ||| n == 0x20
    ||| n == 0x85
    ||| n == 0xa0
    ||| n == 0x1680
    ||| 0x2000 <= n <= 0x200a
    ||| n == 0x2028
    ||| n == 0x2029
    ||| n == 0x202f
    ||| n == 0x205f
    ||| n == 0x3000
}

/// `s` without its leading whitespace.
pub open spec fn trim_start(s: Seq<char>) -> Seq<char>
    decreases s.len(),
{
    if s.len() > 0 && is_ws(s[0]) {
        trim_start(s.drop_first())
    } else {
        s
    }
}

/// `s` without its trailing whitespace.
pub open spec fn trim_end(s: Seq<char>) -> Seq<char>
    decreases s.len(),
{
    if s.len() > 0 && is_ws(s.last()) {
        trim_end(s.drop_last())
    } else {
        s
    }
}

/// `s` without leading and trailing whitespace (`str::trim`).
pub open spec fn trim(s: Seq<char>) -> Seq<char> {
    trim_end(trim_start(s))
}

/// The pieces of `s` between occurrences of `sep` (`str::split`).
pub open spec fn split_on(s: Seq<char>, sep: char) -> Seq<Seq<char>>
    decreases s.len(),
{
    if s.len() == 0 {
        seq![Seq::<char>::empty()]
    } else {
        let p = split_on(s.drop_last(), sep);
        if s.last() == sep {
            p.push(Seq::<char>::empty())
        } else {
            p.update(p.len() - 1, p.last().push(s.last()))
        }
    }
}

/// At most `n` pieces of `s`, the last holding the remainder (`str::splitn`).
pub open spec fn splitn_on(s: Seq<char>, sep: char, n: nat) -> Seq<Seq<char>>
    decreases s.len(),
{
    if s.len() == 0 {
        seq![Seq::<char>::empty()]
    } else {
        let p = splitn_on(s.drop_last(), sep, n);
        if s.last() == sep && p.len() < n {
            p.push(Seq::<char>::empty())
        } else {
            p.update(p.len() - 1, p.last().push(s.last()))
        }
    }
}

/// `s` without one trailing carriage return.
pub open spec fn strip_cr(s: Seq<char>) -> Seq<char> {
    if s.len() > 0 && s.last() == '\r' {
        s.drop_last()
    } else {
        s
    }
}

/// The lines of `s` (`str::lines`): split at `\n`, a `\r` directly before a
/// `\n` removed, and an empty piece after a final `\n` not reported.
pub open spec fn lines(s: Seq<char>) -> Seq<Seq<char>> {
    let p = split_on(s, '\n');
    let q = if p.last().len() == 0 { p.drop_last() } else { p };
    Seq::new(q.len(), |k: int| if k < p.len() - 1 { strip_cr(q[k]) } else { q[k] })
}

/// ASCII lower-casing of one character.
pub open spec fn lower_ascii(c: char) -> char {
    if 'A' <= c <= 'Z' {
        ((c as u32) + 32) as char
    } else {
        c
    }
}

/// ASCII lower-casing of a sequence (`str::to_ascii_lowercase`).
pub open spec fn lower_ascii_seq(s: Seq<char>) -> Seq<char> {
    s.map_values(|c: char| lower_ascii(c))
}

/// `a` and `b` are equal up to ASCII case (`str::eq_ignore_ascii_case`).
pub open spec fn eq_ignore_ascii_case(a: Seq<char>, b: Seq<char>) -> bool {
    lower_ascii_seq(a) == lower_ascii_seq(b)
}

/// `needle` occurs in `hay` starting at position `i`.
pub open spec fn occurs_at(hay: Seq<char>, needle: Seq<char>, i: int) -> bool {
    0 <= i && i + needle.len() <= hay.len() && hay.subrange(i, i + needle.len()) == needle
}

/// `needle` occurs somewhere in `hay` (`str::contains`).
pub open spec fn contains_seq(hay: Seq<char>, needle: Seq<char>) -> bool {
    exists|i: int| occurs_at(hay, needle, i)
}

/// `s` begins with `p` (`str::starts_with`).
pub open spec fn starts_with(s: Seq<char>, p: Seq<char>) -> bool {
    p.len() <= s.len() && s.subrange(0, p.len() as int) == p
}

/// `s` ends with `p` (`str::ends_with`).
pub open spec fn ends_with(s: Seq<char>, p: Seq<char>) -> bool {
    p.len() <= s.len() && s.subrange(s.len() - p.len(), s.len() as int) == p
}

/// The concatenation of `parts` with `sep` between neighbours (`join`).
pub open spec fn join(parts: Seq<Seq<char>>, sep: Seq<char>) -> Seq<char>
    decreases parts.len(),
{
    if parts.len() == 0 {
        Seq::<char>::empty()
    } else if parts.len() == 1 {
        parts[0]
    } else {
        join(parts.drop_last(), sep) + sep + parts.last()
    }
}


/// The pieces of `s` between whitespace characters, empty ones included.
pub open spec fn split_ws(s: Seq<char>) -> Seq<Seq<char>>
    decreases s.len(),
{
    if s.len() == 0 {
        seq![Seq::<char>::empty()]
    } else {
        let p = split_ws(s.drop_last());
        if is_ws(s.last()) {
            p.push(Seq::<char>::empty())
        } else {
            p.update(p.len() - 1, p.last().push(s.last()))
        }
    }
}

/// The whitespace-separated words of `s` (`str::split_whitespace`).
pub open spec fn words(s: Seq<char>) -> Seq<Seq<char>> {
    split_ws(s).filter(|w: Seq<char>| w.len() > 0)
}

/// `a` sorts strictly before `b` in lexicographic order of code points, which
/// is the order of `String`'s `Ord` (UTF-8 preserves code-point order).
pub open spec fn seq_lt(a: Seq<char>, b: Seq<char>) -> bool
    decreases a.len(),
{
    if a.len() == 0 {
        b.len() > 0
    } else if b.len() == 0 {
        false
    } else if a[0] != b[0] {
        a[0] < b[0]
    } else {
        seq_lt(a.drop_first(), b.drop_first())
    }
}


/// Every character of `s` is ASCII.
pub open spec fn is_ascii_seq(s: Seq<char>) -> bool {
    forall|i: int| 0 <= i < s.len() ==> (#[trigger] s[i] as u32) < 128
}

/// ASCII upper-casing of one character.
pub open spec fn upper_ascii(c: char) -> char {
    if 'a' <= c <= 'z' {
        ((c as u32) - 32) as char
    } else {
        c
    }
}

/// Unicode lower-casing of a text, as `str::to_lowercase` computes it: a
/// function of the text alone, fixed by the Unicode tables of the standard
/// library.
pub uninterp spec fn lowercase_of(s: Seq<char>) -> Seq<char>;

/// Unicode upper-casing of a text, as `str::to_uppercase` computes it.
pub uninterp spec fn uppercase_of(s: Seq<char>) -> Seq<char>;

/// The views of a vector of strings.
pub open spec fn views(v: Seq<String>) -> Seq<Seq<char>> {
    v.map_values(|s: String| s@)
}

// ---------------------------------------------------------------------------
// Lemmas
// ---------------------------------------------------------------------------

/// The lexicographic order is a strict total order.
pub proof fn lemma_seq_lt_order(a: Seq<char>, b: Seq<char>, c: Seq<char>)
    ensures
        !seq_lt(a, a),
        seq_lt(a, b) ==> !seq_lt(b, a),
        a != b ==> seq_lt(a, b) || seq_lt(b, a),
        seq_lt(a, b) && seq_lt(b, c) ==> seq_lt(a, c),
    decreases a.len(),
{
    if a.len() > 0 {
        lemma_seq_lt_order(a.drop_first(), a.drop_first(), a.drop_first());
    }
    if a.len() > 0 && b.len() > 0 {
        if a[0] == b[0] {
            if c.len() > 0 {
                lemma_seq_lt_order(a.drop_first(), b.drop_first(), c.drop_first());
            } else {
                lemma_seq_lt_order(a.drop_first(), b.drop_first(), b.drop_first());
            }
            if a != b {
                assert(a =~= seq![a[0]] + a.drop_first());
                assert(b =~= seq![b[0]] + b.drop_first());
            }
        } else {
            if c.len() > 0 && b[0] == c[0] {
                assert(seq_lt(b, c) == seq_lt(b.drop_first(), c.drop_first()));
            }
        }
    } else if a.len() == 0 && b.len() == 0 {
        assert(a =~= b);
    }
}

/// Splitting at whitespace always yields at least one piece.
proof fn lemma_split_ws_nonempty(s: Seq<char>)
    ensures
        split_ws(s).len() >= 1,
    decreases s.len(),
{
    if s.len() > 0 {
        lemma_split_ws_nonempty(s.drop_last());
    }
}

/// Whitespace before position `i` does not change the trimmed start.
proof fn lemma_trim_start_skip(s: Seq<char>, i: int)
    requires
        0 <= i <= s.len(),
        forall|k: int| 0 <= k < i ==> is_ws(#[trigger] s[k]),
    ensures
        trim_start(s) == trim_start(s.skip(i)),
    decreases i,
{
    if i > 0 {
        assert(s.drop_first().skip(i - 1) =~= s.skip(i));
        lemma_trim_start_skip(s.drop_first(), i - 1);
    } else {
        assert(s.skip(0) =~= s);
    }
}

/// Whitespace from position `j` on does not change the trimmed end.
proof fn lemma_trim_end_take(s: Seq<char>, j: int)
    requires
        0 <= j <= s.len(),
        forall|k: int| j <= k < s.len() ==> is_ws(#[trigger] s[k]),
    ensures
        trim_end(s) == trim_end(s.take(j)),
    decreases s.len() - j,
{
    if j < s.len() {
        assert(s.drop_last().take(j) =~= s.take(j));
        lemma_trim_end_take(s.drop_last(), j);
    } else {
        assert(s.take(j) =~= s);
    }
}

/// Every split produces at least one piece.
pub proof fn lemma_splitn_nonempty(s: Seq<char>, sep: char, n: nat)
    ensures
        splitn_on(s, sep, n).len() >= 1,
    decreases s.len(),
{
    if s.len() > 0 {
        lemma_splitn_nonempty(s.drop_last(), sep, n);
    }
}

/// Every unbounded split produces at least one piece.
pub proof fn lemma_split_nonempty(s: Seq<char>, sep: char)
    ensures
        split_on(s, sep).len() >= 1,
    decreases s.len(),
{
    if s.len() > 0 {
        lemma_split_nonempty(s.drop_last(), sep);
    }
}

// ---------------------------------------------------------------------------
// Executable operations
// ---------------------------------------------------------------------------

/// Collects the characters of `s` into a vector.
pub fn chars_of(s: &str) -> (out: Vec<char>)
    ensures
        out@ == s@,
{
    let mut out: Vec<char> = Vec::new();
    let it = s.chars();
    for c in iter: it
        invariant
            iter.seq() == s@,
            out@ == iter.seq().take(iter.index() as int),
    {
        out.push(c);
    }
    out
}

/// Appends one character to a string (`String::push`).
#[verifier::external_body]
pub(crate) fn push_char(s: &mut String, c: char)
    ensures
        final(s)@ == old(s)@.push(c),
{
    s.push(c);
}

/// Appends a string slice to a string.
pub(crate) fn push_str(s: &mut String, t: &str)
    ensures
        final(s)@ == old(s)@ + t@,
{
    s.append(t);
}


/// `str::to_lowercase`: the result is `lowercase_of` the argument, and on an
/// all-ASCII text it is the ASCII lower-casing (Unicode maps `A`-`Z` to
/// `a`-`z` and leaves every other ASCII character alone). Nothing else, such as
/// the length of a non-ASCII result, is stated.
#[verifier::external_body]
pub(crate) fn to_lowercase(s: &str) -> (out: String)
    ensures
        out@ == lowercase_of(s@),
        is_ascii_seq(s@) ==> out@ == lower_ascii_seq(s@),
{
    s.to_lowercase()
}

/// `str::to_uppercase`: the result is `uppercase_of` the argument, and on an
/// all-ASCII text it is the ASCII upper-casing.
#[verifier::external_body]
pub(crate) fn to_uppercase(s: &str) -> (out: String)
    ensures
        out@ == uppercase_of(s@),
        is_ascii_seq(s@) ==> out@ == s@.map_values(|c: char| upper_ascii(c)),
{
    s.to_uppercase()
}

/// Whether two texts are equal, character for character.
pub fn same_text(a: &str, b: &str) -> (r: bool)
    ensures
        r == (a@ == b@),
{
    let x = chars_of(a);
    let y = chars_of(b);
    equal_chars(x.as_slice(), y.as_slice())
}

/// Builds a string from characters.
pub fn string_of(v: &[char]) -> (out: String)
    ensures
        out@ == v@,
{
    let mut out = String::new();
    let mut i: usize = 0;
    while i < v.len()
        invariant
            i <= v@.len(),
            out@ == v@.take(i as int),
        decreases v@.len() - i,
    {
        push_char(&mut out, v[i]);
        assert(v@.take(i + 1) =~= v@.take(i as int).push(v@[i as int]));
        i = i + 1;
    }
    assert(v@.take(v@.len() as int) =~= v@);
    out
}

/// Builds a string from a string slice.
pub fn string_from(s: &str) -> (out: String)
    ensures
        out@ == s@,
{
    let mut out = String::new();
    push_str(&mut out, s);
    assert(out@ =~= s@);
    out
}

/// Whether `c` is Unicode whitespace (`char::is_whitespace`).
pub fn is_whitespace(c: char) -> (b: bool)
    ensures
        b == is_ws(c),
{
    let n = c as u32;
    (0x09 <= n && n <= 0x0d) || n == 0x20 || n == 0x85 || n == 0xa0 || n == 0x1680 || (0x2000
        <= n && n <= 0x200a) || n == 0x2028 || n == 0x2029 || n == 0x202f || n == 0x205f || n
        == 0x3000
}

/// Copies `v[from..to]`.
pub fn copy_range(v: &[char], from: usize, to: usize) -> (out: Vec<char>)
    requires
        from <= to <= v@.len(),
    ensures
        out@ == v@.subrange(from as int, to as int),
{
    let mut out: Vec<char> = Vec::new();
    let mut i = from;
    while i < to
        invariant
            from <= i <= to <= v@.len(),
            out@ == v@.subrange(from as int, i as int),
        decreases to - i,
    {
        out.push(v[i]);
        assert(v@.subrange(from as int, i + 1) =~= v@.subrange(from as int, i as int).push(
            v@[i as int],
        ));
        i = i + 1;
    }
    out
}

/// The bounds of `v` with surrounding whitespace removed (`str::trim`).
pub fn trim_bounds(v: &[char]) -> (r: (usize, usize))
    ensures
        r.0 <= r.1 <= v@.len(),
        trim(v@) == v@.subrange(r.0 as int, r.1 as int),
{
    let mut a: usize = 0;
    while a < v.len() && is_whitespace(v[a])
        invariant
            a <= v@.len(),
            forall|k: int| 0 <= k < a ==> is_ws(#[trigger] v@[k]),
        decreases v@.len() - a,
    {
        a = a + 1;
    }
    proof {
        lemma_trim_start_skip(v@, a as int);
        assert(trim_start(v@.skip(a as int)) == v@.skip(a as int));
    }
    let ghost t = v@.skip(a as int);
    let mut b: usize = v.len();
    while b > a && is_whitespace(v[b - 1])
        invariant
            a <= b <= v@.len(),
            t == v@.skip(a as int),
            forall|k: int| b - a <= k < t.len() ==> is_ws(#[trigger] t[k]),
        decreases b,
    {
        b = b - 1;
    }
    proof {
        lemma_trim_end_take(t, b - a);
        assert(t.take(b - a) =~= v@.subrange(a as int, b as int));
    }
    (a, b)
}

/// `v` with surrounding whitespace removed (`str::trim`).
pub fn trimmed(v: &[char]) -> (out: Vec<char>)
    ensures
        out@ == trim(v@),
{
    let (a, b) = trim_bounds(v);
    copy_range(v, a, b)
}

/// At most `n` pieces of `v` separated by `sep` (`str::splitn`).
pub fn splitn(v: &[char], sep: char, n: usize) -> (out: Vec<Vec<char>>)
    ensures
        out@.map_values(|p: Vec<char>| p@) == splitn_on(v@, sep, n as nat),
{
    let mut out: Vec<Vec<char>> = Vec::new();
    let mut cur: Vec<char> = Vec::new();
    let mut i: usize = 0;
    while i < v.len()
        invariant
            i <= v@.len(),
            out@.map_values(|p: Vec<char>| p@).push(cur@) == splitn_on(v@.take(i as int), sep, n as nat),
            out@.len() <= i,
        decreases v@.len() - i,
    {
        let c = v[i];
        let ghost pre = v@.take(i as int);
        proof {
            assert(v@.take(i + 1).drop_last() =~= pre);
            assert(v@.take(i + 1).last() == c);
        }
        if c == sep && n > 0 && out.len() < n - 1 {
            let done = cur;
            out.push(done);
            cur = Vec::new();
            assert(out@.map_values(|p: Vec<char>| p@) =~= splitn_on(pre, sep, n as nat));
        } else {
            cur.push(c);
            proof {
                let p = splitn_on(pre, sep, n as nat);
                assert(out@.map_values(|p: Vec<char>| p@).push(cur@) =~= p.update(
                    p.len() - 1,
                    p.last().push(c),
                ));
            }
        }
        i = i + 1;
    }
    assert(v@.take(v@.len() as int) =~= v@);
    out.push(cur);
    out
}

/// All pieces of `v` separated by `sep` (`str::split`).
pub fn split_all(v: &[char], sep: char) -> (out: Vec<Vec<char>>)
    ensures
        out@.map_values(|p: Vec<char>| p@) == split_on(v@, sep),
        out@.len() >= 1,
{
    proof {
        lemma_split_nonempty(v@, sep);
    }
    let mut out: Vec<Vec<char>> = Vec::new();
    let mut cur: Vec<char> = Vec::new();
    let mut i: usize = 0;
    while i < v.len()
        invariant
            i <= v@.len(),
            out@.map_values(|p: Vec<char>| p@).push(cur@) == split_on(v@.take(i as int), sep),
        decreases v@.len() - i,
    {
        let c = v[i];
        let ghost pre = v@.take(i as int);
        proof {
            assert(v@.take(i + 1).drop_last() =~= pre);
            assert(v@.take(i + 1).last() == c);
        }
        if c == sep {
            let done = cur;
            out.push(done);
            cur = Vec::new();
            assert(out@.map_values(|p: Vec<char>| p@) =~= split_on(pre, sep));
        } else {
            cur.push(c);
            proof {
                let p = split_on(pre, sep);
                assert(out@.map_values(|p: Vec<char>| p@).push(cur@) =~= p.update(
                    p.len() - 1,
                    p.last().push(c),
                ));
            }
        }
        i = i + 1;
    }
    assert(v@.take(v@.len() as int) =~= v@);
    out.push(cur);
    proof {
        assert(out@.map_values(|p: Vec<char>| p@).len() == out@.len());
    }
    out
}

/// `v` without one trailing carriage return.
fn without_cr(v: Vec<char>) -> (out: Vec<char>)
    ensures
        out@ == strip_cr(v@),
{
    let ghost orig = v@;
    let mut v = v;
    if v.len() > 0 && v[v.len() - 1] == '\r' {
        v.pop();
        assert(v@ =~= strip_cr(orig));
    }
    v
}

/// The lines of `v` (`str::lines`).
pub fn lines_of(v: &[char]) -> (out: Vec<Vec<char>>)
    ensures
        out@.map_values(|p: Vec<char>| p@) == lines(v@),
{
    let p = split_all(v, '\n');
    let ghost pv = p@.map_values(|x: Vec<char>| x@);
    let np = p.len();
    let keep = if p[np - 1].len() == 0 { np - 1 } else { np };
    let ghost q = if pv.last().len() == 0 { pv.drop_last() } else { pv };
    assert(q.len() == keep);
    let mut out: Vec<Vec<char>> = Vec::new();
    let mut k: usize = 0;
    while k < keep
        invariant
            keep <= np == p@.len(),
            pv == p@.map_values(|x: Vec<char>| x@),
            q.len() == keep,
            forall|j: int| 0 <= j < keep ==> #[trigger] q[j] == pv[j],
            k <= keep,
            out@.len() == k,
            forall|j: int|
                0 <= j < k ==> (#[trigger] out@[j])@ == (if j < np - 1 {
                    strip_cr(q[j])
                } else {
                    q[j]
                }),
        decreases keep - k,
    {
        let piece = copy_range(p[k].as_slice(), 0, p[k].len());
        assert(piece@ =~= pv[k as int]);
        if k + 1 < np {
            out.push(without_cr(piece));
        } else {
            out.push(piece);
        }
        k = k + 1;
    }
    assert(out@.map_values(|x: Vec<char>| x@) =~= lines(v@));
    out
}

/// ASCII lower-casing (`str::to_ascii_lowercase`).
pub fn to_ascii_lower(v: &[char]) -> (out: Vec<char>)
    ensures
        out@ == lower_ascii_seq(v@),
{
    let mut out: Vec<char> = Vec::new();
    let mut i: usize = 0;
    while i < v.len()
        invariant
            i <= v@.len(),
            out@ == lower_ascii_seq(v@.take(i as int)),
        decreases v@.len() - i,
    {
        let c = v[i];
        let l = if 'A' <= c && c <= 'Z' {
            let n = c as u32 + 32;
            char_from(n)
        } else {
            c
        };
        out.push(l);
        assert(lower_ascii_seq(v@.take(i + 1)) =~= lower_ascii_seq(v@.take(i as int)).push(
            lower_ascii(c),
        ));
        i = i + 1;
    }
    assert(v@.take(v@.len() as int) =~= v@);
    out
}

/// The character with code point `n`, for an ASCII letter's code.
fn char_from(n: u32) -> (c: char)
    requires
        0x61 <= n <= 0x7a,
    ensures
        c as u32 == n,
        c == n as char,
{
    let b = n as u8;
    b as char
}

/// Whether `a` and `b` are equal up to ASCII case.
pub fn equal_ignore_ascii_case(a: &[char], b: &[char]) -> (r: bool)
    ensures
        r == eq_ignore_ascii_case(a@, b@),
{
    let la = to_ascii_lower(a);
    let lb = to_ascii_lower(b);
    equal_chars(la.as_slice(), lb.as_slice())
}

/// Whether `a` and `b` hold the same characters.
pub fn equal_chars(a: &[char], b: &[char]) -> (r: bool)
    ensures
        r == (a@ == b@),
{
    if a.len() != b.len() {
        return false;
    }
    let mut i: usize = 0;
    while i < a.len()
        invariant
            a@.len() == b@.len(),
            i <= a@.len(),
            forall|k: int| 0 <= k < i ==> a@[k] == b@[k],
        decreases a@.len() - i,
    {
        if a[i] != b[i] {
            return false;
        }
        i = i + 1;
    }
    assert(a@ =~= b@);
    true
}

/// Whether `needle` occurs in `hay` at position `i`.
pub fn occurs_at_pos(hay: &[char], needle: &[char], i: usize) -> (r: bool)
    ensures
        r == occurs_at(hay@, needle@, i as int),
{
    if i > hay.len() || needle.len() > hay.len() - i {
        return false;
    }
    let mut k: usize = 0;
    while k < needle.len()
        invariant
            i + needle@.len() <= hay@.len() <= usize::MAX,
            k <= needle@.len(),
            forall|j: int| 0 <= j < k ==> hay@[i + j] == needle@[j],
        decreases needle@.len() - k,
    {
        if hay[i + k] != needle[k] {
            assert(hay@.subrange(i as int, i + needle@.len())[k as int] != needle@[k as int]);
            return false;
        }
        k = k + 1;
    }
    assert(hay@.subrange(i as int, i + needle@.len()) =~= needle@);
    true
}

/// Whether `needle` occurs anywhere in `hay` (`str::contains`).
pub fn contains(hay: &[char], needle: &[char]) -> (r: bool)
    ensures
        r == contains_seq(hay@, needle@),
{
    if needle.len() > hay.len() {
        assert forall|i: int| !occurs_at(hay@, needle@, i) by {}
        return false;
    }
    let last = hay.len() - needle.len();
    let mut i: usize = 0;
    while i <= last
        invariant
            last == hay@.len() - needle@.len(),
            i <= last + 1,
            forall|j: int| 0 <= j < i ==> !occurs_at(hay@, needle@, j),
        decreases last + 1 - i,
    {
        if i == last {
            if occurs_at_pos(hay, needle, i) {
                return true;
            }
            assert forall|j: int| !occurs_at(hay@, needle@, j) by {
                if 0 <= j && j <= i {
                }
            }
            return false;
        }
        if occurs_at_pos(hay, needle, i) {
            return true;
        }
        i = i + 1;
    }
    assert forall|j: int| !occurs_at(hay@, needle@, j) by {
        if 0 <= j && j < i {
        }
    }
    false
}


/// The whitespace-separated words of `v` (`str::split_whitespace`).
pub fn split_words(v: &[char]) -> (out: Vec<Vec<char>>)
    ensures
        out@.map_values(|p: Vec<char>| p@) == words(v@),
{
    let ghost nonempty = |w: Seq<char>| w.len() > 0;
    let mut out: Vec<Vec<char>> = Vec::new();
    let mut cur: Vec<char> = Vec::new();
    let mut i: usize = 0;
    proof {
        assert(split_ws(v@.take(0)) =~= seq![Seq::<char>::empty()]);
        assert(seq![Seq::<char>::empty()].drop_last() =~= Seq::<Seq<char>>::empty());
        assert(Seq::<Seq<char>>::empty().filter(nonempty) =~= Seq::<Seq<char>>::empty());
    }
    while i < v.len()
        invariant
            i <= v@.len(),
            split_ws(v@.take(i as int)).len() >= 1,
            cur@ == split_ws(v@.take(i as int)).last(),
            out@.map_values(|p: Vec<char>| p@) == split_ws(v@.take(i as int)).drop_last().filter(nonempty),
            nonempty == (|w: Seq<char>| w.len() > 0),
        decreases v@.len() - i,
    {
        let c = v[i];
        let ghost pre = v@.take(i as int);
        let ghost p = split_ws(pre);
        proof {
            assert(v@.take(i + 1).drop_last() =~= pre);
            assert(v@.take(i + 1).last() == c);
            lemma_split_ws_nonempty(pre);
            assert(p =~= p.drop_last().push(p.last()));
        }
        if is_whitespace(c) {
            let done = cur;
            cur = Vec::new();
            proof {
                let q = split_ws(v@.take(i + 1));
                assert(q =~= p.push(Seq::<char>::empty()));
                assert(q.drop_last() =~= p);
                p.drop_last().lemma_filter_push(p.last(), nonempty);
            }
            if done.len() > 0 {
                let ghost before = out@;
                let ghost piece = done@;
                out.push(done);
                assert(out@.map_values(|p: Vec<char>| p@) =~= before.map_values(|p: Vec<char>| p@).push(piece));
            }
            assert(out@.map_values(|p: Vec<char>| p@) =~= split_ws(v@.take(i + 1)).drop_last().filter(nonempty));
        } else {
            cur.push(c);
            proof {
                let q = split_ws(v@.take(i + 1));
                assert(q =~= p.update(p.len() - 1, p.last().push(c)));
                assert(q.drop_last() =~= p.drop_last());
            }
        }
        i = i + 1;
    }
    assert(v@.take(v@.len() as int) =~= v@);
    proof {
        let p = split_ws(v@);
        lemma_split_ws_nonempty(v@);
        assert(p =~= p.drop_last().push(p.last()));
        p.drop_last().lemma_filter_push(p.last(), nonempty);
    }
    if cur.len() > 0 {
        let ghost before = out@;
        out.push(cur);
        assert(out@.map_values(|p: Vec<char>| p@) =~= before.map_values(|p: Vec<char>| p@).push(cur@));
    }
    out
}

/// Whether `a` sorts strictly before `b` (`String`'s `Ord`).
pub fn chars_less(a: &[char], b: &[char]) -> (r: bool)
    ensures
        r == seq_lt(a@, b@),
{
    let mut k: usize = 0;
    assert(a@.skip(0) =~= a@);
    assert(b@.skip(0) =~= b@);
    while k < a.len() && k < b.len()
        invariant
            k <= a@.len(),
            k <= b@.len(),
            a@.take(k as int) == b@.take(k as int),
            seq_lt(a@, b@) == seq_lt(a@.skip(k as int), b@.skip(k as int)),
        decreases a@.len() - k,
    {
        if a[k] != b[k] {
            return a[k] < b[k];
        }
        proof {
            assert(a@.skip(k as int).drop_first() =~= a@.skip(k + 1));
            assert(b@.skip(k as int).drop_first() =~= b@.skip(k + 1));
            assert(a@.take(k + 1) =~= a@.take(k as int).push(a@[k as int]));
            assert(b@.take(k + 1) =~= b@.take(k as int).push(b@[k as int]));
        }
        k = k + 1;
    }
    k < b.len()
}

/// Whether `s` begins with `p`.
pub fn has_prefix(s: &[char], p: &[char]) -> (r: bool)
    ensures
        r == starts_with(s@, p@),
{
    let r = occurs_at_pos(s, p, 0);
    assert(r == starts_with(s@, p@));
    r
}

/// Whether `s` ends with `p`.
pub fn has_suffix(s: &[char], p: &[char]) -> (r: bool)
    ensures
        r == ends_with(s@, p@),
{
    if p.len() > s.len() {
        return false;
    }
    occurs_at_pos(s, p, s.len() - p.len())
}

/// Whether some entry of `list` is exactly `x`.
pub(crate) fn listed(list: &Vec<String>, x: &Vec<char>) -> (r: bool)
    ensures
        r == views(list@).contains(x@),
{
    let mut i: usize = 0;
    while i < list.len()
        invariant
            i <= list@.len(),
            forall|j: int| 0 <= j < i ==> list@[j]@ != x@,
        decreases list@.len() - i,
    {
        if equal_chars(&chars_of(list[i].as_str()), x) {
            assert(views(list@)[i as int] == x@);
            return true;
        }
        i = i + 1;
    }
    proof {
        if views(list@).contains(x@) {
            let j = choose|j: int| 0 <= j < views(list@).len() && views(list@)[j] == x@;
            assert(list@[j]@ == x@);
        }
    }
    false
}

/// Appending a piece without separators to a text after a separator adds
/// that piece to the split, while fewer than `n` pieces exist.
pub proof fn lemma_splitn_append_piece(t: Seq<char>, sep: char, n: nat, x: Seq<char>)
    requires
        splitn_on(t, sep, n).len() < n,
        !x.contains(sep),
    ensures
        splitn_on(t + seq![sep] + x, sep, n) == splitn_on(t, sep, n).push(x),
    decreases x.len(),
{
    let p = splitn_on(t, sep, n);
    if x.len() == 0 {
        let u = t + seq![sep];
        assert(u.drop_last() =~= t);
        assert(u.last() == sep);
        assert(t + seq![sep] + x =~= u);
        assert(splitn_on(u, sep, n) == p.push(Seq::<char>::empty()));
        assert(x =~= Seq::<char>::empty());
    } else {
        let y = x.drop_last();
        let c = x.last();
        assert(!y.contains(sep)) by {
            if y.contains(sep) {
                let i = choose|i: int| 0 <= i < y.len() && y[i] == sep;
                assert(x[i] == sep);
            }
        }
        assert(c != sep) by {
            assert(x[x.len() - 1] == c);
        }
        lemma_splitn_append_piece(t, sep, n, y);
        let u = t + seq![sep] + x;
        assert(u.drop_last() =~= t + seq![sep] + y);
        assert(u.last() == c);
        let q = p.push(y);
        assert(splitn_on(u, sep, n) == q.update(q.len() - 1, q.last().push(c)));
        assert(y.push(c) =~= x);
        assert(q.update(q.len() - 1, q.last().push(c)) =~= p.push(x));
    }
}

/// Once `n` pieces exist, everything appended, separators included, joins
/// the last piece.
pub proof fn lemma_splitn_append_rest(t: Seq<char>, sep: char, n: nat, y: Seq<char>)
    requires
        splitn_on(t, sep, n).len() == n,
    ensures
        splitn_on(t + y, sep, n) == splitn_on(t, sep, n).update(n - 1, splitn_on(t, sep, n).last() + y),
    decreases y.len(),
{
    let p = splitn_on(t, sep, n);
    lemma_splitn_nonempty(t, sep, n);
    if y.len() == 0 {
        assert(t + y =~= t);
        assert(p.last() + y =~= p.last());
        assert(p[n - 1] == p.last());
        assert(p.update(n - 1, p.last()) =~= p);
    } else {
        let z = y.drop_last();
        let c = y.last();
        lemma_splitn_append_rest(t, sep, n, z);
        let u = t + y;
        assert(u.drop_last() =~= t + z);
        assert(u.last() == c);
        let q = p.update(n - 1, p.last() + z);
        assert(q.len() == n);
        assert(splitn_on(u, sep, n) == q.update(q.len() - 1, q.last().push(c)));
        assert((p.last() + z).push(c) =~= p.last() + y);
        assert(q.update(q.len() - 1, q.last().push(c)) =~= p.update(n - 1, p.last() + y));
    }
}

/// A text without separators splits into itself alone.
pub proof fn lemma_splitn_single(x: Seq<char>, sep: char, n: nat)
    requires
        !x.contains(sep),
    ensures
        splitn_on(x, sep, n) == seq![x],
    decreases x.len(),
{
    if x.len() == 0 {
        assert(x =~= Seq::<char>::empty());
    } else {
        let y = x.drop_last();
        let c = x.last();
        assert(!y.contains(sep)) by {
            if y.contains(sep) {
                let i = choose|i: int| 0 <= i < y.len() && y[i] == sep;
                assert(x[i] == sep);
            }
        }
        lemma_splitn_single(y, sep, n);
        assert(c != sep) by {
            assert(x[x.len() - 1] == c);
        }
        let q = seq![y];
        assert(splitn_on(x, sep, n) == q.update(q.len() - 1, q.last().push(c)));
        assert(y.push(c) =~= x);
        assert(q.update(q.len() - 1, q.last().push(c)) =~= seq![x]);
    }
}

/// A text holding a character that is not whitespace does not trim to
/// nothing.
pub proof fn lemma_trim_keeps_non_ws(s: Seq<char>, i: int)
    requires
        0 <= i < s.len(),
        !is_ws(s[i]),
    ensures
        trim(s).len() > 0,
{
    lemma_trim_start_keeps(s, i);
    let t = trim_start(s);
    let j = choose|j: int| 0 <= j < t.len() && !is_ws(t[j]);
    lemma_trim_end_keeps(t, j);
}

proof fn lemma_trim_start_keeps(s: Seq<char>, i: int)
    requires
        0 <= i < s.len(),
        !is_ws(s[i]),
    ensures
        exists|j: int| 0 <= j < trim_start(s).len() && !is_ws(#[trigger] trim_start(s)[j]),
    decreases s.len(),
{
    if s.len() > 0 && is_ws(s[0]) {
        assert(i > 0);
        assert(s.drop_first()[i - 1] == s[i]);
        lemma_trim_start_keeps(s.drop_first(), i - 1);
        assert(trim_start(s) == trim_start(s.drop_first()));
    } else {
        assert(!is_ws(trim_start(s)[i]));
    }
}

proof fn lemma_trim_end_keeps(s: Seq<char>, i: int)
    requires
        0 <= i < s.len(),
        !is_ws(s[i]),
    ensures
        trim_end(s).len() > 0,
    decreases s.len(),
{
    if s.len() > 0 && is_ws(s.last()) {
        assert(i < s.len() - 1);
        assert(s.drop_last()[i] == s[i]);
        lemma_trim_end_keeps(s.drop_last(), i);
    }
}

/// A text without separators splits into itself alone.
pub proof fn lemma_split_single(x: Seq<char>, sep: char)
    requires
        !x.contains(sep),
    ensures
        split_on(x, sep) == seq![x],
    decreases x.len(),
{
    if x.len() == 0 {
        assert(x =~= Seq::<char>::empty());
    } else {
        let y = x.drop_last();
        let c = x.last();
        assert(!y.contains(sep)) by {
            if y.contains(sep) {
                let i = choose|i: int| 0 <= i < y.len() && y[i] == sep;
                assert(x[i] == sep);
            }
        }
        lemma_split_single(y, sep);
        assert(c != sep) by {
            assert(x[x.len() - 1] == c);
        }
        let q = seq![y];
        assert(split_on(x, sep) == q.update(q.len() - 1, q.last().push(c)));
        assert(y.push(c) =~= x);
        assert(q.update(q.len() - 1, q.last().push(c)) =~= seq![x]);
    }
}

/// Appending a separator and a piece without separators adds that piece.
pub proof fn lemma_split_append_piece(t: Seq<char>, sep: char, x: Seq<char>)
    requires
        !x.contains(sep),
    ensures
        split_on(t + seq![sep] + x, sep) == split_on(t, sep).push(x),
    decreases x.len(),
{
    let p = split_on(t, sep);
    if x.len() == 0 {
        let u = t + seq![sep];
        assert(u.drop_last() =~= t);
        assert(u.last() == sep);
        assert(t + seq![sep] + x =~= u);
        assert(x =~= Seq::<char>::empty());
    } else {
        let y = x.drop_last();
        let c = x.last();
        assert(!y.contains(sep)) by {
            if y.contains(sep) {
                let i = choose|i: int| 0 <= i < y.len() && y[i] == sep;
                assert(x[i] == sep);
            }
        }
        assert(c != sep) by {
            assert(x[x.len() - 1] == c);
        }
        lemma_split_append_piece(t, sep, y);
        let u = t + seq![sep] + x;
        assert(u.drop_last() =~= t + seq![sep] + y);
        assert(u.last() == c);
        let q = p.push(y);
        assert(split_on(u, sep) == q.update(q.len() - 1, q.last().push(c)));
        assert(y.push(c) =~= x);
        assert(q.update(q.len() - 1, q.last().push(c)) =~= p.push(x));
    }
}

} // verus!
