//! Indicators of compromise and the CSV feed they are read from.
//!
//! A feed is a header line followed by rows `type,value,malware,context,confidence`.
//! Rows whose type is a content-scannable literal become scanner indicators;
//! `sha256` rows become hash indicators; everything else is skipped, as are
//! blank rows, rows with fewer than three fields, empty values, values longer
//! than `MAX_INDICATOR_LEN` bytes and rows below the confidence threshold.

use vstd::prelude::*;
use crate::text::{
    chars_of, eq_ignore_ascii_case, equal_chars, equal_ignore_ascii_case, lines, lower_ascii_seq,
    is_ws, lemma_split_append_piece, lemma_split_single, lemma_splitn_append_piece, lemma_splitn_append_rest,
    lemma_splitn_single, lemma_trim_keeps_non_ws, lower_ascii, split_on, splitn, splitn_on, string_of, trim, trim_bounds, trim_end, trim_start, trimmed,
};

verus! {

broadcast use vstd::string::group_string_axioms;

/// Longest indicator value, in UTF-8 bytes, that a feed row may carry.
pub const MAX_INDICATOR_LEN: usize = 4096;

/// Confidence grade of an indicator, ordered `Low < Medium < High`.
#[derive(Debug, Clone, Copy, PartialEq, Eq, Structural, PartialOrd, Ord)]
pub enum Confidence {
    Low,
    Medium,
    High,
}

impl Confidence {
    /// Position of the grade in the order `Low < Medium < High`.
    pub open spec fn rank(self) -> nat {
        match self {
            Confidence::Low => 0,
            Confidence::Medium => 1,
            Confidence::High => 2,
        }
    }

    /// The grade a string denotes: `high` or `medium` up to ASCII case and
    /// surrounding whitespace; anything else is `Low`.
    pub open spec fn parse_spec(s: Seq<char>) -> Confidence {
        let t = trim(s);
        if eq_ignore_ascii_case(t, seq!['h', 'i', 'g', 'h']) {
            Confidence::High
        } else if eq_ignore_ascii_case(t, seq!['m', 'e', 'd', 'i', 'u', 'm']) {
            Confidence::Medium
        } else {
            Confidence::Low
        }
    }

    /// Position of the grade in the order `Low < Medium < High`.
    pub fn level(self) -> (n: u8)
        ensures
            n == self.rank(),
    {
        match self {
            Confidence::Low => 0,
            Confidence::Medium => 1,
            Confidence::High => 2,
        }
    }

    /// Whether this grade is at least `min`.
    pub fn at_least(self, min: Confidence) -> (b: bool)
        ensures
            b == (self.rank() >= min.rank()),
    {
        self.level() >= min.level()
    }

    /// Parses a grade string; anything unrecognised (including empty) is `Low`.
    pub fn parse(s: &str) -> (c: Confidence)
        ensures
            c == Confidence::parse_spec(s@),
    {
        let v = chars_of(s);
        Confidence::parse_chars(v.as_slice())
    }

    /// Parses a grade given as characters.
    pub fn parse_chars(v: &[char]) -> (c: Confidence)
        ensures
            c == Confidence::parse_spec(v@),
    {
        let t = trimmed(v);
        let high = ['h', 'i', 'g', 'h'];
        let medium = ['m', 'e', 'd', 'i', 'u', 'm'];
        assert(high@ =~= seq!['h', 'i', 'g', 'h']);
        assert(medium@ =~= seq!['m', 'e', 'd', 'i', 'u', 'm']);
        if equal_ignore_ascii_case(t.as_slice(), &high) {
            Confidence::High
        } else if equal_ignore_ascii_case(t.as_slice(), &medium) {
            Confidence::Medium
        } else {
            Confidence::Low
        }
    }
}

/// A single indicator of compromise: the literal to match and its metadata.
#[derive(Debug, Clone, PartialEq, Eq)]
pub struct Indicator {
    pub value: String,
    pub kind: String,
    pub malware: String,
    pub confidence: Confidence,
}

/// The mathematical content of an [`Indicator`].
pub struct IndicatorView {
    pub value: Seq<char>,
    pub kind: Seq<char>,
    pub malware: Seq<char>,
    pub confidence: Confidence,
}

impl View for Indicator {
    type V = IndicatorView;

    open spec fn view(&self) -> IndicatorView {
        IndicatorView {
            value: self.value@,
            kind: self.kind@,
            malware: self.malware@,
            confidence: self.confidence,
        }
    }
}

/// The views of a sequence of indicators.
pub open spec fn indicator_views(v: Seq<Indicator>) -> Seq<IndicatorView> {
    v.map_values(|i: Indicator| i@)
}

/// One detection: which indicator matched, and at what byte offset.
#[derive(Debug, Clone, Copy, PartialEq, Eq, Structural)]
pub struct Hit {
    pub indicator: usize,
    pub offset: usize,
}

// ---------------------------------------------------------------------------
// Feed model
// ---------------------------------------------------------------------------

/// The data rows of a feed: every line after the first.
pub open spec fn feed_rows(text: Seq<char>) -> Seq<Seq<char>> {
    let ls = lines(text);
    if ls.len() == 0 {
        ls
    } else {
        ls.skip(1)
    }
}

/// The record a row describes, if it is non-blank and has at least three fields.
pub open spec fn row_record(line: Seq<char>) -> Option<IndicatorView> {
    let parts = splitn_on(line, ',', 5);
    if trim(line).len() == 0 || parts.len() < 3 {
        None
    } else {
        Some(
            IndicatorView {
                value: trim(parts[1]),
                kind: trim(parts[0]),
                malware: trim(parts[2]),
                confidence: Confidence::parse_spec(
                    if parts.len() > 4 {
                        parts[4]
                    } else {
                        Seq::<char>::empty()
                    },
                ),
            },
        )
    }
}

/// A record is kept when its value is non-empty, at most `MAX_INDICATOR_LEN`
/// bytes long, and its grade is at least `min`.
pub open spec fn admitted(r: IndicatorView, min: Confidence) -> bool {
    &&& r.value.len() > 0
    &&& vstd::utf8::encode_utf8(r.value).len() <= MAX_INDICATOR_LEN
    &&& r.confidence.rank() >= min.rank()
}

/// Types whose values are matched as byte substrings of scanned content.
pub open spec fn scannable_kind(k: Seq<char>) -> bool {
    ||| k == seq!['d', 'o', 'm', 'a', 'i', 'n']
    ||| k == seq!['u', 'r', 'l']
    ||| k == seq!['s', 't', 'r', 'i', 'n', 'g']
    ||| k == seq!['p', 'a', 'c', 'k', 'a', 'g', 'e']
    ||| k == seq!['f', 'i', 'l', 'e', 'm', 'a', 'r', 'k', 'e', 'r']
}

/// The type of hash indicators, matched by file digest.
pub open spec fn hash_kind(k: Seq<char>) -> bool {
    k == seq!['s', 'h', 'a', '2', '5', '6']
}

/// The scannable indicators that `rows` yield at threshold `min`, in order.
pub open spec fn scannable_of(rows: Seq<Seq<char>>, min: Confidence) -> Seq<IndicatorView>
    decreases rows.len(),
{
    if rows.len() == 0 {
        Seq::empty()
    } else {
        let prev = scannable_of(rows.drop_last(), min);
        match row_record(rows.last()) {
            Some(r) => if admitted(r, min) && scannable_kind(r.kind) {
                prev.push(r)
            } else {
                prev
            },
            None => prev,
        }
    }
}

/// The hash indicators that `rows` yield at threshold `min`, keyed by the
/// ASCII-lower-cased value; a later row replaces an earlier one with the same key.
pub open spec fn hashes_of(rows: Seq<Seq<char>>, min: Confidence) -> Map<Seq<char>, IndicatorView>
    decreases rows.len(),
{
    if rows.len() == 0 {
        Map::empty()
    } else {
        let prev = hashes_of(rows.drop_last(), min);
        match row_record(rows.last()) {
            Some(r) => if admitted(r, min) && !scannable_kind(r.kind) && hash_kind(r.kind) {
                prev.insert(lower_ascii_seq(r.value), r)
            } else {
                prev
            },
            None => prev,
        }
    }
}

/// Raising the confidence threshold only drops indicators: what a feed yields
/// at a higher threshold is what it yields at a lower one, less the indicators
/// graded below the higher threshold, in the same order.
pub proof fn lemma_threshold_filters(rows: Seq<Seq<char>>, lo: Confidence, hi: Confidence)
    requires
        lo.rank() <= hi.rank(),
    ensures
        scannable_of(rows, hi) == scannable_of(rows, lo).filter(|r: IndicatorView| r.confidence.rank() >= hi.rank()),
    decreases rows.len(),
{
    let pred = |r: IndicatorView| r.confidence.rank() >= hi.rank();
    if rows.len() == 0 {
        assert(scannable_of(rows, lo).filter(pred) =~= Seq::<IndicatorView>::empty()) by {
            reveal(Seq::filter);
        }
    } else {
        lemma_threshold_filters(rows.drop_last(), lo, hi);
        let prev = scannable_of(rows.drop_last(), lo);
        match row_record(rows.last()) {
            Some(r) => {
                prev.lemma_filter_push(r, pred);
            },
            None => {},
        }
    }
}

// ---------------------------------------------------------------------------
// Row parsing
// ---------------------------------------------------------------------------

/// Whether `k` names a content-scannable indicator type.
pub fn is_scannable_kind(k: &[char]) -> (b: bool)
    ensures
        b == scannable_kind(k@),
{
    let domain = ['d', 'o', 'm', 'a', 'i', 'n'];
    let url = ['u', 'r', 'l'];
    let string = ['s', 't', 'r', 'i', 'n', 'g'];
    let package = ['p', 'a', 'c', 'k', 'a', 'g', 'e'];
    let filemarker = ['f', 'i', 'l', 'e', 'm', 'a', 'r', 'k', 'e', 'r'];
    assert(domain@ =~= seq!['d', 'o', 'm', 'a', 'i', 'n']);
    assert(url@ =~= seq!['u', 'r', 'l']);
    assert(string@ =~= seq!['s', 't', 'r', 'i', 'n', 'g']);
    assert(package@ =~= seq!['p', 'a', 'c', 'k', 'a', 'g', 'e']);
    assert(filemarker@ =~= seq!['f', 'i', 'l', 'e', 'm', 'a', 'r', 'k', 'e', 'r']);
    equal_chars(k, &domain) || equal_chars(k, &url) || equal_chars(k, &string) || equal_chars(
        k,
        &package,
    ) || equal_chars(k, &filemarker)
}

/// Whether `k` names the hash indicator type.
pub fn is_hash_kind(k: &[char]) -> (b: bool)
    ensures
        b == hash_kind(k@),
{
    let sha256 = ['s', 'h', 'a', '2', '5', '6'];
    assert(sha256@ =~= seq!['s', 'h', 'a', '2', '5', '6']);
    equal_chars(k, &sha256)
}

/// The record one feed row describes.
pub fn parse_row(line: &[char]) -> (r: Option<Indicator>)
    ensures
        match r {
            Some(i) => row_record(line@) == Some(i@),
            None => row_record(line@) is None,
        },
{
    let t = trim_bounds(line);
    let parts = splitn(line, ',', 5);
    let ghost pv = parts@.map_values(|p: Vec<char>| p@);
    assert(pv.len() == parts@.len());
    if t.0 == t.1 || parts.len() < 3 {
        return None;
    }
    let kind = trimmed(parts[0].as_slice());
    let value = trimmed(parts[1].as_slice());
    let malware = trimmed(parts[2].as_slice());
    let confidence = if parts.len() > 4 {
        Confidence::parse_chars(parts[4].as_slice())
    } else {
        let empty: Vec<char> = Vec::new();
        Confidence::parse_chars(empty.as_slice())
    };
    assert(pv[0] == parts@[0]@);
    assert(pv[1] == parts@[1]@);
    assert(pv[2] == parts@[2]@);
    assert(parts@.len() > 4 ==> pv[4] == parts@[4]@);
    Some(
        Indicator {
            value: string_of(value.as_slice()),
            kind: string_of(kind.as_slice()),
            malware: string_of(malware.as_slice()),
            confidence,
        },
    )
}

/// The types whose rows are matched against scanned content.
pub open spec fn listed_scannable_type(k: Seq<char>) -> bool {
    ||| k == seq!['d', 'o', 'm', 'a', 'i', 'n']
    ||| k == seq!['u', 'r', 'l']
    ||| k == seq!['s', 't', 'r', 'i', 'n', 'g']
    ||| k == seq!['p', 'a', 'c', 'k', 'a', 'g', 'e']
    ||| k == seq!['f', 'i', 'l', 'e', 'm', 'a', 'r', 'k', 'e', 'r']
}

/// What one more feed row does: an admitted row of type `domain`, `url`,
/// `string`, `package` or `filemarker` is appended to the scannable
/// indicators and leaves the hash indicators alone; an admitted `sha256` row
/// is stored among the hash indicators under its lower-cased value and adds
/// no scannable indicator; a row of any other type, a row below the
/// threshold or with an empty or over-long value, and a line that is no row
/// change nothing.
pub proof fn lemma_feed_row_effect(rows: Seq<Seq<char>>, row: Seq<char>, min: Confidence)
    ensures
        match row_record(row) {
            Some(r) => {
                &&& admitted(r, min) && listed_scannable_type(r.kind) ==> {
                    &&& scannable_of(rows.push(row), min) == scannable_of(rows, min).push(r)
                    &&& hashes_of(rows.push(row), min) == hashes_of(rows, min)
                }
                &&& admitted(r, min) && r.kind == seq!['s', 'h', 'a', '2', '5', '6'] ==> {
                    &&& scannable_of(rows.push(row), min) == scannable_of(rows, min)
                    &&& hashes_of(rows.push(row), min) == hashes_of(rows, min).insert(lower_ascii_seq(r.value), r)
                }
                &&& !admitted(r, min) || (!listed_scannable_type(r.kind) && r.kind != seq!['s', 'h', 'a', '2', '5', '6'])
                    ==> {
                    &&& scannable_of(rows.push(row), min) == scannable_of(rows, min)
                    &&& hashes_of(rows.push(row), min) == hashes_of(rows, min)
                }
            },
            None => {
                &&& scannable_of(rows.push(row), min) == scannable_of(rows, min)
                &&& hashes_of(rows.push(row), min) == hashes_of(rows, min)
            },
        },
{
    let n = rows.push(row);
    assert(n.drop_last() =~= rows);
    assert(n.last() == row);
}

/// Whitespace around a grade does not change it: padding a string on
/// either side with a whitespace character gives the same grade.
pub proof fn lemma_grade_ignores_padding(s: Seq<char>, c: char)
    requires
        is_ws(c),
    ensures
        Confidence::parse_spec(seq![c] + s) == Confidence::parse_spec(s),
        Confidence::parse_spec(s.push(c)) == Confidence::parse_spec(s),
{
    assert((seq![c] + s).drop_first() =~= s);
    assert(trim_start(seq![c] + s) == trim_start(s));
    lemma_trim_push_ws(s, c);
}

/// Trimming a text with one more trailing whitespace character gives the
/// same result.
proof fn lemma_trim_push_ws(s: Seq<char>, c: char)
    requires
        is_ws(c),
    ensures
        trim(s.push(c)) == trim(s),
    decreases s.len(),
{
    if s.len() == 0 {
        let t = s.push(c);
        assert(t.drop_first() =~= Seq::<char>::empty());
        assert(trim_start(t) == trim_start(t.drop_first()));
    } else if is_ws(s[0]) {
        assert(s.push(c).drop_first() =~= s.drop_first().push(c));
        lemma_trim_push_ws(s.drop_first(), c);
    } else {
        assert(trim_start(s.push(c)) == s.push(c));
        assert(s.push(c).drop_last() =~= s);
        assert(trim_end(s.push(c)) == trim_end(s));
    }
}

/// Lower-casing a character keeps it whitespace or not whitespace.
proof fn lemma_lower_keeps_ws(c: char)
    ensures
        is_ws(lower_ascii(c)) == is_ws(c),
{
}

/// Trimming commutes with ASCII lower-casing.
proof fn lemma_trim_lower(s: Seq<char>)
    ensures
        trim(lower_ascii_seq(s)) == lower_ascii_seq(trim(s)),
{
    lemma_trim_start_lower(s);
    lemma_trim_end_lower(trim_start(s));
}

proof fn lemma_trim_start_lower(s: Seq<char>)
    ensures
        trim_start(lower_ascii_seq(s)) == lower_ascii_seq(trim_start(s)),
    decreases s.len(),
{
    let l = lower_ascii_seq(s);
    if s.len() > 0 {
        lemma_lower_keeps_ws(s[0]);
        assert(l[0] == lower_ascii(s[0]));
        if is_ws(s[0]) {
            assert(l.drop_first() =~= lower_ascii_seq(s.drop_first()));
            lemma_trim_start_lower(s.drop_first());
        }
    }
}

proof fn lemma_trim_end_lower(s: Seq<char>)
    ensures
        trim_end(lower_ascii_seq(s)) == lower_ascii_seq(trim_end(s)),
    decreases s.len(),
{
    let l = lower_ascii_seq(s);
    if s.len() > 0 {
        lemma_lower_keeps_ws(s.last());
        assert(l.last() == lower_ascii(s.last()));
        if is_ws(s.last()) {
            assert(l.drop_last() =~= lower_ascii_seq(s.drop_last()));
            lemma_trim_end_lower(s.drop_last());
        }
    }
}

/// Grades ignore ASCII case: a string and its lower-casing parse alike, and
/// `high`, `medium` and anything else parse as High, Medium and Low.
pub proof fn lemma_grade_ignores_case(s: Seq<char>)
    ensures
        Confidence::parse_spec(lower_ascii_seq(s)) == Confidence::parse_spec(s),
        Confidence::parse_spec(seq!['h', 'i', 'g', 'h']) == Confidence::High,
        Confidence::parse_spec(seq!['H', 'I', 'G', 'H']) == Confidence::High,
        Confidence::parse_spec(seq!['m', 'e', 'd', 'i', 'u', 'm']) == Confidence::Medium,
        Confidence::parse_spec(seq!['l', 'o', 'w']) == Confidence::Low,
        Confidence::parse_spec(Seq::<char>::empty()) == Confidence::Low,
{
    lemma_trim_lower(s);
    let t = trim(s);
    assert(lower_ascii_seq(lower_ascii_seq(t)) =~= lower_ascii_seq(t));
    assert(trim(seq!['h', 'i', 'g', 'h']) =~= seq!['h', 'i', 'g', 'h']) by {
        let h = seq!['h', 'i', 'g', 'h'];
        assert(trim_start(h) == h);
        assert(trim_end(h) == h);
    }
    assert(lower_ascii_seq(seq!['h', 'i', 'g', 'h']) =~= seq!['h', 'i', 'g', 'h']);
    assert(trim(seq!['H', 'I', 'G', 'H']) =~= seq!['H', 'I', 'G', 'H']) by {
        let h = seq!['H', 'I', 'G', 'H'];
        assert(trim_start(h) == h);
        assert(trim_end(h) == h);
    }
    assert(lower_ascii_seq(seq!['H', 'I', 'G', 'H']) =~= seq!['h', 'i', 'g', 'h']);
    assert(trim(seq!['m', 'e', 'd', 'i', 'u', 'm']) =~= seq!['m', 'e', 'd', 'i', 'u', 'm']) by {
        let h = seq!['m', 'e', 'd', 'i', 'u', 'm'];
        assert(trim_start(h) == h);
        assert(trim_end(h) == h);
    }
    assert(lower_ascii_seq(seq!['m', 'e', 'd', 'i', 'u', 'm']) =~= seq!['m', 'e', 'd', 'i', 'u', 'm']);
    assert(trim(seq!['l', 'o', 'w']) =~= seq!['l', 'o', 'w']) by {
        let h = seq!['l', 'o', 'w'];
        assert(trim_start(h) == h);
        assert(trim_end(h) == h);
    }
    assert(lower_ascii_seq(seq!['l', 'o', 'w']) =~= seq!['l', 'o', 'w']);
    assert(lower_ascii_seq(seq!['l', 'o', 'w']) != lower_ascii_seq(seq!['h', 'i', 'g', 'h']));
    assert(lower_ascii_seq(seq!['l', 'o', 'w']) != lower_ascii_seq(seq!['m', 'e', 'd', 'i', 'u', 'm']));
    assert(trim(Seq::<char>::empty()) =~= Seq::<char>::empty());
    assert(lower_ascii_seq(Seq::<char>::empty()) =~= Seq::<char>::empty());
}

/// The columns of a feed row: type, value, malware family, a context column
/// and the grade, each without surrounding whitespace (the grade column keeps
/// any further commas). A row of three columns has the lowest grade, and a
/// row of fewer than three columns is no record.
pub proof fn lemma_row_columns(a: Seq<char>, b: Seq<char>, c: Seq<char>, d: Seq<char>, e: Seq<char>)
    requires
        !a.contains(','),
        !b.contains(','),
        !c.contains(','),
        !d.contains(','),
    ensures
        row_record(a + seq![','] + b + seq![','] + c + seq![','] + d + seq![','] + e) == Some(
            IndicatorView { value: trim(b), kind: trim(a), malware: trim(c), confidence: Confidence::parse_spec(e) },
        ),
        row_record(a + seq![','] + b + seq![','] + c) == Some(
            IndicatorView {
                value: trim(b),
                kind: trim(a),
                malware: trim(c),
                confidence: Confidence::Low,
            },
        ),
        row_record(a + seq![','] + b) is None,
{
    let s = seq![','];
    lemma_splitn_single(a, ',', 5);
    lemma_splitn_append_piece(a, ',', 5, b);
    let t2 = a + s + b;
    lemma_splitn_append_piece(t2, ',', 5, c);
    let t3 = t2 + s + c;
    lemma_splitn_append_piece(t3, ',', 5, d);
    let t4 = t3 + s + d;
    lemma_splitn_append_piece(t4, ',', 5, Seq::<char>::empty());
    assert(t4 + s + Seq::<char>::empty() =~= t4 + s);
    lemma_splitn_append_rest(t4 + s, ',', 5, e);
    let line = t4 + s + e;
    assert((t4 + s) + e =~= line);
    assert(Seq::<char>::empty() + e =~= e);
    assert(line[a.len() as int] == ',');
    lemma_trim_keeps_non_ws(line, a.len() as int);
    let parts = splitn_on(line, ',', 5);
    assert(parts =~= seq![a, b, c, d, e]);
    assert(t3[a.len() as int] == ',');
    lemma_trim_keeps_non_ws(t3, a.len() as int);
    assert(splitn_on(t3, ',', 5) =~= seq![a, b, c]);
    lemma_grade_ignores_case(Seq::<char>::empty());
    assert(splitn_on(t2, ',', 5) =~= seq![a, b]);
}

/// Which records a threshold admits: a record with a non-empty value of at
/// most 4096 bytes passes at the lowest threshold and at its own grade (the
/// threshold is inclusive); raising the threshold only drops records; a
/// low-graded record passes no higher threshold; an empty value or one over
/// 4096 bytes never passes.
pub proof fn lemma_admission(r: IndicatorView, min: Confidence)
    ensures
        r.value.len() > 0 && vstd::utf8::encode_utf8(r.value).len() <= 4096 ==> admitted(r, Confidence::Low)
            && admitted(r, r.confidence),
        admitted(r, Confidence::High) ==> admitted(r, Confidence::Medium),
        admitted(r, Confidence::Medium) ==> admitted(r, Confidence::Low),
        r.confidence == Confidence::Low ==> !admitted(r, Confidence::Medium) && !admitted(r, Confidence::High),
        r.confidence == Confidence::High && admitted(r, Confidence::Low) ==> admitted(r, min),
        r.value.len() == 0 ==> !admitted(r, min),
        vstd::utf8::encode_utf8(r.value).len() > 4096 ==> !admitted(r, min),
{
}

/// The first line of a feed is its header and never a row: a feed of one
/// line has no rows, and a header followed by one line has that line as its
/// only row.
pub proof fn lemma_feed_header_skipped(h: Seq<char>, r: Seq<char>)
    requires
        h.len() > 0,
        r.len() > 0,
        !h.contains('\n'),
        !r.contains('\n'),
    ensures
        feed_rows(h).len() == 0,
        feed_rows(h + seq!['\n'] + r) == seq![r],
{
    lemma_split_single(h, '\n');
    assert(lines(h).len() == 1);
    assert(lines(h).skip(1).len() == 0);
    lemma_split_append_piece(h, '\n', r);
    let t = h + seq!['\n'] + r;
    assert(split_on(t, '\n') =~= seq![h, r]);
    assert(lines(t).len() == 2);
    assert(lines(t)[1] == r);
    assert(lines(t).skip(1) =~= seq![r]);
}

} // verus!
