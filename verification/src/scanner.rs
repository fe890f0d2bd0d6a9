//! The multi-pattern IOC scanner: one Aho-Corasick automaton over every
//! indicator value, plus a side table of SHA-256 hash indicators.

use vstd::prelude::*;
use aho_corasick::{AhoCorasick, AhoCorasickBuilder, BuildError, MatchKind};
use crate::ioc::{
    admitted, feed_rows, hashes_of, indicator_views, is_hash_kind, is_scannable_kind, parse_row, scannable_of,
    Confidence, Hit, Indicator, IndicatorView, MAX_INDICATOR_LEN,
};
use crate::digest::{hex_lower_of, sha256_of, Sha256Stream};
use crate::text::{chars_of, equal_chars, lines, lines_of, lower_ascii_seq, to_ascii_lower};

verus! {

broadcast use vstd::string::group_string_axioms;

// ---------------------------------------------------------------------------
// The automaton (aho-corasick)
// ---------------------------------------------------------------------------

/// The compiled automaton of the `aho-corasick` crate.
#[verifier::external_type_specification]
#[verifier::external_body]
pub struct ExAhoCorasick(AhoCorasick);

/// The error `aho-corasick` reports when an automaton cannot be built.
#[verifier::external_type_specification]
#[verifier::external_body]
pub struct ExBuildError(BuildError);

/// The byte patterns an automaton was built from, in pattern-id order.
pub uninterp spec fn automaton_patterns(ac: AhoCorasick) -> Seq<Seq<u8>>;

/// Whether an automaton was built to ignore ASCII case.
pub uninterp spec fn automaton_folds_ascii_case(ac: AhoCorasick) -> bool;

/// Whether building an automaton over `patterns`, with leftmost-longest
/// semantics when `leftmost_longest` is set and ASCII case folding when `fold`
/// is set, fails (which it does only when an internal identifier limit is
/// exceeded).
pub uninterp spec fn automaton_build_fails(patterns: Seq<Seq<u8>>, leftmost_longest: bool, fold: bool) -> bool;

/// Whether an automaton was built with leftmost-longest match semantics
/// (otherwise it has standard semantics).
pub uninterp spec fn automaton_leftmost_longest(ac: AhoCorasick) -> bool;

/// The non-overlapping matches `AhoCorasick::find_iter` reports, as
/// `(pattern id, start offset)` pairs, for an automaton built from `patterns`
/// with the given case folding and match semantics, searching `hay`.
pub uninterp spec fn find_iter_matches(
    patterns: Seq<Seq<u8>>,
    folds_case: bool,
    leftmost_longest: bool,
    hay: Seq<u8>,
) -> Seq<(nat, nat)>;

/// A byte with its ASCII letters folded to lower case when `fold` is set.
pub open spec fn fold_byte(b: u8, fold: bool) -> u8 {
    if fold && 65 <= b <= 90 {
        (b + 32) as u8
    } else {
        b
    }
}

/// Pattern `p` matches `hay` starting at byte `j` (up to ASCII case if `fold`).
pub open spec fn matches_at(p: Seq<u8>, hay: Seq<u8>, j: int, fold: bool) -> bool {
    &&& 0 <= j
    &&& j + p.len() <= hay.len()
    &&& forall|k: int| 0 <= k < p.len() ==> fold_byte(#[trigger] hay[j + k], fold) == fold_byte(p[k], fold)
}

/// Every hit names a pattern that really matches at its offset.
pub open spec fn hits_sound(hits: Seq<Hit>, pats: Seq<Seq<u8>>, hay: Seq<u8>, fold: bool) -> bool {
    forall|k: int|
        0 <= k < hits.len() ==> {
            &&& (#[trigger] hits[k]).indicator < pats.len()
            &&& matches_at(pats[hits[k].indicator as int], hay, hits[k].offset as int, fold)
        }
}

/// No `(pattern, offset)` pair is reported twice.
pub open spec fn hits_distinct(hits: Seq<Hit>) -> bool {
    forall|a: int, b: int|
        0 <= a < b < hits.len() ==> ((#[trigger] hits[a]).indicator, hits[a].offset) != (
            (#[trigger] hits[b]).indicator,
            hits[b].offset,
        )
}

/// Every pattern is non-empty.
pub open spec fn all_nonempty(pats: Seq<Seq<u8>>) -> bool {
    forall|i: int| 0 <= i < pats.len() ==> (#[trigger] pats[i]).len() > 0
}

/// Where the search for hit `k` starts: at 0, or where hit `k - 1` ends.
pub open spec fn resume_at(hits: Seq<Hit>, pats: Seq<Seq<u8>>, k: int) -> int {
    if k <= 0 {
        0
    } else {
        hits[k - 1].offset + pats[hits[k - 1].indicator as int].len()
    }
}

/// The hits are the leftmost-longest non-overlapping matches, left to right
/// (case-sensitive): each hit starts at the leftmost position, from where the
/// previous one ended, at which some pattern matches; no pattern matching
/// there is longer; and no pattern matches from where the last hit ended.
pub open spec fn leftmost_longest(hits: Seq<Hit>, pats: Seq<Seq<u8>>, hay: Seq<u8>) -> bool {
    &&& forall|k: int| 0 <= k < hits.len() ==> resume_at(hits, pats, k) <= (#[trigger] hits[k]).offset
    &&& forall|k: int, i: int, j: int|
        #![trigger hits[k], matches_at(pats[i], hay, j, false)]
        0 <= k < hits.len() && 0 <= i < pats.len() && resume_at(hits, pats, k) <= j < hits[k].offset
            ==> !matches_at(pats[i], hay, j, false)
    &&& forall|k: int, i: int|
        #![trigger hits[k], matches_at(pats[i], hay, hits[k].offset as int, false)]
        0 <= k < hits.len() && 0 <= i < pats.len() && matches_at(pats[i], hay, hits[k].offset as int, false)
            ==> pats[i].len() <= pats[hits[k].indicator as int].len()
    &&& forall|i: int, j: int|
        0 <= i < pats.len() && resume_at(hits, pats, hits.len() as int) <= j ==> !#[trigger] matches_at(
            pats[i],
            hay,
            j,
            false,
        )
}

/// Every match is reported (an empty pattern matches at every offset, the
/// end of the haystack included).
pub open spec fn hits_complete(hits: Seq<Hit>, pats: Seq<Seq<u8>>, hay: Seq<u8>, fold: bool) -> bool {
    forall|i: int, j: int|
        0 <= i < pats.len() && #[trigger] matches_at(pats[i], hay, j, fold)
            ==> exists|k: int|
            0 <= k < hits.len() && (#[trigger] hits[k]).indicator == i && hits[k].offset == j
}

/// The total length of a list of byte patterns.
pub open spec fn total_len(pats: Seq<Seq<u8>>) -> nat
    decreases pats.len(),
{
    if pats.len() == 0 {
        0
    } else {
        total_len(pats.drop_last()) + pats.last().len()
    }
}

/// Patterns few and short enough that an automaton over them stays far below
/// every identifier limit of `aho-corasick` (about 2^31 states, transitions
/// and match links): at most 1000 non-empty patterns of at most 100,000 bytes
/// in all.
pub open spec fn within_build_limits(pats: Seq<Seq<u8>>) -> bool {
    &&& all_nonempty(pats)
    &&& pats.len() <= 1000
    &&& total_len(pats) <= 100_000
}

/// Builds an automaton over `patterns` (`AhoCorasickBuilder::build`), with
/// leftmost-longest match semantics when `leftmost_longest` is set (standard
/// semantics otherwise) and ASCII case folding when `fold` is set. On success
/// the automaton holds exactly `patterns`, in order, with that configuration.
/// Whether the build fails is named: it depends on the patterns and the
/// configuration alone. The crate documents a failure as an exceeded limit on
/// states, patterns or pattern length; within the limits above the build
/// succeeds (at most one state per byte plus four, 256 dense transitions per
/// state near the root, two sparse ones per byte, and one match link per
/// pattern per state).
#[verifier::external_body]
fn build_automaton(patterns: &Vec<Vec<u8>>, leftmost_longest: bool, fold: bool) -> (r: Result<AhoCorasick, BuildError>)
    ensures
        r is Err <==> automaton_build_fails(patterns@.map_values(|p: Vec<u8>| p@), leftmost_longest, fold),
        within_build_limits(patterns@.map_values(|p: Vec<u8>| p@)) ==> r is Ok,
        r matches Ok(ac) ==> {
            &&& automaton_patterns(ac) == patterns@.map_values(|p: Vec<u8>| p@)
            &&& automaton_folds_ascii_case(ac) == fold
            &&& automaton_leftmost_longest(ac) == leftmost_longest
        },
{
    let kind = match leftmost_longest {
        true => MatchKind::LeftmostLongest,
        false => MatchKind::Standard,
    };
    AhoCorasickBuilder::new().match_kind(kind).ascii_case_insensitive(fold).build(patterns)
}

/// All overlapping matches (`AhoCorasick::find_overlapping_iter`), which the
/// crate documents as "all possible matches at every position". Every hit is a
/// real match and every match is among the hits, an empty pattern at every
/// offset (the automaton copies the start state's matches to every state).
/// When no pattern is empty no match is reported twice: the search reports
/// each pattern of a match state once per end position. With an empty
/// pattern the copies can repeat the empty match at one offset, so that case
/// is left out; the order of the hits is not stated.
/// The call panics on a leftmost automaton, which `requires` rules out.
#[verifier::external_body]
fn overlapping_matches(ac: &AhoCorasick, hay: &[u8]) -> (hits: Vec<Hit>)
    requires
        !automaton_leftmost_longest(*ac),
    ensures
        hits_sound(hits@, automaton_patterns(*ac), hay@, automaton_folds_ascii_case(*ac)),
        hits_complete(hits@, automaton_patterns(*ac), hay@, automaton_folds_ascii_case(*ac)),
        all_nonempty(automaton_patterns(*ac)) ==> hits_distinct(hits@),
{
    ac.find_overlapping_iter(hay).map(|m| Hit { indicator: m.pattern().as_usize(), offset: m.start() }).collect()
}

/// Non-overlapping matches of a stream (`AhoCorasick::stream_find_iter`),
/// stopping at the first I/O error. Each hit names one of the automaton's
/// patterns. The call panics on a leftmost automaton, which `requires` rules
/// out.
#[verifier::external_body]
fn stream_matches<R: std::io::Read>(ac: &AhoCorasick, reader: R) -> (r: Result<Vec<Hit>, std::io::Error>)
    requires
        !automaton_leftmost_longest(*ac),
    ensures
        r matches Ok(hits) ==> forall|k: int|
            0 <= k < hits@.len() ==> (#[trigger] hits@[k]).indicator < automaton_patterns(*ac).len(),
{
    let mut hits = Vec::new();
    for m in ac.stream_find_iter(reader) {
        let m = m?;
        hits.push(Hit { indicator: m.pattern().as_usize(), offset: m.start() });
    }
    Ok(hits)
}

/// A build failure as an I/O error of kind `Other` (`io::Error::new`).
#[verifier::external_body]
fn build_error_as_io(e: BuildError) -> (r: std::io::Error) {
    std::io::Error::new(std::io::ErrorKind::Other, e)
}

/// Non-overlapping matches (`AhoCorasick::find_iter`): exactly the named
/// result for the automaton's patterns and configuration, each a real match.
/// On a case-sensitive leftmost-longest automaton whose patterns are all
/// non-empty they are the leftmost-longest matches, as `MatchKind` documents
/// them; which of several identical patterns a hit names, and how empty
/// patterns are stepped over, the documentation leaves open, so the name
/// carries that part.
#[verifier::external_body]
fn nonoverlapping_matches(ac: &AhoCorasick, hay: &[u8]) -> (hits: Vec<Hit>)
    ensures
        hits@.map_values(|h: Hit| (h.indicator as nat, h.offset as nat)) == find_iter_matches(
            automaton_patterns(*ac),
            automaton_folds_ascii_case(*ac),
            automaton_leftmost_longest(*ac),
            hay@,
        ),
        hits_sound(hits@, automaton_patterns(*ac), hay@, automaton_folds_ascii_case(*ac)),
        automaton_leftmost_longest(*ac) && !automaton_folds_ascii_case(*ac) && all_nonempty(
            automaton_patterns(*ac),
        ) ==> leftmost_longest(hits@, automaton_patterns(*ac), hay@),
{
    ac.find_iter(hay).map(|m| Hit { indicator: m.pattern().as_usize(), offset: m.start() }).collect()
}

// ---------------------------------------------------------------------------
// Library types
// ---------------------------------------------------------------------------

/// Error type for scanner construction and feed parsing.
#[derive(Debug)]
pub enum Error {
    /// The IOC feed contained no usable string-literal indicators.
    NoIndicators,
    /// The Aho-Corasick automaton failed to build.
    Build(BuildError),
}

impl Error {
    /// A one-line description of the error.
    pub fn message(&self) -> (s: String)
        ensures
            self is NoIndicators ==> s@ == "no scannable indicators were provided"@,
            self is Build ==> s@ == "failed to build automaton"@,
    {
        match self {
            Error::NoIndicators => crate::text::string_from("no scannable indicators were provided"),
            Error::Build(_) => crate::text::string_from("failed to build automaton"),
        }
    }
}

/// Scan thoroughness vs. speed.
///
/// - `Complete`: overlapping, ASCII case-insensitive; reports every indicator.
/// - `Fast`: leftmost-longest, case-sensitive, non-overlapping.
#[derive(Debug, Clone, Copy, PartialEq, Eq, Structural)]
pub enum Mode {
    Complete,
    Fast,
}

impl Default for Mode {
    fn default() -> (m: Mode)
        ensures
            m == Mode::Complete,
    {
        Mode::Complete
    }
}

/// The byte patterns of a sequence of indicators: each value in UTF-8.
pub open spec fn value_bytes(v: Seq<IndicatorView>) -> Seq<Seq<u8>> {
    v.map_values(|i: IndicatorView| vstd::utf8::encode_utf8(i.value))
}

/// The key under which a hash indicator is stored.
pub open spec fn hash_key(i: IndicatorView) -> Seq<char> {
    lower_ascii_seq(i.value)
}

/// No two entries share a key.
pub open spec fn unique_keys(es: Seq<IndicatorView>) -> bool {
    forall|i: int, j: int|
        0 <= i < es.len() && 0 <= j < es.len() && i != j ==> hash_key(#[trigger] es[i])
            != hash_key(#[trigger] es[j])
}

/// The map from key to entry that a sequence of uniquely keyed entries holds.
pub open spec fn key_map(es: Seq<IndicatorView>) -> Map<Seq<char>, IndicatorView> {
    Map::new(
        |k: Seq<char>| exists|i: int| 0 <= i < es.len() && hash_key(es[i]) == k,
        |k: Seq<char>| es[choose|i: int| 0 <= i < es.len() && hash_key(es[i]) == k],
    )
}

proof fn lemma_key_map_push(es: Seq<IndicatorView>, r: IndicatorView)
    requires
        unique_keys(es),
        forall|i: int| 0 <= i < es.len() ==> hash_key(#[trigger] es[i]) != hash_key(r),
    ensures
        unique_keys(es.push(r)),
        key_map(es.push(r)) =~= key_map(es).insert(hash_key(r), r),
{
    let n = es.push(r);
    assert forall|i: int, j: int|
        0 <= i < n.len() && 0 <= j < n.len() && i != j implies hash_key(#[trigger] n[i])
        != hash_key(#[trigger] n[j]) by {
        if i < es.len() && j < es.len() {
            assert(n[i] == es[i] && n[j] == es[j]);
        } else if i < es.len() {
            assert(n[i] == es[i]);
        } else if j < es.len() {
            assert(n[j] == es[j]);
        }
    }
    assert forall|k: Seq<char>| #[trigger] key_map(n).contains_key(k) == key_map(es).insert(
        hash_key(r),
        r,
    ).contains_key(k) by {
        if key_map(n).contains_key(k) {
            let i = choose|i: int| 0 <= i < n.len() && hash_key(n[i]) == k;
            if i < es.len() {
                assert(es[i] == n[i]);
            }
        }
        if key_map(es).contains_key(k) {
            let i = choose|i: int| 0 <= i < es.len() && hash_key(es[i]) == k;
            assert(n[i] == es[i]);
        }
        if k == hash_key(r) {
            assert(n[es.len() as int] == r);
        }
    }
    assert forall|k: Seq<char>| #[trigger] key_map(n).contains_key(k) implies key_map(n)[k]
        == key_map(es).insert(hash_key(r), r)[k] by {
        let i = choose|i: int| 0 <= i < n.len() && hash_key(n[i]) == k;
        if k == hash_key(r) {
            assert(n[es.len() as int] == r);
        } else {
            let i2 = choose|i: int| 0 <= i < es.len() && hash_key(es[i]) == k;
            assert(n[i2] == es[i2]);
            assert(i == i2);
        }
    }
}

proof fn lemma_key_map_update(es: Seq<IndicatorView>, at: int, r: IndicatorView)
    requires
        unique_keys(es),
        0 <= at < es.len(),
        hash_key(es[at]) == hash_key(r),
    ensures
        unique_keys(es.update(at, r)),
        key_map(es.update(at, r)) =~= key_map(es).insert(hash_key(r), r),
{
    let n = es.update(at, r);
    assert forall|i: int, j: int|
        0 <= i < n.len() && 0 <= j < n.len() && i != j implies hash_key(#[trigger] n[i])
        != hash_key(#[trigger] n[j]) by {
        assert(hash_key(n[i]) == hash_key(es[i]));
        assert(hash_key(n[j]) == hash_key(es[j]));
    }
    assert forall|k: Seq<char>| #[trigger] key_map(n).contains_key(k) == key_map(es).insert(
        hash_key(r),
        r,
    ).contains_key(k) by {
        if key_map(n).contains_key(k) {
            let i = choose|i: int| 0 <= i < n.len() && hash_key(n[i]) == k;
            assert(hash_key(n[i]) == hash_key(es[i]));
        }
        if key_map(es).contains_key(k) {
            let i = choose|i: int| 0 <= i < es.len() && hash_key(es[i]) == k;
            assert(hash_key(n[i]) == hash_key(es[i]));
        }
        if k == hash_key(r) {
            assert(hash_key(n[at]) == k);
        }
    }
    assert forall|k: Seq<char>| #[trigger] key_map(n).contains_key(k) implies key_map(n)[k]
        == key_map(es).insert(hash_key(r), r)[k] by {
        let i = choose|i: int| 0 <= i < n.len() && hash_key(n[i]) == k;
        assert(hash_key(n[i]) == hash_key(es[i]));
        if k == hash_key(r) {
            assert(hash_key(n[at]) == k);
            assert(i == at);
        } else {
            let i2 = choose|i: int| 0 <= i < es.len() && hash_key(es[i]) == k;
            assert(hash_key(n[i2]) == hash_key(es[i2]));
            assert(i == i2);
        }
    }
}

proof fn lemma_key_map_len(es: Seq<IndicatorView>)
    requires
        unique_keys(es),
    ensures
        key_map(es).dom().len() == es.len(),
        key_map(es).dom().finite(),
{
    let ks = es.map_values(|i: IndicatorView| hash_key(i));
    assert(ks.no_duplicates()) by {
        assert forall|i: int, j: int| 0 <= i < ks.len() && 0 <= j < ks.len() && i != j implies ks[i]
            != ks[j] by {
            assert(hash_key(es[i]) != hash_key(es[j]));
        }
    }
    ks.unique_seq_to_set();
    assert(key_map(es).dom() =~= ks.to_set()) by {
        assert forall|k: Seq<char>| #[trigger] key_map(es).dom().contains(k) implies ks.to_set().contains(k) by {
            let i = choose|i: int| 0 <= i < es.len() && hash_key(es[i]) == k;
            assert(ks[i] == k);
        }
        assert forall|k: Seq<char>| #[trigger] ks.to_set().contains(k) implies key_map(es).dom().contains(k) by {
            let i = choose|i: int| 0 <= i < ks.len() && ks[i] == k;
            assert(hash_key(es[i]) == k);
        }
    }
}

/// Hash indicators keyed by their ASCII-lower-cased value.
pub struct HashIndex {
    entries: Vec<Indicator>,
}

impl HashIndex {
    #[verifier::type_invariant]
    spec fn keys_unique(self) -> bool {
        unique_keys(indicator_views(self.entries@))
    }

    /// The indicators held, by key.
    pub closed spec fn view_map(self) -> Map<Seq<char>, IndicatorView> {
        key_map(indicator_views(self.entries@))
    }

    /// An empty index.
    pub fn new() -> (h: HashIndex)
        ensures
            h.view_map() == Map::<Seq<char>, IndicatorView>::empty(),
    {
        let h = HashIndex { entries: Vec::new() };
        assert(h.view_map() =~= Map::<Seq<char>, IndicatorView>::empty());
        h
    }

    /// Position of the entry stored under `key`, if any.
    fn position(&self, key: &[char]) -> (r: Option<usize>)
        ensures
            match r {
                Some(i) => i < self.entries@.len() && hash_key(self.entries@[i as int]@) == key@,
                None => forall|i: int|
                    0 <= i < self.entries@.len() ==> hash_key(#[trigger] self.entries@[i]@) != key@,
            },
    {
        let mut i: usize = 0;
        while i < self.entries.len()
            invariant
                i <= self.entries@.len(),
                forall|j: int| 0 <= j < i ==> hash_key(#[trigger] self.entries@[j]@) != key@,
            decreases self.entries@.len() - i,
        {
            let v = chars_of(self.entries[i].value.as_str());
            let k = to_ascii_lower(v.as_slice());
            if equal_chars(k.as_slice(), key) {
                return Some(i);
            }
            i = i + 1;
        }
        None
    }

    /// Stores `ind` under its key, replacing an entry with the same key.
    pub fn insert(&mut self, ind: Indicator)
        ensures
            final(self).view_map() == old(self).view_map().insert(hash_key(ind@), ind@),
    {
        proof {
            use_type_invariant(&*self);
        }
        let v = chars_of(ind.value.as_str());
        let key = to_ascii_lower(v.as_slice());
        let ghost es = indicator_views(self.entries@);
        match self.position(key.as_slice()) {
            Some(i) => {
                proof {
                    lemma_key_map_update(es, i as int, ind@);
                    assert(indicator_views(self.entries@.update(i as int, ind)) =~= es.update(
                        i as int,
                        ind@,
                    ));
                }
                let mut entries: Vec<Indicator> = Vec::new();
                std::mem::swap(&mut entries, &mut self.entries);
                entries.set(i, ind);
                self.entries = entries;
            },
            None => {
                proof {
                    assert forall|j: int| 0 <= j < es.len() implies hash_key(#[trigger] es[j])
                        != hash_key(ind@) by {
                        assert(es[j] == self.entries@[j]@);
                    }
                    lemma_key_map_push(es, ind@);
                    assert(indicator_views(self.entries@.push(ind)) =~= es.push(ind@));
                }
                let mut entries: Vec<Indicator> = Vec::new();
                std::mem::swap(&mut entries, &mut self.entries);
                entries.push(ind);
                self.entries = entries;
            },
        }
    }

    /// The indicator stored under the ASCII-lower-cased `q`.
    pub fn get(&self, q: &str) -> (r: Option<&Indicator>)
        ensures
            match r {
                Some(i) => self.view_map().contains_key(lower_ascii_seq(q@)) && self.view_map()[lower_ascii_seq(q@)] == i@,
                None => !self.view_map().contains_key(lower_ascii_seq(q@)),
            },
    {
        proof {
            use_type_invariant(self);
        }
        let v = chars_of(q);
        let key = to_ascii_lower(v.as_slice());
        let ghost es = indicator_views(self.entries@);
        match self.position(key.as_slice()) {
            Some(i) => {
                proof {
                    let k = lower_ascii_seq(q@);
                    assert(hash_key(es[i as int]) == k);
                    let c = choose|j: int| 0 <= j < es.len() && hash_key(es[j]) == k;
                    assert(c == i);
                }
                Some(&self.entries[i])
            },
            None => {
                proof {
                    assert forall|j: int| 0 <= j < es.len() implies hash_key(es[j]) != lower_ascii_seq(q@) by {
                        assert(es[j] == self.entries@[j]@);
                    }
                }
                None
            },
        }
    }

    /// Number of distinct keys held.
    pub fn len(&self) -> (n: usize)
        ensures
            n == self.view_map().dom().len(),
    {
        proof {
            use_type_invariant(self);
            lemma_key_map_len(indicator_views(self.entries@));
        }
        self.entries.len()
    }
}


/// The I/O error type of `std::io`.
#[verifier::external_type_specification]
#[verifier::external_body]
pub struct ExIoError(std::io::Error);

/// Bytes in the UTF-8 encoding of `c`.
fn utf8_width(c: char) -> (w: usize)
    ensures
        w == vstd::utf8::encode_scalar(c as u32).len(),
        1 <= w <= 4,
{
    let n = c as u32;
    if n <= 0x7f {
        1
    } else if n <= 0x7ff {
        2
    } else if n <= 0xffff {
        3
    } else {
        4
    }
}

proof fn lemma_encode_push(s: Seq<char>, c: char)
    ensures
        vstd::utf8::encode_utf8(s.push(c)) == vstd::utf8::encode_utf8(s) + vstd::utf8::encode_scalar(c as u32),
    decreases s.len(),
{
    if s.len() == 0 {
        reveal_with_fuel(vstd::utf8::encode_utf8, 2);
        assert(s.push(c).drop_first() =~= Seq::<char>::empty());
        assert(vstd::utf8::encode_utf8(s.push(c)) =~= vstd::utf8::encode_scalar(c as u32));
    } else {
        lemma_encode_push(s.drop_first(), c);
        assert(s.push(c).drop_first() =~= s.drop_first().push(c));
        assert(vstd::utf8::encode_utf8(s.push(c)) =~= vstd::utf8::encode_utf8(s) + vstd::utf8::encode_scalar(c as u32));
    }
}

/// Whether the UTF-8 encoding of `v` is at most `MAX_INDICATOR_LEN` bytes.
fn fits_indicator_len(v: &[char]) -> (b: bool)
    ensures
        b == (vstd::utf8::encode_utf8(v@).len() <= MAX_INDICATOR_LEN),
{
    let mut total: usize = 0;
    let mut i: usize = 0;
    assert(v@.take(0) =~= Seq::<char>::empty());
    while i < v.len()
        invariant
            i <= v@.len(),
            total == vstd::utf8::encode_utf8(v@.take(i as int)).len(),
            total <= MAX_INDICATOR_LEN,
        decreases v@.len() - i,
    {
        proof {
            lemma_encode_push(v@.take(i as int), v@[i as int]);
            assert(v@.take(i + 1) =~= v@.take(i as int).push(v@[i as int]));
        }
        total = total + utf8_width(v[i]);
        if total > MAX_INDICATOR_LEN {
            proof {
                lemma_encode_prefix_le(v@, i + 1);
            }
            return false;
        }
        i = i + 1;
    }
    assert(v@.take(i as int) =~= v@);
    true
}

proof fn lemma_encode_prefix_le(s: Seq<char>, k: int)
    requires
        0 <= k <= s.len(),
    ensures
        vstd::utf8::encode_utf8(s.take(k)).len() <= vstd::utf8::encode_utf8(s).len(),
    decreases s.len() - k,
{
    if k < s.len() {
        lemma_encode_prefix_le(s, k + 1);
        lemma_encode_push(s.take(k), s[k]);
        assert(s.take(k + 1) =~= s.take(k).push(s[k]));
    } else {
        assert(s.take(k) =~= s);
    }
}

/// The indicators and hash indicators a feed yields at threshold `min`.
pub fn parse_feed(text: &str, min: Confidence) -> (r: (Vec<Indicator>, HashIndex))
    ensures
        indicator_views(r.0@) == scannable_of(feed_rows(text@), min),
        r.1.view_map() == hashes_of(feed_rows(text@), min),
{
    let v = chars_of(text);
    let ls = lines_of(v.as_slice());
    let ghost lv = ls@.map_values(|p: Vec<char>| p@);
    let ghost rows = feed_rows(text@);
    assert(lv == lines(text@));
    let mut out: Vec<Indicator> = Vec::new();
    let mut hashes = HashIndex::new();
    let mut n: usize = 1;
    assert(rows.take(0) =~= Seq::<Seq<char>>::empty());
    while n < ls.len()
        invariant
            1 <= n,
            ls@.len() == 0 || n <= ls@.len(),
            ls@.len() == 0 ==> n == 1,
            lv == ls@.map_values(|p: Vec<char>| p@),
            rows == (if lv.len() == 0 { lv } else { lv.skip(1) }),
            indicator_views(out@) == scannable_of(rows.take(n - 1), min),
            hashes.view_map() == hashes_of(rows.take(n - 1), min),
        decreases ls@.len() - n,
    {
        let row = parse_row(ls[n].as_slice());
        let ghost pre = rows.take(n - 1);
        let ghost line = lv[n as int];
        proof {
            assert(rows.take(n as int).drop_last() =~= pre);
            assert(rows.take(n as int).last() == line);
            assert(line == ls@[n as int]@);
        }
        match row {
            Some(ind) => {
                let vc = chars_of(ind.value.as_str());
                let nonempty = vc.len() > 0;
                let short = fits_indicator_len(vc.as_slice());
                if nonempty && short && ind.confidence.at_least(min) {
                    assert(admitted(ind@, min));
                    let kc = chars_of(ind.kind.as_str());
                    if is_scannable_kind(kc.as_slice()) {
                        out.push(ind);
                        assert(indicator_views(out@) =~= scannable_of(rows.take(n as int), min));
                    } else if is_hash_kind(kc.as_slice()) {
                        hashes.insert(ind);
                        assert(indicator_views(out@) =~= scannable_of(rows.take(n as int), min));
                    } else {
                        assert(indicator_views(out@) =~= scannable_of(rows.take(n as int), min));
                    }
                } else {
                    assert(!admitted(ind@, min));
                }
            },
            None => {},
        }
        n = n + 1;
    }
    proof {
        assert(lv.len() == ls@.len());
        if lv.len() > 0 {
            assert(rows.len() == n - 1);
            assert(rows.take(n - 1) =~= rows);
        } else {
            assert(rows.take(n - 1) =~= rows);
        }
    }
    (out, hashes)
}

/// Whether the automaton of a scanner over `inds` in `mode` cannot be built.
pub open spec fn scanner_build_fails(inds: Seq<IndicatorView>, mode: Mode) -> bool {
    automaton_build_fails(value_bytes(inds), mode == Mode::Fast, mode == Mode::Complete)
}

/// The byte patterns of a list of indicators: each value in UTF-8.
fn pattern_bytes(indicators: &Vec<Indicator>) -> (pats: Vec<Vec<u8>>)
    ensures
        pats@.map_values(|p: Vec<u8>| p@) == value_bytes(indicator_views(indicators@)),
{
    let mut pats: Vec<Vec<u8>> = Vec::new();
    let mut i: usize = 0;
    while i < indicators.len()
        invariant
            i <= indicators@.len(),
            pats@.map_values(|p: Vec<u8>| p@) == value_bytes(indicator_views(indicators@.take(i as int))),
        decreases indicators@.len() - i,
    {
        let vs = indicators[i].value.as_str();
        let bytes = vs.as_bytes();
        let pv = vstd::slice::slice_to_vec(bytes);
        assert(pv@ == vstd::utf8::encode_utf8(indicators@[i as int].value@));
        let ghost before = pats@.map_values(|p: Vec<u8>| p@);
        pats.push(pv);
        assert(pats@.map_values(|p: Vec<u8>| p@) =~= before.push(pv@));
        assert(indicators@.take(i + 1) =~= indicators@.take(i as int).push(indicators@[i as int]));
        assert(pats@.map_values(|p: Vec<u8>| p@) =~= value_bytes(indicator_views(indicators@.take(i + 1))));
        i = i + 1;
    }
    assert(indicators@.take(indicators@.len() as int) =~= indicators@);
    pats
}

/// What a scanner built over `inds` with `mode` is, or why it could not be built.
pub open spec fn built_from(r: Result<Scanner, Error>, inds: Seq<IndicatorView>, mode: Mode) -> bool {
    match r {
        Ok(s) => {
            &&& inds.len() > 0
            &&& !scanner_build_fails(inds, mode)
            &&& s.indicators_view() == inds
            &&& s.mode_view() == mode
        },
        Err(Error::NoIndicators) => inds.len() == 0,
        Err(Error::Build(_)) => {
            &&& inds.len() > 0
            &&& scanner_build_fails(inds, mode)
            &&& !within_build_limits(value_bytes(inds))
        },
    }
}

/// What a scanner read from feed `text` at threshold `min` is, or why it could not be built.
pub open spec fn read_from_feed(r: Result<Scanner, Error>, text: Seq<char>, min: Confidence) -> bool {
    &&& built_from(r, scannable_of(feed_rows(text), min), Mode::Complete)
    &&& r matches Ok(s) ==> s.hashes_view() == hashes_of(feed_rows(text), min)
    &&& r matches Ok(s) ==> all_nonempty(value_bytes(s.indicators_view()))
}

/// Every indicator a feed yields has a non-empty value, so its byte pattern
/// is non-empty and a `Mode::Complete` scan over a feed reports each match
/// once.
pub proof fn lemma_feed_patterns_nonempty(rows: Seq<Seq<char>>, min: Confidence)
    ensures
        all_nonempty(value_bytes(scannable_of(rows, min))),
    decreases rows.len(),
{
    let out = scannable_of(rows, min);
    if rows.len() > 0 {
        lemma_feed_patterns_nonempty(rows.drop_last(), min);
        let prev = scannable_of(rows.drop_last(), min);
        assert forall|i: int| 0 <= i < value_bytes(out).len() implies (#[trigger] value_bytes(out)[i]).len() > 0 by {
            if i < prev.len() {
                assert(out[i] == prev[i]);
                assert(value_bytes(prev)[i].len() > 0);
            } else {
                let v = out[i].value;
                assert(v.len() > 0);
                assert(vstd::utf8::encode_utf8(v) == vstd::utf8::encode_scalar(v[0] as u32)
                    + vstd::utf8::encode_utf8(v.drop_first()));
            }
        }
    }
}

/// A feed read at one threshold gives one outcome: two results that both
/// meet `read_from_feed` for the same text and threshold (such as
/// `from_csv(text)` and `from_csv_min(text, Confidence::Low)`) fail alike, or
/// both succeed with the same indicators, mode and hash indicators.
pub proof fn lemma_feed_outcome_unique(
    r1: Result<Scanner, Error>,
    r2: Result<Scanner, Error>,
    text: Seq<char>,
    min: Confidence,
)
    requires
        read_from_feed(r1, text, min),
        read_from_feed(r2, text, min),
    ensures
        r1 is Ok <==> r2 is Ok,
        (r1 matches Err(Error::NoIndicators)) <==> (r2 matches Err(Error::NoIndicators)),
        (r1 matches Err(Error::Build(_))) <==> (r2 matches Err(Error::Build(_))),
        r1 matches Ok(a) ==> r2 matches Ok(b) && a.indicators_view() == b.indicators_view()
            && a.mode_view() == b.mode_view() && a.hashes_view() == b.hashes_view(),
{
}

/// A compiled scanner: an Aho-Corasick automaton plus the indicator table,
/// and a side table of SHA-256 hash indicators for hash-based matching.
pub struct Scanner {
    ac: AhoCorasick,
    indicators: Vec<Indicator>,
    mode: Mode,
    hashes: HashIndex,
}

impl Scanner {
    #[verifier::type_invariant]
    spec fn well_formed(self) -> bool {
        &&& self.indicators@.len() > 0
        &&& automaton_patterns(self.ac) == value_bytes(indicator_views(self.indicators@))
        &&& automaton_folds_ascii_case(self.ac) == (self.mode == Mode::Complete)
        &&& automaton_leftmost_longest(self.ac) == (self.mode == Mode::Fast)
    }

    /// The compiled indicators, in pattern-id order.
    pub closed spec fn indicators_view(self) -> Seq<IndicatorView> {
        indicator_views(self.indicators@)
    }

    /// The scan mode.
    pub closed spec fn mode_view(self) -> Mode {
        self.mode
    }

    /// The hash indicators, by lower-cased digest.
    pub closed spec fn hashes_view(self) -> Map<Seq<char>, IndicatorView> {
        self.hashes.view_map()
    }

    /// Builds a scanner in `Mode::Complete`.
    ///
    /// Fails with `Error::NoIndicators` exactly when `indicators` is empty, and
    /// otherwise with `Error::Build` exactly when the automaton cannot be
    /// constructed, which never happens within `within_build_limits`.
    pub fn new(indicators: Vec<Indicator>) -> (r: Result<Scanner, Error>)
        ensures
            built_from(r, indicator_views(indicators@), Mode::Complete),
            r matches Ok(s) ==> s.hashes_view() == Map::<Seq<char>, IndicatorView>::empty(),
    {
        Scanner::with_mode(indicators, Mode::Complete)
    }

    /// Builds a scanner with an explicit mode.
    pub fn with_mode(indicators: Vec<Indicator>, mode: Mode) -> (r: Result<Scanner, Error>)
        ensures
            built_from(r, indicator_views(indicators@), mode),
            r matches Ok(s) ==> s.hashes_view() == Map::<Seq<char>, IndicatorView>::empty(),
    {
        if indicators.len() == 0 {
            return Err(Error::NoIndicators);
        }
        let pats = pattern_bytes(&indicators);
        let (leftmost_longest, fold) = match mode {
            Mode::Complete => (false, true),
            Mode::Fast => (true, false),
        };
        match build_automaton(&pats, leftmost_longest, fold) {
            Ok(ac) => {
                let h = HashIndex::new();
                Ok(Scanner { ac, indicators, mode, hashes: h })
            },
            Err(e) => Err(Error::Build(e)),
        }
    }

    /// Parses a feed, keeping every grade (`from_csv_min` with `Confidence::Low`).
    pub fn from_csv(text: &str) -> (r: Result<Scanner, Error>)
        ensures
            read_from_feed(r, text@, Confidence::Low),
    {
        Scanner::from_csv_min(text, Confidence::Low)
    }

    /// Parses a feed, keeping only indicators whose grade is at least `min`.
    ///
    /// Fails with `Error::NoIndicators` exactly when the feed yields no
    /// scannable indicator at that threshold.
    pub fn from_csv_min(text: &str, min: Confidence) -> (r: Result<Scanner, Error>)
        ensures
            read_from_feed(r, text@, min),
    {
        let (out, hashes) = parse_feed(text, min);
        proof {
            lemma_feed_patterns_nonempty(feed_rows(text@), min);
        }
        match Scanner::new(out) {
            Ok(s) => {
                let mut s = s;
                proof {
                    use_type_invariant(&s);
                }
                s.hashes = hashes;
                Ok(s)
            },
            Err(e) => Err(e),
        }
    }

    /// Looks up a SHA-256 hex digest, ignoring ASCII case, among the hash indicators.
    pub fn hash_lookup(&self, sha256_hex: &str) -> (r: Option<&Indicator>)
        ensures
            match r {
                Some(i) => self.hashes_view().contains_key(lower_ascii_seq(sha256_hex@))
                    && self.hashes_view()[lower_ascii_seq(sha256_hex@)] == i@,
                None => !self.hashes_view().contains_key(lower_ascii_seq(sha256_hex@)),
            },
    {
        self.hashes.get(sha256_hex)
    }

    /// Looks up, among the hash indicators, the content a SHA-256 stream was
    /// fed: by the lower-case hexadecimal form of its digest.
    pub fn lookup_digest(&self, stream: Sha256Stream) -> (r: Option<&Indicator>)
        ensures
            match r {
                Some(i) => self.hashes_view().contains_key(hex_lower_of(sha256_of(stream.fed())))
                    && self.hashes_view()[hex_lower_of(sha256_of(stream.fed()))] == i@,
                None => !self.hashes_view().contains_key(hex_lower_of(sha256_of(stream.fed()))),
            },
    {
        let hex = stream.finish_hex();
        self.hash_lookup(hex.as_str())
    }

    /// Number of hash indicators loaded.
    pub fn hash_count(&self) -> (n: usize)
        ensures
            n == self.hashes_view().dom().len(),
    {
        self.hashes.len()
    }

    /// Scans a byte haystack.
    ///
    /// In `Mode::Complete` every hit is a real ASCII-case-insensitive match and
    /// every match is reported (overlapping; an empty indicator at every
    /// offset), each once when no indicator is empty; in
    /// `Mode::Fast` the hits are the case-sensitive leftmost-longest
    /// non-overlapping matches (stated outright when no indicator is empty).
    pub fn scan(&self, haystack: &[u8]) -> (hits: Vec<Hit>)
        ensures
            self.mode_view() == Mode::Complete ==> {
                &&& hits_sound(hits@, value_bytes(self.indicators_view()), haystack@, true)
                &&& hits_complete(hits@, value_bytes(self.indicators_view()), haystack@, true)
                &&& all_nonempty(value_bytes(self.indicators_view())) ==> hits_distinct(hits@)
            },
            self.mode_view() == Mode::Fast ==> {
                &&& hits@.map_values(|h: Hit| (h.indicator as nat, h.offset as nat))
                    == find_iter_matches(value_bytes(self.indicators_view()), false, true, haystack@)
                &&& hits_sound(hits@, value_bytes(self.indicators_view()), haystack@, false)
                &&& all_nonempty(value_bytes(self.indicators_view())) ==> leftmost_longest(
                    hits@,
                    value_bytes(self.indicators_view()),
                    haystack@,
                )
            },
    {
        proof {
            use_type_invariant(self);
        }
        match self.mode {
            Mode::Complete => overlapping_matches(&self.ac, haystack),
            Mode::Fast => nonoverlapping_matches(&self.ac, haystack),
        }
    }

    /// Scans a stream without holding it in memory
    /// (`AhoCorasick::stream_find_iter`): reports non-overlapping matches in
    /// either mode and propagates I/O errors. Streaming needs standard match
    /// semantics, so a `Mode::Fast` scanner streams with an automaton of
    /// standard semantics built over the same indicators, still
    /// case-sensitive; should that build fail, the failure comes back as an
    /// I/O error. Of the hits only that each names one of the scanner's
    /// indicators is stated: which matches are found depends on what the
    /// reader yields.
    pub fn scan_reader<R: std::io::Read>(&self, reader: R) -> (r: Result<Vec<Hit>, std::io::Error>)
        ensures
            r matches Ok(hits) ==> forall|k: int|
                0 <= k < hits@.len() ==> (#[trigger] hits@[k]).indicator < self.indicators_view().len(),
    {
        proof {
            use_type_invariant(self);
        }
        match self.mode {
            Mode::Complete => stream_matches(&self.ac, reader),
            Mode::Fast => {
                let pats = pattern_bytes(&self.indicators);
                match build_automaton(&pats, false, false) {
                    Ok(ac) => stream_matches(&ac, reader),
                    Err(e) => Err(build_error_as_io(e)),
                }
            },
        }
    }

    /// The indicator behind a hit.
    pub fn indicator(&self, hit: &Hit) -> (i: &Indicator)
        requires
            hit.indicator < self.indicators_view().len(),
        ensures
            i@ == self.indicators_view()[hit.indicator as int],
    {
        &self.indicators[hit.indicator]
    }

    /// How the scanner matches.
    pub fn mode(&self) -> (m: Mode)
        ensures
            m == self.mode_view(),
    {
        self.mode
    }

    /// Number of compiled indicators.
    pub fn len(&self) -> (n: usize)
        ensures
            n == self.indicators_view().len(),
            n > 0,
    {
        proof {
            use_type_invariant(self);
        }
        self.indicators.len()
    }

    /// Whether the scanner has any indicators (always true once built).
    pub fn is_empty(&self) -> (b: bool)
        ensures
            b == (self.indicators_view().len() > 0),
            b,
    {
        proof {
            use_type_invariant(self);
        }
        self.indicators.len() > 0
    }
}

} // verus!
