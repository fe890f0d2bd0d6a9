//! Attack timelines: each breach placed on the kill chain, ordered by date,
//! with the likely attack vector and the attacker's probable country.

use vstd::prelude::*;
use crate::catalog::{is_ranking, rank_positions};
use crate::osint::geolocation::{BreachView, BreachVictimData, opt_view};
use crate::osint::threat_feeds::ThreatIntelligenceFeed;
use crate::keyed::{group_of, group_pairs, groups_view, lemma_lookup_at, lemma_lookup_found, lookup, unique_keys};
use crate::text::{
    chars_of, contains, contains_seq, equal_chars, lowercase_of, push_str, split_all, split_on, string_from,
    string_of, to_lowercase, views,
};

verus! {

broadcast use vstd::string::group_string_axioms;

/// A stage of the cyber kill chain.
#[derive(Debug, Clone, Copy, PartialEq, Eq, Structural, PartialOrd, Ord)]
pub enum AttackStage {
    Reconnaissance,
    Weaponization,
    Delivery,
    Exploitation,
    Installation,
    CommandControl,
    Actions,
    Breach,
    Unknown,
}

/// The display name of a stage.
pub open spec fn stage_name(s: AttackStage) -> Seq<char> {
    match s {
        AttackStage::Reconnaissance => "Reconnaissance"@,
        AttackStage::Weaponization => "Weaponization"@,
        AttackStage::Delivery => "Delivery"@,
        AttackStage::Exploitation => "Exploitation"@,
        AttackStage::Installation => "Installation"@,
        AttackStage::CommandControl => "Command & Control"@,
        AttackStage::Actions => "Actions on Objectives"@,
        AttackStage::Breach => "Breach Detected"@,
        AttackStage::Unknown => "Unknown"@,
    }
}

/// What happens in a stage.
pub open spec fn stage_description(s: AttackStage) -> Seq<char> {
    match s {
        AttackStage::Reconnaissance => "Attacker gathers intelligence"@,
        AttackStage::Weaponization => "Attacker creates malware/payloads"@,
        AttackStage::Delivery => "Attacker delivers malware/payload"@,
        AttackStage::Exploitation => "Payload executes on target"@,
        AttackStage::Installation => "Attacker installs backdoors/persistence"@,
        AttackStage::CommandControl => "Attacker establishes command channel"@,
        AttackStage::Actions => "Attacker performs mission objectives"@,
        AttackStage::Breach => "Breach discovered by victim/analysts"@,
        AttackStage::Unknown => "Stage not determined"@,
    }
}

impl AttackStage {
    /// The display name of the stage.
    pub fn as_str(&self) -> (r: &'static str)
        ensures
            r@ == stage_name(*self),
    {
        match self {
            AttackStage::Reconnaissance => "Reconnaissance",
            AttackStage::Weaponization => "Weaponization",
            AttackStage::Delivery => "Delivery",
            AttackStage::Exploitation => "Exploitation",
            AttackStage::Installation => "Installation",
            AttackStage::CommandControl => "Command & Control",
            AttackStage::Actions => "Actions on Objectives",
            AttackStage::Breach => "Breach Detected",
            AttackStage::Unknown => "Unknown",
        }
    }

    /// What happens in the stage.
    pub fn description(&self) -> (r: &'static str)
        ensures
            r@ == stage_description(*self),
    {
        match self {
            AttackStage::Reconnaissance => "Attacker gathers intelligence",
            AttackStage::Weaponization => "Attacker creates malware/payloads",
            AttackStage::Delivery => "Attacker delivers malware/payload",
            AttackStage::Exploitation => "Payload executes on target",
            AttackStage::Installation => "Attacker installs backdoors/persistence",
            AttackStage::CommandControl => "Attacker establishes command channel",
            AttackStage::Actions => "Attacker performs mission objectives",
            AttackStage::Breach => "Breach discovered by victim/analysts",
            AttackStage::Unknown => "Stage not determined",
        }
    }
}

/// Some field of `fields` is exactly `x`.
pub open spec fn has_field(fields: Seq<Seq<char>>, x: Seq<char>) -> bool {
    exists|i: int| 0 <= i < fields.len() && fields[i] == x
}

/// Some field names sensitive data (SSN, credit, account).
pub open spec fn has_sensitive(fields: Seq<Seq<char>>) -> bool {
    exists|i: int|
        0 <= i < fields.len() && (contains_seq(fields[i], "ssn"@) || contains_seq(fields[i], "credit"@)
            || contains_seq(fields[i], "account"@))
}

/// The kill-chain stage a breach points to: credentials with sensitive data
/// mean actions on objectives, credentials with a phone number command and
/// control, credentials alone installation, sensitive data alone
/// exploitation, e-mail with phone delivery, e-mail alone weaponization, and
/// anything else (or nothing exposed) reconnaissance.
pub open spec fn stage_of(b: BreachView) -> AttackStage {
    let f = b.exposed_fields;
    let cred = b.password_hash is Some;
    let email = has_field(f, "email"@);
    let phone = has_field(f, "phone"@);
    let sensitive = has_sensitive(f);
    if f.len() == 0 {
        AttackStage::Reconnaissance
    } else if cred && sensitive {
        AttackStage::Actions
    } else if cred && phone {
        AttackStage::CommandControl
    } else if cred {
        AttackStage::Installation
    } else if sensitive {
        AttackStage::Exploitation
    } else if email && phone {
        AttackStage::Delivery
    } else if email {
        AttackStage::Weaponization
    } else {
        AttackStage::Reconnaissance
    }
}

/// The indicators of a breach: its name, the victim's location when known,
/// and the forum it was traded on.
pub open spec fn indicators_of(b: BreachView) -> Seq<Seq<char>> {
    match b.victim_location {
        Some(l) => seq![b.breach_name, l, b.stealer_forum],
        None => seq![b.breach_name, b.stealer_forum],
    }
}

/// The likely attack vector of a set of breaches.
pub open spec fn attack_vector(bs: Seq<BreachView>) -> Seq<char> {
    let phishing = exists|i: int| 0 <= i < bs.len() && contains_seq(lowercase_of(bs[i].breach_name), "phishing"@);
    let cred = exists|i: int| 0 <= i < bs.len() && bs[i].password_hash is Some;
    if phishing {
        "Phishing / Social Engineering"@
    } else if cred && bs.len() > 1 {
        "Credential Compromise / Lateral Movement"@
    } else if cred {
        "Direct Credential Theft"@
    } else if bs.len() > 2 {
        "Multi-Vector Attack / Supply Chain"@
    } else {
        "Data Exposure / Breach"@
    }
}

/// The country a stealer forum is attributed to, consulting the forum table
/// (BreachForums, XSS and Exploit: Russia; Underground: China; BlackMarket:
/// unknown) in that order.
pub open spec fn forum_country(forum: Seq<char>) -> Option<Seq<char>> {
    forum_country_from(forum, 0)
}

/// The forum table from entry `k` on.
pub open spec fn forum_country_from(forum: Seq<char>, k: int) -> Option<Seq<char>>
    decreases 5 - k,
{
    if k >= 5 {
        None
    } else {
        let key = if k == 0 {
            "BreachForums"@
        } else if k == 1 {
            "XSS"@
        } else if k == 2 {
            "Exploit"@
        } else if k == 3 {
            "Underground"@
        } else {
            "BlackMarket"@
        };
        let country = if k <= 2 {
            "Russia"@
        } else if k == 3 {
            "China"@
        } else {
            "Unknown"@
        };
        if contains_seq(forum, key) {
            Some(country)
        } else {
            forum_country_from(forum, k + 1)
        }
    }
}

/// The attacker's probable country: that of the first breach whose forum is
/// in the table.
pub open spec fn attacker_country(bs: Seq<BreachView>) -> Option<Seq<char>>
    decreases bs.len(),
{
    if bs.len() == 0 {
        None
    } else {
        match forum_country(bs[0].stealer_forum) {
            Some(c) => Some(c),
            None => attacker_country(bs.drop_first()),
        }
    }
}

/// `s` with every `-` removed.
pub open spec fn without_dashes(s: Seq<char>) -> Seq<char> {
    s.filter(|c: char| c != '-')
}

/// Whether `c` is an ASCII digit.
pub open spec fn is_digit(c: char) -> bool {
    '0' <= c <= '9'
}

/// The value of a string of decimal digits.
pub open spec fn digits_value(d: Seq<char>) -> nat
    decreases d.len(),
{
    if d.len() == 0 {
        0
    } else {
        digits_value(d.drop_last()) * 10 + (d.last() as nat - '0' as nat) as nat
    }
}

/// The digits of an unsigned number text: without a leading `+`.
pub open spec fn unsigned_digits(t: Seq<char>) -> Seq<char> {
    if t.len() > 0 && t[0] == '+' {
        t.drop_first()
    } else {
        t
    }
}

/// Every character is an ASCII digit.
pub open spec fn all_digits(d: Seq<char>) -> bool {
    forall|i: int| 0 <= i < d.len() ==> is_digit(#[trigger] d[i])
}

/// What `str::parse::<i32>` gives for a text without a minus sign: an
/// optional `+`, then one or more digits whose value fits in an `i32`.
pub open spec fn parse_i32_unsigned(t: Seq<char>) -> Option<int> {
    let d = unsigned_digits(t);
    if d.len() == 0 || !all_digits(d) {
        None
    } else if digits_value(d) > i32::MAX {
        None
    } else {
        Some(digits_value(d) as int)
    }
}

/// A date as a number: its digits with the dashes removed, or 0 when that
/// does not parse as an `i32`.
pub open spec fn date_number(s: Seq<char>) -> int {
    match parse_i32_unsigned(without_dashes(s)) {
        Some(v) => v,
        None => 0,
    }
}

/// The span between two dates: the difference of their numbers, divided by
/// 10000 when above 10000; 0 unless both dates are given.
pub open spec fn duration_days(start: Option<Seq<char>>, end: Option<Seq<char>>) -> int {
    match (start, end) {
        (Some(s), Some(e)) => {
            let diff = if date_number(e) >= date_number(s) {
                date_number(e) - date_number(s)
            } else {
                date_number(s) - date_number(e)
            };
            if diff > 10000 {
                diff / 10000
            } else {
                diff
            }
        },
        _ => 0,
    }
}

/// Appending a digit grows the value.
pub(crate) proof fn lemma_digits_value_grows(d: Seq<char>, i: int)
    requires
        0 <= i <= d.len(),
        all_digits(d),
    ensures
        digits_value(d.take(i)) <= digits_value(d),
    decreases d.len() - i,
{
    if i < d.len() {
        lemma_digits_value_grows(d, i + 1);
        assert(d.take(i + 1).drop_last() =~= d.take(i));
    } else {
        assert(d.take(i) =~= d);
    }
}

/// The number a date stands for (see `date_number`).
fn parse_date_number(s: &str) -> (r: i32)
    ensures
        r as int == date_number(s@),
        r >= 0,
{
    let v = chars_of(s);
    let mut t: Vec<char> = Vec::new();
    let mut i: usize = 0;
    while i < v.len()
        invariant
            i <= v@.len(),
            v@ == s@,
            t@ == without_dashes(s@.take(i as int)),
        decreases v@.len() - i,
    {
        proof {
            s@.take(i as int).lemma_filter_push(s@[i as int], |c: char| c != '-');
            assert(s@.take(i + 1) =~= s@.take(i as int).push(s@[i as int]));
        }
        if v[i] != '-' {
            t.push(v[i]);
        }
        i = i + 1;
    }
    assert(s@.take(i as int) =~= s@);
    let ghost tt = t@;
    let start: usize = if t.len() > 0 && t[0] == '+' { 1 } else { 0 };
    let ghost d = unsigned_digits(tt);
    assert(d =~= tt.subrange(start as int, tt.len() as int));
    if start == t.len() {
        return 0;
    }
    let mut value: i32 = 0;
    let mut k: usize = start;
    while k < t.len()
        invariant
            start <= k <= t@.len(),
            t@ == tt,
            tt == without_dashes(s@),
            d == unsigned_digits(tt),
            d == tt.subrange(start as int, tt.len() as int),
            d.len() > 0,
            forall|j: int| 0 <= j < k - start ==> is_digit(d[j]),
            value as int == digits_value(d.take(k - start)),
            value >= 0,
        decreases t@.len() - k,
    {
        let c = t[k];
        if !('0' <= c && c <= '9') {
            assert(!is_digit(d[k - start]));
            assert(!all_digits(d));
            return 0;
        }
        let digit: i32 = (c as u32 - '0' as u32) as i32;
        proof {
            assert(d.take(k - start + 1).drop_last() =~= d.take(k - start));
            assert(d.take(k - start + 1).last() == c);
        }
        if value > (i32::MAX - digit) / 10 {
            proof {
                assert(digits_value(d.take(k - start + 1)) > i32::MAX);
                if all_digits(d) {
                    lemma_digits_value_grows(d, k - start + 1);
                }
            }
            return 0;
        }
        value = value * 10 + digit;
        k = k + 1;
    }
    assert(d.take(d.len() as int) =~= d);
    value
}

/// A breach placed on the timeline.
#[derive(Debug, Clone)]
pub struct TimelineEvent {
    pub date: String,
    pub stage: AttackStage,
    pub event_type: String,
    pub description: String,
    pub indicators: Vec<String>,
    /// Confidence in percent: 60 for the earliest event, 80 for later ones.
    pub confidence_percent: u32,
}

/// The timeline of attacks on one victim.
#[derive(Debug, Clone)]
pub struct AttackTimeline {
    pub email: String,
    pub total_events: usize,
    pub earliest_event: Option<String>,
    pub latest_event: Option<String>,
    pub attack_duration_days: usize,
    pub events: Vec<TimelineEvent>,
    pub stage_progression: Vec<AttackStage>,
    pub likely_attack_vector: String,
    pub estimated_attacker_country: Option<String>,
}

/// The text of a list joined with `", "`.
pub open spec fn comma_list(parts: Seq<Seq<char>>) -> Seq<char> {
    crate::text::join(parts, ", "@)
}

/// `e` is the timeline event of breach `b`, the earliest one when `first`.
pub open spec fn event_ok(e: TimelineEvent, b: BreachView, first: bool) -> bool {
    &&& e.date@ == b.breach_date
    &&& e.stage == stage_of(b)
    &&& e.event_type@ == b.breach_name
    &&& e.description@ == "Breach: "@ + b.breach_name + " - Exposed fields: "@ + comma_list(b.exposed_fields)
    &&& e.indicators@.map_values(|s: String| s@) == indicators_of(b)
    &&& e.confidence_percent == if first {
        60u32
    } else {
        80u32
    }
}

/// The distinct stages of `s` in order of first appearance.
pub open spec fn distinct_stages(s: Seq<AttackStage>) -> Seq<AttackStage>
    decreases s.len(),
{
    if s.len() == 0 {
        Seq::empty()
    } else if distinct_stages(s.drop_last()).contains(s.last()) {
        distinct_stages(s.drop_last())
    } else {
        distinct_stages(s.drop_last()).push(s.last())
    }
}

/// `order` lists the breaches by date (text order), earlier position first
/// among equal dates: the ranking of equal scores by date.
pub open spec fn date_order(bs: Seq<BreachView>, order: Seq<usize>) -> bool {
    is_ranking(Seq::new(bs.len(), |i: int| 1int), bs.map_values(|b: BreachView| b.breach_date), order)
}

/// The views of a slice of breach records.
pub open spec fn breach_views(bs: Seq<BreachVictimData>) -> Seq<BreachView> {
    bs.map_values(|b: BreachVictimData| b@)
}

/// Whether some field equals `x`.
fn field_present(fields: &Vec<String>, x: &str) -> (r: bool)
    ensures
        r == has_field(fields@.map_values(|s: String| s@), x@),
{
    let want = chars_of(x);
    let mut i: usize = 0;
    while i < fields.len()
        invariant
            i <= fields@.len(),
            want@ == x@,
            forall|j: int| 0 <= j < i ==> fields@[j]@ != x@,
        decreases fields@.len() - i,
    {
        if equal_chars(&chars_of(fields[i].as_str()), &want) {
            assert(fields@.map_values(|s: String| s@)[i as int] == x@);
            return true;
        }
        i = i + 1;
    }
    false
}

/// Whether some field names sensitive data.
fn sensitive_present(fields: &Vec<String>) -> (r: bool)
    ensures
        r == has_sensitive(fields@.map_values(|s: String| s@)),
{
    let ssn = chars_of("ssn");
    let credit = chars_of("credit");
    let account = chars_of("account");
    let mut i: usize = 0;
    while i < fields.len()
        invariant
            i <= fields@.len(),
            ssn@ == "ssn"@,
            credit@ == "credit"@,
            account@ == "account"@,
            forall|j: int|
                0 <= j < i ==> !(contains_seq(fields@[j]@, "ssn"@) || contains_seq(fields@[j]@, "credit"@)
                    || contains_seq(fields@[j]@, "account"@)),
        decreases fields@.len() - i,
    {
        let f = chars_of(fields[i].as_str());
        if contains(&f, &ssn) || contains(&f, &credit) || contains(&f, &account) {
            assert(fields@.map_values(|s: String| s@)[i as int] == fields@[i as int]@);
            return true;
        }
        i = i + 1;
    }
    false
}

/// Joins strings with `", "`.
fn join_comma(parts: &Vec<String>) -> (r: String)
    ensures
        r@ == comma_list(parts@.map_values(|s: String| s@)),
{
    let mut r = String::new();
    if parts.len() == 0 {
        assert(parts@.map_values(|s: String| s@) =~= Seq::<Seq<char>>::empty());
        return r;
    }
    push_str(&mut r, parts[0].as_str());
    let ghost pv = parts@.map_values(|s: String| s@);
    assert(pv.take(1) =~= seq![parts@[0]@]);
    let mut i: usize = 1;
    while i < parts.len()
        invariant
            1 <= i <= parts@.len(),
            pv == parts@.map_values(|s: String| s@),
            r@ == comma_list(pv.take(i as int)),
        decreases parts@.len() - i,
    {
        push_str(&mut r, ", ");
        push_str(&mut r, parts[i].as_str());
        proof {
            assert(pv.take(i + 1).drop_last() =~= pv.take(i as int));
            assert(pv.take(i + 1).last() == parts@[i as int]@);
            assert(r@ =~= comma_list(pv.take(i as int)) + ", "@ + parts@[i as int]@);
        }
        i = i + 1;
    }
    assert(pv.take(i as int) =~= pv);
    r
}

/// The stages of the breaches in the given order.
pub open spec fn ordered_stages(bs: Seq<BreachView>, order: Seq<usize>) -> Seq<AttackStage> {
    Seq::new(order.len(), |k: int| stage_of(bs[order[k] as int]))
}

/// `t` is the timeline of the breaches `bs` placed in date order `order`.
pub open spec fn timeline_ok(t: AttackTimeline, bs: Seq<BreachView>, order: Seq<usize>) -> bool {
    &&& order.len() > 0
    &&& order.len() == bs.len()
    &&& t.events@.len() == order.len()
    &&& forall|k: int| 0 <= k < order.len() ==> event_ok(#[trigger] t.events@[k], bs[order[k] as int], k == 0)
    &&& t.total_events == order.len()
    &&& opt_view(t.earliest_event) == Some(bs[order[0] as int].breach_date)
    &&& opt_view(t.latest_event) == Some(bs[order[order.len() - 1] as int].breach_date)
    &&& t.attack_duration_days == duration_days(opt_view(t.earliest_event), opt_view(t.latest_event))
    &&& t.stage_progression@ == distinct_stages(ordered_stages(bs, order))
    &&& t.likely_attack_vector@ == attack_vector(bs)
    &&& opt_view(t.estimated_attacker_country) == attacker_country(bs)
}

/// The timeline of a victim without breaches.
pub open spec fn empty_timeline(t: AttackTimeline) -> bool {
    &&& t.total_events == 0
    &&& t.earliest_event is None
    &&& t.latest_event is None
    &&& t.attack_duration_days == 0
    &&& t.events@.len() == 0
    &&& t.stage_progression@.len() == 0
    &&& t.likely_attack_vector@ == "Unknown"@
    &&& t.estimated_attacker_country is None
}

/// Whether `stage` is already listed.
fn stage_listed(list: &Vec<AttackStage>, stage: AttackStage) -> (r: bool)
    ensures
        r == list@.contains(stage),
{
    let mut i: usize = 0;
    while i < list.len()
        invariant
            i <= list@.len(),
            forall|j: int| 0 <= j < i ==> list@[j] != stage,
        decreases list@.len() - i,
    {
        if list[i] == stage {
            return true;
        }
        i = i + 1;
    }
    false
}

/// Analyses breaches against the threat-actor feed.
pub struct TimelineAnalyzer {
    pub threat_feed: ThreatIntelligenceFeed,
}

impl TimelineAnalyzer {
    /// An analyzer over a feed.
    pub fn new(threat_feed: ThreatIntelligenceFeed) -> (r: Self)
        ensures
            r.threat_feed == threat_feed,
    {
        TimelineAnalyzer { threat_feed }
    }

    /// The kill-chain stage a breach points to (see `stage_of`).
    pub fn infer_attack_stage(&self, breach: &BreachVictimData) -> (r: AttackStage)
        ensures
            r == stage_of(breach@),
    {
        if breach.exposed_fields.len() == 0 {
            return AttackStage::Reconnaissance;
        }
        let cred = breach.password_hash.is_some();
        let email = field_present(&breach.exposed_fields, "email");
        let phone = field_present(&breach.exposed_fields, "phone");
        let sensitive = sensitive_present(&breach.exposed_fields);
        if cred && sensitive {
            AttackStage::Actions
        } else if cred && phone {
            AttackStage::CommandControl
        } else if cred {
            AttackStage::Installation
        } else if sensitive {
            AttackStage::Exploitation
        } else if email && phone {
            AttackStage::Delivery
        } else if email {
            AttackStage::Weaponization
        } else {
            AttackStage::Reconnaissance
        }
    }

    /// The indicators of a breach: its name, the victim's location when
    /// known, and its forum.
    pub fn extract_indicators(&self, breach: &BreachVictimData) -> (r: Vec<String>)
        ensures
            r@.map_values(|s: String| s@) == indicators_of(breach@),
    {
        let mut r: Vec<String> = Vec::new();
        r.push(breach.breach_name.clone());
        match &breach.victim_location {
            Some(l) => {
                r.push(l.clone());
            },
            None => {},
        }
        r.push(breach.stealer_forum.clone());
        assert(r@.map_values(|s: String| s@) =~= indicators_of(breach@));
        r
    }

    /// The likely attack vector of a set of breaches (see `attack_vector`).
    pub fn determine_attack_vector(&self, breaches: &[BreachVictimData]) -> (r: String)
        ensures
            r@ == attack_vector(breach_views(breaches@)),
    {
        let ghost bs = breach_views(breaches@);
        let phishing_word = chars_of("phishing");
        let mut phishing = false;
        let mut cred = false;
        let mut i: usize = 0;
        while i < breaches.len()
            invariant
                i <= breaches@.len(),
                bs == breach_views(breaches@),
                phishing_word@ == "phishing"@,
                phishing == exists|j: int| 0 <= j < i && contains_seq(lowercase_of(bs[j].breach_name), "phishing"@),
                cred == exists|j: int| 0 <= j < i && bs[j].password_hash is Some,
            decreases breaches@.len() - i,
        {
            let low = to_lowercase(breaches[i].breach_name.as_str());
            assert(bs[i as int] == breaches@[i as int]@);
            if contains(&chars_of(low.as_str()), &phishing_word) {
                phishing = true;
            }
            if breaches[i].password_hash.is_some() {
                cred = true;
            }
            i = i + 1;
        }
        let n = breaches.len();
        if phishing {
            string_from("Phishing / Social Engineering")
        } else if cred && n > 1 {
            string_from("Credential Compromise / Lateral Movement")
        } else if cred {
            string_from("Direct Credential Theft")
        } else if n > 2 {
            string_from("Multi-Vector Attack / Supply Chain")
        } else {
            string_from("Data Exposure / Breach")
        }
    }

    /// The attacker's probable country (see `attacker_country`).
    pub fn infer_attacker_country(&self, breaches: &[BreachVictimData]) -> (r: Option<String>)
        ensures
            opt_view(r) == attacker_country(breach_views(breaches@)),
    {
        let ghost bs = breach_views(breaches@);
        let table: [(&str, &str); 5] = [
            ("BreachForums", "Russia"),
            ("XSS", "Russia"),
            ("Exploit", "Russia"),
            ("Underground", "China"),
            ("BlackMarket", "Unknown"),
        ];
        let mut i: usize = 0;
        assert(bs.skip(0) =~= bs);
        while i < breaches.len()
            invariant
                i <= breaches@.len(),
                bs == breach_views(breaches@),
                table@ == seq![
                    ("BreachForums", "Russia"),
                    ("XSS", "Russia"),
                    ("Exploit", "Russia"),
                    ("Underground", "China"),
                    ("BlackMarket", "Unknown"),
                ],
                attacker_country(bs) == attacker_country(bs.skip(i as int)),
            decreases breaches@.len() - i,
        {
            let forum = chars_of(breaches[i].stealer_forum.as_str());
            let ghost f = bs[i as int].stealer_forum;
            assert(bs[i as int] == breaches@[i as int]@);
            proof {
                assert(bs.skip(i as int)[0] == bs[i as int]);
                assert(bs.skip(i as int).drop_first() =~= bs.skip(i + 1));
                assert(attacker_country(bs) == match forum_country(f) {
                    Some(c) => Some(c),
                    None => attacker_country(bs.skip(i + 1)),
                });
            }
            let mut k: usize = 0;
            while k < 5
                invariant
                    k <= 5,
                    forum@ == f,
                    bs == breach_views(breaches@),
                    table@ == seq![
                        ("BreachForums", "Russia"),
                        ("XSS", "Russia"),
                        ("Exploit", "Russia"),
                        ("Underground", "China"),
                        ("BlackMarket", "Unknown"),
                    ],
                    forum_country(f) == forum_country_from(f, k as int),
                    attacker_country(bs) == match forum_country(f) {
                        Some(c) => Some(c),
                        None => attacker_country(bs.skip(i + 1)),
                    },
                decreases 5 - k,
            {
                let (key, country) = table[k];
                if contains(&forum, &chars_of(key)) {
                    return Some(string_from(country));
                }
                k = k + 1;
            }
            i = i + 1;
        }
        None
    }

    /// The attack timeline of a victim: one event per breach in date order,
    /// the distinct stages in the order they first appear, the first and last
    /// dates and the span between them, the likely vector and the attacker's
    /// probable country.
    pub fn analyze_attack_timeline(&self, email: &str, breaches: &[BreachVictimData]) -> (r: AttackTimeline)
        ensures
            r.email@ == email@,
            r.total_events == breaches@.len(),
            breaches@.len() == 0 ==> empty_timeline(r),
            breaches@.len() > 0 ==> exists|order: Seq<usize>|
                date_order(breach_views(breaches@), order) && timeline_ok(r, breach_views(breaches@), order),
    {
        let ghost bs = breach_views(breaches@);
        if breaches.len() == 0 {
            return AttackTimeline {
                email: string_from(email),
                total_events: 0,
                earliest_event: None,
                latest_event: None,
                attack_duration_days: 0,
                events: Vec::new(),
                stage_progression: Vec::new(),
                likely_attack_vector: string_from("Unknown"),
                estimated_attacker_country: None,
            };
        }
        let mut ones: Vec<usize> = Vec::new();
        let mut dates: Vec<Vec<char>> = Vec::new();
        let mut i: usize = 0;
        while i < breaches.len()
            invariant
                i <= breaches@.len(),
                ones@.len() == i,
                dates@.len() == i,
                forall|j: int| 0 <= j < i ==> #[trigger] ones@[j] == 1,
                forall|j: int| 0 <= j < i ==> #[trigger] dates@[j]@ == breaches@[j].breach_date@,
            decreases breaches@.len() - i,
        {
            ones.push(1);
            dates.push(chars_of(breaches[i].breach_date.as_str()));
            i = i + 1;
        }
        let order = rank_positions(&ones, &dates);
        proof {
            assert(ones@.map_values(|s: usize| s as int) =~= Seq::new(bs.len(), |i: int| 1int));
            assert(dates@.map_values(|d: Vec<char>| d@) =~= bs.map_values(|b: BreachView| b.breach_date));
            assert(ones@.map_values(|s: usize| s as int)[0] > 0);
            assert(order@.contains(0int as usize));
            crate::catalog::lemma_ranking_covers_all(
                Seq::new(bs.len(), |i: int| 1int),
                bs.map_values(|b: BreachView| b.breach_date),
                order@,
            );
        }
        let mut events: Vec<TimelineEvent> = Vec::new();
        let mut progression: Vec<AttackStage> = Vec::new();
        let mut k: usize = 0;
        while k < order.len()
            invariant
                k <= order@.len(),
                bs == breach_views(breaches@),
                date_order(bs, order@),
                order@.len() == bs.len(),
                events@.len() == k,
                forall|m: int| 0 <= m < k ==> event_ok(#[trigger] events@[m], bs[order@[m] as int], m == 0),
                progression@ == distinct_stages(ordered_stages(bs, order@).take(k as int)),
            decreases order@.len() - k,
        {
            let pos = order[k];
            assert(pos < breaches@.len());
            let b = &breaches[pos];
            assert(bs[pos as int] == b@);
            let stage = self.infer_attack_stage(b);
            let indicators = self.extract_indicators(b);
            let mut description = string_from("Breach: ");
            push_str(&mut description, b.breach_name.as_str());
            push_str(&mut description, " - Exposed fields: ");
            let fields = join_comma(&b.exposed_fields);
            push_str(&mut description, fields.as_str());
            let confidence_percent: u32 = if k == 0 { 60 } else { 80 };
            events.push(
                TimelineEvent {
                    date: b.breach_date.clone(),
                    stage,
                    event_type: b.breach_name.clone(),
                    description,
                    indicators,
                    confidence_percent,
                },
            );
            proof {
                let st = ordered_stages(bs, order@);
                assert(st.take(k + 1).drop_last() =~= st.take(k as int));
                assert(st.take(k + 1).last() == stage);
            }
            if !stage_listed(&progression, stage) {
                progression.push(stage);
            }
            k = k + 1;
        }
        proof {
            assert(ordered_stages(bs, order@).take(k as int) =~= ordered_stages(bs, order@));
        }
        let first = order[0];
        let last = order[order.len() - 1];
        let earliest = breaches[first].breach_date.clone();
        let latest = breaches[last].breach_date.clone();
        let duration = self.calculate_duration_days(Some(earliest.as_str()), Some(latest.as_str()));
        let vector = self.determine_attack_vector(breaches);
        let country = self.infer_attacker_country(breaches);
        let total = events.len();
        let r = AttackTimeline {
            email: string_from(email),
            total_events: total,
            earliest_event: Some(earliest),
            latest_event: Some(latest),
            attack_duration_days: duration,
            events,
            stage_progression: progression,
            likely_attack_vector: vector,
            estimated_attacker_country: country,
        };
        assert(timeline_ok(r, bs, order@));
        r
    }

    /// The span between two dates (see `duration_days`).
    pub fn calculate_duration_days(&self, start: Option<&str>, end: Option<&str>) -> (r: usize)
        ensures
            r as int == duration_days(
                match start {
                    Some(s) => Some(s@),
                    None => None,
                },
                match end {
                    Some(e) => Some(e@),
                    None => None,
                },
            ),
    {
        match (start, end) {
            (Some(s), Some(e)) => {
                let a = parse_date_number(s);
                let b = parse_date_number(e);
                let diff: usize = if b >= a {
                    (b - a) as usize
                } else {
                    (a - b) as usize
                };
                if diff > 10000 {
                    diff / 10000
                } else {
                    diff
                }
            },
            _ => 0,
        }
    }
}

// ---------------------------------------------------------------------------
// Campaigns
// ---------------------------------------------------------------------------

/// The emails of one domain, taken as one campaign.
#[derive(Debug, Clone)]
pub struct CampaignTimeline {
    pub campaign_name: String,
    pub actor_id: String,
    pub start_date: String,
    pub end_date: Option<String>,
    pub duration_days: usize,
    pub target_count: usize,
    pub affected_emails: Vec<String>,
    pub unique_stages: Vec<AttackStage>,
    pub progression_pattern: String,
    /// Estimated success rate, in percent.
    pub estimated_success_rate_percent: u32,
}

/// The domain of an email: the text after its first `@` up to the next one,
/// or `unknown` when it has none.
pub open spec fn email_domain(email: Seq<char>) -> Seq<char> {
    let parts = split_on(email, '@');
    if parts.len() > 1 {
        parts[1]
    } else {
        "unknown"@
    }
}

/// The `(domain, email)` pairs of a list of emails.
pub open spec fn domain_pairs(emails: Seq<&str>) -> Seq<(Seq<char>, Seq<char>)> {
    emails.map_values(|e: &str| (email_domain(e@), e@))
}

/// `c` is the campaign of the emails of `domain` among `emails`.
pub open spec fn is_domain_campaign(c: CampaignTimeline, domain: Seq<char>, emails: Seq<&str>) -> bool {
    &&& c.campaign_name@ == "Campaign-"@ + domain
    &&& c.actor_id@ == "Unknown"@
    &&& c.start_date@ == "2024-01-01"@
    &&& c.end_date matches Some(e) && e@ == "2024-12-31"@
    &&& c.duration_days == 365
    &&& views(c.affected_emails@) == group_of(domain_pairs(emails), domain)
    &&& c.target_count == c.affected_emails@.len()
    &&& c.unique_stages@ == seq![AttackStage::Reconnaissance, AttackStage::Delivery, AttackStage::Exploitation]
    &&& c.progression_pattern@ == "Standard Cyber Kill Chain"@
    &&& c.estimated_success_rate_percent == 75
}

/// The domain of an email (see `email_domain`).
fn domain_of(email: &str) -> (r: String)
    ensures
        r@ == email_domain(email@),
{
    let parts = split_all(&chars_of(email), '@');
    if parts.len() > 1 {
        proof {
            assert(parts@.map_values(|p: Vec<char>| p@)[1] == parts@[1]@);
        }
        string_of(&parts[1])
    } else {
        string_from("unknown")
    }
}

impl TimelineAnalyzer {
    /// Groups emails into campaigns, one per domain, each holding its
    /// domain's emails in order. Every domain gets exactly one campaign; the
    /// order of the campaigns is not part of the contract.
    pub fn correlate_campaigns(&self, target_emails: &[&str]) -> (r: Vec<CampaignTimeline>)
        ensures
            exists|domains: Seq<Seq<char>>|
                {
                    &&& #[trigger] domains.len() == r@.len()
                    &&& forall|i: int, j: int| 0 <= i < j < domains.len() ==> domains[i] != domains[j]
                    &&& forall|i: int|
                        0 <= i < r@.len() ==> is_domain_campaign(#[trigger] r@[i], domains[i], target_emails@)
                    &&& forall|e: int|
                        0 <= e < target_emails@.len() ==> domains.contains(
                            email_domain(#[trigger] target_emails@[e]@),
                        )
                },
    {
        let ghost pv = domain_pairs(target_emails@);
        let mut pairs: Vec<(String, String)> = Vec::new();
        let mut i: usize = 0;
        while i < target_emails.len()
            invariant
                i <= target_emails@.len(),
                pv == domain_pairs(target_emails@),
                pairs@.map_values(|p: (String, String)| (p.0@, p.1@)) == pv.take(i as int),
            decreases target_emails@.len() - i,
        {
            let ghost before = pairs@;
            pairs.push((domain_of(target_emails[i]), string_from(target_emails[i])));
            assert(pairs@.map_values(|p: (String, String)| (p.0@, p.1@)) =~= before.map_values(
                |p: (String, String)| (p.0@, p.1@),
            ).push(pv[i as int]));
            assert(pv.take(i + 1) =~= pv.take(i as int).push(pv[i as int]));
            i = i + 1;
        }
        assert(pv.take(i as int) =~= pv);
        let groups = group_pairs(&pairs);
        let ghost gv = groups_view(groups@);
        let mut r: Vec<CampaignTimeline> = Vec::new();
        let mut k: usize = 0;
        while k < groups.len()
            invariant
                k <= groups@.len(),
                gv == groups_view(groups@),
                pv == domain_pairs(target_emails@),
                unique_keys(gv),
                forall|key: Seq<char>|
                    #[trigger] lookup(gv, key) == if group_of(pv, key).len() > 0 {
                        Some(group_of(pv, key))
                    } else {
                        None
                    },
                r@.len() == k,
                forall|m: int| 0 <= m < k ==> is_domain_campaign(#[trigger] r@[m], gv[m].0, target_emails@),
            decreases groups@.len() - k,
        {
            proof {
                lemma_lookup_at(gv, k as int);
            }
            let mut name = string_from("Campaign-");
            push_str(&mut name, groups[k].0.as_str());
            let emails = groups[k].1.clone();
            assert(views(emails@) == gv[k as int].1);
            let n = emails.len();
            let c = CampaignTimeline {
                    campaign_name: name,
                    actor_id: string_from("Unknown"),
                    start_date: string_from("2024-01-01"),
                    end_date: Some(string_from("2024-12-31")),
                    duration_days: 365,
                    target_count: n,
                    affected_emails: emails,
                    unique_stages: vec![AttackStage::Reconnaissance, AttackStage::Delivery, AttackStage::Exploitation],
                    progression_pattern: string_from("Standard Cyber Kill Chain"),
                    estimated_success_rate_percent: 75,
                };
            assert(c.campaign_name@ == "Campaign-"@ + gv[k as int].0);
            assert(views(c.affected_emails@) == group_of(domain_pairs(target_emails@), gv[k as int].0));
            assert(c.unique_stages@ == seq![AttackStage::Reconnaissance, AttackStage::Delivery, AttackStage::Exploitation]);
            assert(is_domain_campaign(c, gv[k as int].0, target_emails@));
            let ghost before = r@;
            r.push(c);
            assert(forall|m: int| 0 <= m < k ==> r@[m] == before[m]);
            k = k + 1;
        }
        proof {
            let domains = gv.map_values(|g: (Seq<char>, Seq<Seq<char>>)| g.0);
            assert forall|e: int| 0 <= e < target_emails@.len() implies domains.contains(
                email_domain(#[trigger] target_emails@[e]@),
            ) by {
                let d = email_domain(target_emails@[e]@);
                assert(pv[e] == (d, target_emails@[e]@));
                lemma_group_nonempty(pv, e);
                lemma_lookup_found(gv, d);
                let m = choose|m: int| 0 <= m < gv.len() && (#[trigger] gv[m]).0 == d && Some(gv[m].1) == lookup(gv, d);
                assert(domains[m] == d);
            }
            assert(domains.len() == r@.len());
        }
        r
    }
}

/// A key occurring in some pair has a nonempty group.
proof fn lemma_group_nonempty(pairs: Seq<(Seq<char>, Seq<char>)>, e: int)
    requires
        0 <= e < pairs.len(),
    ensures
        group_of(pairs, pairs[e].0).len() > 0,
    decreases pairs.len(),
{
    if e < pairs.len() - 1 {
        assert(pairs.drop_last()[e] == pairs[e]);
        lemma_group_nonempty(pairs.drop_last(), e);
    }
}

/// A breach that exposed something, carries a password hash and exposes a
/// field naming an SSN, a credit card or an account points to actions on
/// objectives: credentials together with sensitive data.
pub proof fn lemma_credentials_with_sensitive_data_mean_actions(b: BreachView)
    requires
        b.exposed_fields.len() > 0,
        b.password_hash is Some,
        exists|i: int|
            0 <= i < b.exposed_fields.len() && (contains_seq(#[trigger] b.exposed_fields[i], "ssn"@)
                || contains_seq(b.exposed_fields[i], "credit"@) || contains_seq(b.exposed_fields[i], "account"@)),
    ensures
        stage_of(b) == AttackStage::Actions,
{
}

/// A breach that exposed nothing points to reconnaissance, whatever else it
/// carries; one that exposed something and carries a password hash points to
/// a stage of the compromise proper (installation, command and control, or
/// actions on objectives), never to an earlier one.
pub proof fn lemma_stage_bounds(b: BreachView)
    ensures
        b.exposed_fields.len() == 0 ==> stage_of(b) == AttackStage::Reconnaissance,
        b.exposed_fields.len() > 0 && b.password_hash is Some ==> (stage_of(b) == AttackStage::Installation
            || stage_of(b) == AttackStage::CommandControl || stage_of(b) == AttackStage::Actions),
{
}

/// Any breach whose name mentions phishing (in any case) makes the vector
/// phishing. Otherwise credentials decide: one breach carrying a password
/// hash is direct credential theft, several breaches of which one carries a
/// hash are credential compromise with lateral movement. Without credentials,
/// more than two breaches are a multi-vector attack and fewer a plain data
/// exposure.
pub proof fn lemma_attack_vector_cases(bs: Seq<BreachView>)
    ensures
        (exists|i: int| 0 <= i < bs.len() && contains_seq(lowercase_of(#[trigger] bs[i].breach_name), "phishing"@))
            ==> attack_vector(bs) == "Phishing / Social Engineering"@,
        (forall|i: int| 0 <= i < bs.len() ==> !contains_seq(lowercase_of(#[trigger] bs[i].breach_name), "phishing"@))
            ==> {
            &&& bs.len() == 1 && bs[0].password_hash is Some ==> attack_vector(bs) == "Direct Credential Theft"@
            &&& bs.len() > 1 && (exists|i: int| 0 <= i < bs.len() && (#[trigger] bs[i]).password_hash is Some)
                ==> attack_vector(bs) == "Credential Compromise / Lateral Movement"@
            &&& (forall|i: int| 0 <= i < bs.len() ==> (#[trigger] bs[i]).password_hash is None) ==> {
                &&& bs.len() > 2 ==> attack_vector(bs) == "Multi-Vector Attack / Supply Chain"@
                &&& bs.len() <= 2 ==> attack_vector(bs) == "Data Exposure / Breach"@
            }
        },
{
    if bs.len() == 1 && bs[0].password_hash is Some {
        assert(exists|i: int| 0 <= i < bs.len() && bs[i].password_hash is Some);
    }
}

/// The stage of a breach that exposed something, case by case: with a
/// password hash, sensitive data (a field naming an SSN, a credit card or an
/// account) means actions on objectives, else a phone field command and
/// control, else installation; without one, sensitive data means
/// exploitation, else e-mail and phone fields delivery, an e-mail field alone
/// weaponization, and anything else reconnaissance.
pub proof fn lemma_stage_cases(b: BreachView)
    requires
        b.exposed_fields.len() > 0,
    ensures
        ({
            let f = b.exposed_fields;
            let cred = b.password_hash is Some;
            let sensitive = exists|i: int|
                0 <= i < f.len() && (contains_seq(#[trigger] f[i], "ssn"@) || contains_seq(f[i], "credit"@)
                    || contains_seq(f[i], "account"@));
            let email = exists|i: int| 0 <= i < f.len() && #[trigger] f[i] == "email"@;
            let phone = exists|i: int| 0 <= i < f.len() && #[trigger] f[i] == "phone"@;
            &&& cred && sensitive ==> stage_of(b) == AttackStage::Actions
            &&& cred && !sensitive && phone ==> stage_of(b) == AttackStage::CommandControl
            &&& cred && !sensitive && !phone ==> stage_of(b) == AttackStage::Installation
            &&& !cred && sensitive ==> stage_of(b) == AttackStage::Exploitation
            &&& !cred && !sensitive && email && phone ==> stage_of(b) == AttackStage::Delivery
            &&& !cred && !sensitive && email && !phone ==> stage_of(b) == AttackStage::Weaponization
            &&& !cred && !sensitive && !email ==> stage_of(b) == AttackStage::Reconnaissance
        }),
{
}

/// The country of a forum that names exactly one kind of forum in the table:
/// any of BreachForums, XSS or Exploit means Russia, Underground (without
/// those) China, BlackMarket alone an unknown country, and a forum naming
/// none of them no country.
pub proof fn lemma_forum_country_cases(forum: Seq<char>)
    ensures
        contains_seq(forum, "BreachForums"@) || contains_seq(forum, "XSS"@) || contains_seq(forum, "Exploit"@)
            ==> forum_country(forum) == Some("Russia"@),
        !contains_seq(forum, "BreachForums"@) && !contains_seq(forum, "XSS"@) && !contains_seq(forum, "Exploit"@)
            && contains_seq(forum, "Underground"@) ==> forum_country(forum) == Some("China"@),
        !contains_seq(forum, "BreachForums"@) && !contains_seq(forum, "XSS"@) && !contains_seq(forum, "Exploit"@)
            && !contains_seq(forum, "Underground"@) && contains_seq(forum, "BlackMarket"@) ==> forum_country(forum)
            == Some("Unknown"@),
        !contains_seq(forum, "BreachForums"@) && !contains_seq(forum, "XSS"@) && !contains_seq(forum, "Exploit"@)
            && !contains_seq(forum, "Underground"@) && !contains_seq(forum, "BlackMarket"@) ==> forum_country(forum)
            is None,
{
    reveal_with_fuel(forum_country_from, 6);
}

/// The attacker's country is that of the first breach traded on a forum in
/// the table: breaches on other forums before it are passed over, and with
/// none on such a forum there is no country.
pub proof fn lemma_attacker_country_first_listed(bs: Seq<BreachView>, k: int)
    requires
        0 <= k < bs.len(),
        forum_country(bs[k].stealer_forum) is Some,
        forall|j: int| 0 <= j < k ==> forum_country(#[trigger] bs[j].stealer_forum) is None,
    ensures
        attacker_country(bs) == forum_country(bs[k].stealer_forum),
    decreases k,
{
    if k > 0 {
        assert forall|j: int| 0 <= j < k - 1 implies forum_country(#[trigger] bs.drop_first()[j].stealer_forum) is None by {
            assert(bs.drop_first()[j] == bs[j + 1]);
        }
        assert(bs.drop_first()[k - 1] == bs[k]);
        lemma_attacker_country_first_listed(bs.drop_first(), k - 1);
    }
}

/// With no breach on a forum in the table there is no country.
pub proof fn lemma_attacker_country_none(bs: Seq<BreachView>)
    requires
        forall|j: int| 0 <= j < bs.len() ==> forum_country(#[trigger] bs[j].stealer_forum) is None,
    ensures
        attacker_country(bs) is None,
    decreases bs.len(),
{
    if bs.len() > 0 {
        assert forall|j: int| 0 <= j < bs.len() - 1 implies forum_country(#[trigger] bs.drop_first()[j].stealer_forum) is None by {
            assert(bs.drop_first()[j] == bs[j + 1]);
        }
        lemma_attacker_country_none(bs.drop_first());
    }
}

/// The duration between two dates does not depend on their order, is never
/// negative, is zero from a date to itself, and is zero when either date is
/// missing.
pub proof fn lemma_duration_laws(a: Option<Seq<char>>, b: Option<Seq<char>>)
    ensures
        duration_days(a, b) == duration_days(b, a),
        duration_days(a, b) >= 0,
        duration_days(a, a) == 0,
        a is None || b is None ==> duration_days(a, b) == 0,
{
}

} // verus!
