//! Campaign attribution: the kill-chain stage a victim's exposure points to,
//! the response to recommend and the detection opportunities an attributed
//! actor offers, and the severity of an incident.

use vstd::prelude::*;
use crate::json::{decimal, push_decimal};
use crate::keyed::lookup;
use crate::osint::geolocation::{BreachView, BreachVictimData, GeolocationEngine};
use crate::osint::threat_feeds::{before_first, prefix_before, ThreatActor, ThreatIntelligenceFeed};
use crate::osint::timeline::{
    all_digits, breach_views, comma_list, digits_value, has_field, is_digit, lemma_digits_value_grows, unsigned_digits,
};
use crate::text::{chars_of, contains, contains_seq, ends_with, equal_chars, has_suffix, push_str, same_text, string_from};

verus! {

broadcast use vstd::string::group_string_axioms;

// ---------------------------------------------------------------------------
// Indicators of a campaign
// ---------------------------------------------------------------------------

/// The confidence, in thousandths, of a geography indicator for a location
/// of the given threat level.
pub open spec fn geography_confidence(level: Seq<char>) -> u32 {
    if level == "critical"@ {
        900
    } else if level == "high"@ {
        700
    } else if level == "medium"@ {
        500
    } else {
        300
    }
}

/// The weight, in thousandths, that a location of the given threat level
/// lends the actors of its country.
pub open spec fn geography_weight(level: Seq<char>) -> u32 {
    if level == "critical"@ {
        850
    } else if level == "high"@ {
        650
    } else if level == "medium"@ {
        450
    } else {
        250
    }
}

/// The value of a geography indicator: `country (code)`.
pub open spec fn geography_value(country: Seq<char>, code: Seq<char>) -> Seq<char> {
    country + " ("@ + code + ")"@
}

/// A victim domain counts as corporate unless it ends in `.com` without
/// holding `corp`.
pub open spec fn corporate_domain(domain: Seq<char>) -> bool {
    !ends_with(domain, ".com"@) || contains_seq(domain, "corp"@)
}

/// What `str::parse::<u32>` gives: an optional `+`, then one or more digits
/// whose value fits in a `u32`.
pub open spec fn parse_u32_text(t: Seq<char>) -> Option<nat> {
    let d = unsigned_digits(t);
    if d.len() == 0 || !all_digits(d) || digits_value(d) > u32::MAX {
        None
    } else {
        Some(digits_value(d))
    }
}

/// The year of a breach date: the number before its first dash, or 0 when
/// that is not a `u32`.
pub open spec fn breach_year_of(date: Seq<char>) -> nat {
    match parse_u32_text(before_first(date, "-"@)) {
        Some(y) => y,
        None => 0,
    }
}

/// The year against which breaches count as recent.
pub open spec fn attribution_year() -> nat {
    2024
}

/// The confidence, in thousandths, of a geography indicator.
pub fn geography_confidence_per_mille(threat_level: &str) -> (c: u32)
    ensures
        c == geography_confidence(threat_level@),
{
    if same_text(threat_level, "critical") {
        900
    } else if same_text(threat_level, "high") {
        700
    } else if same_text(threat_level, "medium") {
        500
    } else {
        300
    }
}

/// The weight, in thousandths, a location lends the actors of its country.
pub fn geography_weight_per_mille(threat_level: &str) -> (w: u32)
    ensures
        w == geography_weight(threat_level@),
{
    if same_text(threat_level, "critical") {
        850
    } else if same_text(threat_level, "high") {
        650
    } else if same_text(threat_level, "medium") {
        450
    } else {
        250
    }
}

/// The value of a geography indicator: `country (code)`.
pub fn geography_indicator_value(country: &str, code: &str) -> (r: String)
    ensures
        r@ == geography_value(country@, code@),
{
    let mut r = string_from(country);
    push_str(&mut r, " (");
    push_str(&mut r, code);
    push_str(&mut r, ")");
    r
}

/// Whether a victim domain counts as corporate.
pub fn is_corporate_domain(domain: &str) -> (b: bool)
    ensures
        b == corporate_domain(domain@),
{
    let d = chars_of(domain);
    let com = chars_of(".com");
    let corp = chars_of("corp");
    !has_suffix(d.as_slice(), com.as_slice()) || contains(d.as_slice(), corp.as_slice())
}

/// `str::parse::<u32>` on characters.
fn parse_u32_chars(t: &Vec<char>) -> (r: Option<u32>)
    ensures
        match parse_u32_text(t@) {
            Some(v) => r == Some(v as u32),
            None => r is None,
        },
{
    let start: usize = if t.len() > 0 && t[0] == '+' { 1 } else { 0 };
    let ghost d = unsigned_digits(t@);
    assert(d =~= t@.subrange(start as int, t@.len() as int));
    if start == t.len() {
        return None;
    }
    let mut value: u32 = 0;
    let mut k: usize = start;
    while k < t.len()
        invariant
            start <= k <= t@.len(),
            d == unsigned_digits(t@),
            d == t@.subrange(start as int, t@.len() as int),
            d.len() > 0,
            forall|j: int| 0 <= j < k - start ==> is_digit(d[j]),
            value as int == digits_value(d.take(k - start)),
        decreases t@.len() - k,
    {
        let c = t[k];
        if !('0' <= c && c <= '9') {
            assert(!is_digit(d[k - start]));
            return None;
        }
        let digit: u32 = c as u32 - '0' as u32;
        proof {
            assert(d.take(k - start + 1).drop_last() =~= d.take(k - start));
            assert(d.take(k - start + 1).last() == c);
        }
        if value > (u32::MAX - digit) / 10 {
            proof {
                assert(digits_value(d.take(k - start + 1)) > u32::MAX);
                if all_digits(d) {
                    lemma_digits_value_grows(d, k - start + 1);
                }
            }
            return None;
        }
        value = value * 10 + digit;
        k = k + 1;
    }
    assert(d.take(d.len() as int) =~= d);
    Some(value)
}

/// The year of a breach date (see `breach_year_of`).
pub fn breach_year(breach_date: &str) -> (y: u32)
    ensures
        y as nat == breach_year_of(breach_date@),
{
    proof {
        reveal_strlit("-");
    }
    let head = prefix_before(breach_date, "-");
    let v = chars_of(head.as_str());
    match parse_u32_chars(&v) {
        Some(y) => y,
        None => 0,
    }
}

/// Whether a breach of `year` is recent: at most three years before the
/// attribution year. A year after it would underflow the subtraction, which
/// `requires` rules out.
pub fn is_recent_year(year: u32) -> (b: bool)
    requires
        year <= attribution_year(),
    ensures
        b == (attribution_year() - year <= 3),
{
    2024 - year <= 3
}

/// Attributes campaigns against the threat-actor feed.
pub struct AttributionEngine {
    pub geolocation_engine: GeolocationEngine,
    pub threat_feed: ThreatIntelligenceFeed,
}

/// Some breach exposed credentials.
pub open spec fn any_credentials(bs: Seq<BreachView>) -> bool {
    exists|i: int| 0 <= i < bs.len() && bs[i].password_hash is Some
}

/// Some breach exposed the given field.
pub open spec fn any_field(bs: Seq<BreachView>, f: Seq<char>) -> bool {
    exists|i: int| 0 <= i < bs.len() && has_field(bs[i].exposed_fields, f)
}

/// Some breach cannot be recovered from.
pub open spec fn any_unrecoverable(bs: Seq<BreachView>) -> bool {
    exists|i: int| 0 <= i < bs.len() && !bs[i].recovery_possible
}

/// The campaign stage a victim's breaches point to: none means
/// reconnaissance; credentials with a phone number exploitation; credentials
/// alone credential theft; e-mail with phone post-compromise; otherwise
/// weaponization.
pub open spec fn campaign_stage(bs: Seq<BreachView>) -> Seq<char> {
    let cred = any_credentials(bs);
    let email = any_field(bs, "email"@);
    let phone = any_field(bs, "phone"@);
    if bs.len() == 0 {
        "reconnaissance"@
    } else if cred && phone {
        "exploitation"@
    } else if cred {
        "credential_theft"@
    } else if email && phone {
        "post_compromise"@
    } else {
        "weaponization"@
    }
}

/// The actor-specific response lines.
pub open spec fn actor_response(id: Seq<char>, a: ThreatActor) -> Seq<Seq<char>> {
    seq!["Review "@ + id + " techniques and TTPs for indicators of compromise"@] + if a.known_targets@.len() > 0 {
        seq!["This actor targets: "@ + comma_list(a.known_targets@.map_values(|s: String| s@))]
    } else {
        Seq::empty()
    }
}

/// The recommended response: the actor's lines when the attributed actor is
/// in the feed, then credential advice, SIM-swap monitoring when a phone
/// number leaked, an address change after more than two breaches, and breach
/// monitoring.
pub open spec fn response_plan(
    entries: Seq<(Seq<char>, ThreatActor)>,
    actor: Option<Seq<char>>,
    bs: Seq<BreachView>,
) -> Seq<Seq<char>> {
    let actor_lines = match actor {
        Some(id) => match lookup(entries, id) {
            Some(a) => actor_response(id, a),
            None => Seq::empty(),
        },
        None => Seq::empty(),
    };
    actor_lines + seq![
        if any_unrecoverable(bs) {
            "Assume full account compromise - reset all credentials immediately"@
        } else {
            "Change passwords for all accounts, enable MFA where available"@
        },
    ] + (if any_field(bs, "phone"@) {
        seq!["Monitor for SIM swap and account takeover attacks"@]
    } else {
        Seq::empty()
    }) + (if bs.len() > 2 {
        seq!["Multiple breach exposures detected - Consider changing email address"@]
    } else {
        Seq::empty()
    }) + seq!["Set up breach monitoring alerts for this email"@]
}

/// The actor-specific detection lines: its infrastructure, its C2 addresses,
/// the number of its phishing domains, and its first five techniques.
pub open spec fn actor_detections(id: Seq<char>, a: ThreatActor) -> Seq<Seq<char>> {
    let techniques = a.techniques@.map_values(|s: String| s@);
    let first5 = if techniques.len() > 5 {
        techniques.take(5)
    } else {
        techniques
    };
    seq!["Monitor for "@ + id + " infrastructure"@] + (if a.infrastructure.c2_ips@.len() > 0 {
        seq![
            "Alert on connections to known "@ + id + " C2 IPs: "@ + comma_list(
                a.infrastructure.c2_ips@.map_values(|s: String| s@),
            ),
        ]
    } else {
        Seq::empty()
    }) + (if a.infrastructure.phishing_domains@.len() > 0 {
        seq!["Block "@ + decimal(a.infrastructure.phishing_domains@.len()) + " phishing domains at perimeter"@]
    } else {
        Seq::empty()
    }) + first5.map_values(|t: Seq<char>| "Implement detection for "@ + t + " technique usage"@)
}

/// The detection opportunities: the actor's lines when the attributed actor is
/// in the feed, then two general ones, at most eight in all.
pub open spec fn detection_plan(entries: Seq<(Seq<char>, ThreatActor)>, actor: Option<Seq<char>>) -> Seq<Seq<char>> {
    let actor_lines = match actor {
        Some(id) => match lookup(entries, id) {
            Some(a) => actor_detections(id, a),
            None => Seq::empty(),
        },
        None => Seq::empty(),
    };
    let all = actor_lines + seq![
        "Enable logging on all compromised systems"@,
        "Review email forwarding rules and recovery options"@,
    ];
    if all.len() > 8 {
        all.take(8)
    } else {
        all
    }
}

/// The severity of an exposure by its number of breaches.
pub open spec fn exposure_severity_of(n: nat) -> Seq<char> {
    if n == 0 {
        "low"@
    } else if n == 1 {
        "medium"@
    } else if n <= 3 {
        "high"@
    } else {
        "critical"@
    }
}

/// How hard recovery is: difficult when a breach cannot be recovered from,
/// moderate when credentials leaked, easy otherwise.
pub open spec fn recovery_difficulty_of(bs: Seq<BreachView>) -> Seq<char> {
    if any_unrecoverable(bs) {
        "difficult"@
    } else if any_credentials(bs) {
        "moderate"@
    } else {
        "easy"@
    }
}

/// The geographic fingerprint of the victim's resolved countries.
pub open spec fn fingerprint_of(countries: Seq<Seq<char>>) -> Seq<char> {
    if countries.len() == 0 {
        "unknown"@
    } else if forall|i: int| 0 <= i < countries.len() ==> #[trigger] countries[i] == countries[0] {
        "Single-country: "@ + countries[0]
    } else {
        "Multi-country: "@ + comma_list(countries)
    }
}

/// Whether some breach exposed the field.
fn any_breach_field(breaches: &[BreachVictimData], f: &str) -> (r: bool)
    ensures
        r == any_field(breach_views(breaches@), f@),
{
    let want = chars_of(f);
    let mut i: usize = 0;
    while i < breaches.len()
        invariant
            i <= breaches@.len(),
            want@ == f@,
            forall|j: int| 0 <= j < i ==> !has_field(breach_views(breaches@)[j].exposed_fields, f@),
        decreases breaches@.len() - i,
    {
        let fields = &breaches[i].exposed_fields;
        let mut k: usize = 0;
        while k < fields.len()
            invariant
                k <= fields@.len(),
                i < breaches@.len(),
                fields@ == breaches@[i as int].exposed_fields@,
                want@ == f@,
                forall|m: int| 0 <= m < k ==> fields@[m]@ != f@,
            decreases fields@.len() - k,
        {
            if equal_chars(&chars_of(fields[k].as_str()), &want) {
                assert(breach_views(breaches@)[i as int].exposed_fields =~= fields@.map_values(|s: String| s@));
                assert(breach_views(breaches@)[i as int].exposed_fields[k as int] == f@);
                return true;
            }
            k = k + 1;
        }
        assert(breach_views(breaches@)[i as int].exposed_fields =~= fields@.map_values(|s: String| s@));
        i = i + 1;
    }
    false
}

/// Whether some breach exposed credentials.
fn any_breach_credentials(breaches: &[BreachVictimData]) -> (r: bool)
    ensures
        r == any_credentials(breach_views(breaches@)),
{
    let mut i: usize = 0;
    while i < breaches.len()
        invariant
            i <= breaches@.len(),
            forall|j: int| 0 <= j < i ==> breach_views(breaches@)[j].password_hash is None,
        decreases breaches@.len() - i,
    {
        if breaches[i].password_hash.is_some() {
            assert(breach_views(breaches@)[i as int].password_hash is Some);
            return true;
        }
        i = i + 1;
    }
    false
}

/// Whether some breach cannot be recovered from.
fn any_breach_unrecoverable(breaches: &[BreachVictimData]) -> (r: bool)
    ensures
        r == any_unrecoverable(breach_views(breaches@)),
{
    let mut i: usize = 0;
    while i < breaches.len()
        invariant
            i <= breaches@.len(),
            forall|j: int| 0 <= j < i ==> breach_views(breaches@)[j].recovery_possible,
        decreases breaches@.len() - i,
    {
        if !breaches[i].recovery_possible {
            assert(!breach_views(breaches@)[i as int].recovery_possible);
            return true;
        }
        i = i + 1;
    }
    false
}

/// Joins strings with `", "`.
fn join_comma_list(parts: &Vec<String>) -> (r: String)
    ensures
        r@ == comma_list(parts@.map_values(|s: String| s@)),
{
    let mut r = String::new();
    if parts.len() == 0 {
        assert(parts@.map_values(|s: String| s@) =~= Seq::<Seq<char>>::empty());
        return r;
    }
    push_str(&mut r, parts[0].as_str());
    let ghost pv = parts@.map_values(|s: String| s@);
    assert(pv.take(1) =~= seq![parts@[0]@]);
    let mut i: usize = 1;
    while i < parts.len()
        invariant
            1 <= i <= parts@.len(),
            pv == parts@.map_values(|s: String| s@),
            r@ == comma_list(pv.take(i as int)),
        decreases parts@.len() - i,
    {
        push_str(&mut r, ", ");
        push_str(&mut r, parts[i].as_str());
        proof {
            assert(pv.take(i + 1).drop_last() =~= pv.take(i as int));
            assert(pv.take(i + 1).last() == parts@[i as int]@);
            assert(r@ =~= comma_list(pv.take(i as int)) + ", "@ + parts@[i as int]@);
        }
        i = i + 1;
    }
    assert(pv.take(i as int) =~= pv);
    r
}

/// Appends a line to a list of lines.
fn push_line(lines: &mut Vec<String>, line: String)
    ensures
        final(lines)@.map_values(|s: String| s@) == old(lines)@.map_values(|s: String| s@).push(line@),
{
    let ghost before = lines@;
    let ghost lv = line@;
    lines.push(line);
    assert(lines@.map_values(|s: String| s@) =~= before.map_values(|s: String| s@).push(lv));
}

impl AttributionEngine {
    /// An engine over a feed.
    pub fn new(threat_feed: ThreatIntelligenceFeed) -> (r: Self)
        ensures
            r.threat_feed == threat_feed,
    {
        AttributionEngine { geolocation_engine: GeolocationEngine::new(), threat_feed }
    }

    /// The campaign stage a victim's breaches point to (see `campaign_stage`).
    pub fn determine_attack_stage(&self, breaches: &[BreachVictimData]) -> (r: String)
        ensures
            r@ == campaign_stage(breach_views(breaches@)),
    {
        if breaches.len() == 0 {
            return string_from("reconnaissance");
        }
        let cred = any_breach_credentials(breaches);
        let email = any_breach_field(breaches, "email");
        let phone = any_breach_field(breaches, "phone");
        if cred && phone {
            string_from("exploitation")
        } else if cred {
            string_from("credential_theft")
        } else if email && phone {
            string_from("post_compromise")
        } else {
            string_from("weaponization")
        }
    }

    /// The recommended response to an incident (see `response_plan`).
    pub fn generate_response_recommendations(&self, actor: Option<&str>, breaches: &[BreachVictimData]) -> (r:
        Vec<String>)
        ensures
            r@.map_values(|s: String| s@) == response_plan(
                self.threat_feed.entries(),
                match actor {
                    Some(a) => Some(a@),
                    None => None,
                },
                breach_views(breaches@),
            ),
    {
        let mut r: Vec<String> = Vec::new();
        let ghost bs = breach_views(breaches@);
        match actor {
            Some(id) => {
                match self.threat_feed.get_actor(id) {
                    Some(a) => {
                        let mut line = string_from("Review ");
                        push_str(&mut line, id);
                        push_str(&mut line, " techniques and TTPs for indicators of compromise");
                        push_line(&mut r, line);
                        if a.known_targets.len() > 0 {
                            let mut t = string_from("This actor targets: ");
                            let joined = join_comma_list(&a.known_targets);
                            push_str(&mut t, joined.as_str());
                            push_line(&mut r, t);
                        }
                    },
                    None => {},
                }
            },
            None => {},
        }
        let ghost actor_part = r@.map_values(|s: String| s@);
        if any_breach_unrecoverable(breaches) {
            push_line(&mut r, string_from("Assume full account compromise - reset all credentials immediately"));
        } else {
            push_line(&mut r, string_from("Change passwords for all accounts, enable MFA where available"));
        }
        let ghost p1 = r@.map_values(|s: String| s@);
        if any_breach_field(breaches, "phone") {
            push_line(&mut r, string_from("Monitor for SIM swap and account takeover attacks"));
        }
        let ghost p2 = r@.map_values(|s: String| s@);
        if breaches.len() > 2 {
            push_line(&mut r, string_from("Multiple breach exposures detected - Consider changing email address"));
        }
        let ghost p3 = r@.map_values(|s: String| s@);
        push_line(&mut r, string_from("Set up breach monitoring alerts for this email"));
        proof {
            let plan = response_plan(
                self.threat_feed.entries(),
                match actor {
                    Some(a) => Some(a@),
                    None => None,
                },
                bs,
            );
            assert(r@.map_values(|s: String| s@) =~= plan);
        }
        r
    }

    /// Where an attributed actor can be detected (see `detection_plan`).
    pub fn identify_detection_opportunities(&self, actor: Option<&str>, geographic: &str) -> (r: Vec<String>)
        ensures
            r@.map_values(|s: String| s@) == detection_plan(
                self.threat_feed.entries(),
                match actor {
                    Some(a) => Some(a@),
                    None => None,
                },
            ),
    {
        let mut r: Vec<String> = Vec::new();
        let ghost entries = self.threat_feed.entries();
        let ghost a_opt = match actor {
            Some(a) => Some(a@),
            None => None,
        };
        let ghost expected_actor_lines = match a_opt {
            Some(id) => match lookup(entries, id) {
                Some(a) => actor_detections(id, a),
                None => Seq::empty(),
            },
            None => Seq::empty(),
        };
        match actor {
            Some(id) => {
                match self.threat_feed.get_actor(id) {
                    Some(a) => {
                        let mut line = string_from("Monitor for ");
                        push_str(&mut line, id);
                        push_str(&mut line, " infrastructure");
                        push_line(&mut r, line);
                        let ghost part1 = r@.map_values(|s: String| s@);
                        assert(part1 =~= seq!["Monitor for "@ + id@ + " infrastructure"@]);
                        if a.infrastructure.c2_ips.len() > 0 {
                            let mut l = string_from("Alert on connections to known ");
                            push_str(&mut l, id);
                            push_str(&mut l, " C2 IPs: ");
                            let joined = join_comma_list(&a.infrastructure.c2_ips);
                            push_str(&mut l, joined.as_str());
                            push_line(&mut r, l);
                        }
                        let ghost part2 = r@.map_values(|s: String| s@);
                        if a.infrastructure.phishing_domains.len() > 0 {
                            let mut l = string_from("Block ");
                            push_decimal(&mut l, a.infrastructure.phishing_domains.len());
                            push_str(&mut l, " phishing domains at perimeter");
                            push_line(&mut r, l);
                        }
                        let ghost before_t = r@.map_values(|s: String| s@);
                        let ghost techniques = a.techniques@.map_values(|s: String| s@);
                        let limit: usize = if a.techniques.len() > 5 { 5 } else { a.techniques.len() };
                        assert(techniques.take(0).map_values(
                            |t: Seq<char>| "Implement detection for "@ + t + " technique usage"@,
                        ) =~= Seq::<Seq<char>>::empty());
                        assert(before_t + Seq::<Seq<char>>::empty() =~= before_t);
                        let mut k: usize = 0;
                        while k < limit
                            invariant
                                k <= limit,
                                limit <= a.techniques@.len(),
                                techniques == a.techniques@.map_values(|s: String| s@),
                                r@.map_values(|s: String| s@) == before_t + techniques.take(k as int).map_values(
                                    |t: Seq<char>| "Implement detection for "@ + t + " technique usage"@,
                                ),
                            decreases limit - k,
                        {
                            let mut l = string_from("Implement detection for ");
                            push_str(&mut l, a.techniques[k].as_str());
                            push_str(&mut l, " technique usage");
                            push_line(&mut r, l);
                            proof {
                                assert(techniques.take(k + 1) =~= techniques.take(k as int).push(techniques[k as int]));
                                assert(techniques.take(k + 1).map_values(
                                    |t: Seq<char>| "Implement detection for "@ + t + " technique usage"@,
                                ) =~= techniques.take(k as int).map_values(
                                    |t: Seq<char>| "Implement detection for "@ + t + " technique usage"@,
                                ).push("Implement detection for "@ + techniques[k as int] + " technique usage"@));
                            }
                            k = k + 1;
                        }
                        proof {
                            let first5 = if techniques.len() > 5 {
                                techniques.take(5)
                            } else {
                                techniques
                            };
                            assert(techniques.take(limit as int) =~= first5);
                            assert(r@.map_values(|s: String| s@) =~= actor_detections(id@, *a));
                        }
                    },
                    None => {},
                }
            },
            None => {},
        }
        assert(r@.map_values(|s: String| s@) =~= expected_actor_lines);
        push_line(&mut r, string_from("Enable logging on all compromised systems"));
        push_line(&mut r, string_from("Review email forwarding rules and recovery options"));
        let ghost all = r@.map_values(|s: String| s@);
        assert(all =~= expected_actor_lines + seq![
            "Enable logging on all compromised systems"@,
            "Review email forwarding rules and recovery options"@,
        ]);
        if r.len() > 8 {
            r.truncate(8);
            assert(r@.map_values(|s: String| s@) =~= all.take(8));
        }
        r
    }

    /// The geographic fingerprint of the resolved countries.
    pub fn build_geographic_fingerprint(&self, countries: &Vec<String>) -> (r: String)
        ensures
            r@ == fingerprint_of(countries@.map_values(|s: String| s@)),
    {
        let ghost cv = countries@.map_values(|s: String| s@);
        if countries.len() == 0 {
            return string_from("unknown");
        }
        let first = chars_of(countries[0].as_str());
        let mut same = true;
        let mut i: usize = 0;
        while i < countries.len()
            invariant
                i <= countries@.len(),
                countries@.len() > 0,
                first@ == countries@[0]@,
                cv == countries@.map_values(|s: String| s@),
                same == forall|j: int| 0 <= j < i ==> #[trigger] cv[j] == cv[0],
            decreases countries@.len() - i,
        {
            assert(cv[i as int] == countries@[i as int]@);
            assert(cv[0] == countries@[0]@);
            if !equal_chars(&chars_of(countries[i].as_str()), &first) {
                same = false;
            }
            i = i + 1;
        }
        if same {
            let mut r = string_from("Single-country: ");
            push_str(&mut r, countries[0].as_str());
            r
        } else {
            let mut r = string_from("Multi-country: ");
            let joined = join_comma_list(countries);
            push_str(&mut r, joined.as_str());
            r
        }
    }

    /// The severity of an exposure by its number of breaches.
    pub fn exposure_severity(&self, breach_count: usize) -> (r: String)
        ensures
            r@ == exposure_severity_of(breach_count as nat),
    {
        if breach_count == 0 {
            string_from("low")
        } else if breach_count == 1 {
            string_from("medium")
        } else if breach_count <= 3 {
            string_from("high")
        } else {
            string_from("critical")
        }
    }

    /// How hard recovery from the breaches is.
    pub fn recovery_difficulty(&self, breaches: &[BreachVictimData]) -> (r: String)
        ensures
            r@ == recovery_difficulty_of(breach_views(breaches@)),
    {
        if any_breach_unrecoverable(breaches) {
            string_from("difficult")
        } else if any_breach_credentials(breaches) {
            string_from("moderate")
        } else {
            string_from("easy")
        }
    }
}

} // verus!
