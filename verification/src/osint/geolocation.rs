//! Breach and stealer-log records of victims, and their geographic tally.

use vstd::prelude::*;
use crate::keyed::{lemma_lookup_absent, lemma_lookup_at, lemma_store, lookup, unique_keys};
use crate::text::{chars_of, equal_chars, push_str, split_all, split_on, string_from, string_of};

verus! {

broadcast use vstd::string::group_string_axioms;

/// A victim's appearance in a breach or stealer log.
#[derive(Debug, Clone)]
pub struct BreachVictimData {
    pub breach_name: String,
    pub breach_date: String,
    pub victim_email: String,
    pub victim_location: Option<String>,
    pub username: Option<String>,
    pub password_hash: Option<String>,
    pub exposed_fields: Vec<String>,
    pub stealer_forum: String,
    pub recovery_possible: bool,
}

/// The content of a breach record as plain values.
pub struct BreachView {
    pub breach_name: Seq<char>,
    pub breach_date: Seq<char>,
    pub victim_email: Seq<char>,
    pub victim_location: Option<Seq<char>>,
    pub username: Option<Seq<char>>,
    pub password_hash: Option<Seq<char>>,
    pub exposed_fields: Seq<Seq<char>>,
    pub stealer_forum: Seq<char>,
    pub recovery_possible: bool,
}

/// The view of an optional string.
pub open spec fn opt_view(o: Option<String>) -> Option<Seq<char>> {
    match o {
        Some(s) => Some(s@),
        None => None,
    }
}

impl View for BreachVictimData {
    type V = BreachView;

    open spec fn view(&self) -> BreachView {
        BreachView {
            breach_name: self.breach_name@,
            breach_date: self.breach_date@,
            victim_email: self.victim_email@,
            victim_location: opt_view(self.victim_location),
            username: opt_view(self.username),
            password_hash: opt_view(self.password_hash),
            exposed_fields: self.exposed_fields@.map_values(|s: String| s@),
            stealer_forum: self.stealer_forum@,
            recovery_possible: self.recovery_possible,
        }
    }
}

/// The domain of an e-mail address as the geolocation lookup reads it: the piece after
/// the first `@` (up to a second one), or `example.com` without an `@`.
pub open spec fn email_domain(email: Seq<char>) -> Seq<char> {
    if split_on(email, '@').len() > 1 {
        split_on(email, '@')[1]
    } else {
        "example.com"@
    }
}

/// The local part of an e-mail address: the piece before the first `@`.
pub open spec fn email_local(email: Seq<char>) -> Seq<char> {
    split_on(email, '@')[0]
}

/// The recorded breaches of a victim, by the domain of the address: two
/// public breaches for gmail.com, one credential breach for yahoo.com, none
/// otherwise.
pub open spec fn recorded_breaches(email: Seq<char>) -> Seq<BreachView> {
    let local = email_local(email);
    let domain = email_domain(email);
    if domain == "gmail.com"@ {
        seq![
            BreachView {
                breach_name: "LinkedIn 2021"@,
                breach_date: "2021-06-21"@,
                victim_email: email,
                victim_location: Some("United States"@),
                username: Some("user_"@ + local),
                password_hash: None,
                exposed_fields: seq!["email"@, "profile_name"@],
                stealer_forum: "BreachForums"@,
                recovery_possible: true,
            },
            BreachView {
                breach_name: "Twitter 2021"@,
                breach_date: "2021-06-01"@,
                victim_email: email,
                victim_location: Some("United States"@),
                username: Some("twitter_"@ + local),
                password_hash: None,
                exposed_fields: seq!["email"@, "phone"@],
                stealer_forum: "BreachForums"@,
                recovery_possible: true,
            },
        ]
    } else if domain == "yahoo.com"@ {
        seq![
            BreachView {
                breach_name: "Yahoo 2013"@,
                breach_date: "2013-08-24"@,
                victim_email: email,
                victim_location: Some("USA"@),
                username: Some("yahoo_"@ + local),
                password_hash: Some("sha256_hash"@),
                exposed_fields: seq!["email"@, "password_hash"@, "security_q&a"@],
                stealer_forum: "BreachForums"@,
                recovery_possible: false,
            },
        ]
    } else {
        Seq::empty()
    }
}

/// How many records name `location` as the victim's location.
pub open spec fn location_count(s: Seq<BreachVictimData>, location: Seq<char>) -> nat
    decreases s.len(),
{
    if s.len() == 0 {
        0
    } else {
        location_count(s.drop_last(), location) + if opt_view(s.last().victim_location) == Some(location) {
            1nat
        } else {
            0nat
        }
    }
}

/// A tally as `(location, count)` entries.
pub open spec fn tally_view(r: Seq<(String, usize)>) -> Seq<(Seq<char>, usize)> {
    r.map_values(|p: (String, usize)| (p.0@, p.1))
}

/// The position of the tally entry for `key`, if any.
fn tally_position(r: &Vec<(String, usize)>, key: &Vec<char>) -> (pos: Option<usize>)
    ensures
        match pos {
            Some(j) => j < r@.len() && tally_view(r@)[j as int].0 == key@,
            None => forall|m: int| 0 <= m < r@.len() ==> (#[trigger] tally_view(r@)[m]).0 != key@,
        },
{
    let mut j: usize = 0;
    while j < r.len()
        invariant
            j <= r@.len(),
            forall|m: int| 0 <= m < j ==> (#[trigger] tally_view(r@)[m]).0 != key@,
        decreases r@.len() - j,
    {
        if equal_chars(&chars_of(r[j].0.as_str()), key) {
            return Some(j);
        }
        j = j + 1;
    }
    None
}

/// Joins a prefix and a string slice.
fn prefixed(prefix: &str, rest: &Vec<char>) -> (r: String)
    ensures
        r@ == prefix@ + rest@,
{
    let mut r = string_from(prefix);
    let tail = string_of(rest);
    push_str(&mut r, tail.as_str());
    r
}

/// Owned strings from literals.
fn owned_list(items: &[&str]) -> (r: Vec<String>)
    ensures
        r@.map_values(|s: String| s@) == items@.map_values(|s: &str| s@),
{
    let mut r: Vec<String> = Vec::new();
    let mut i: usize = 0;
    while i < items.len()
        invariant
            i <= items@.len(),
            r@.map_values(|s: String| s@) == items@.take(i as int).map_values(|s: &str| s@),
        decreases items@.len() - i,
    {
        let ghost before = r@;
        r.push(string_from(items[i]));
        proof {
            assert(r@.map_values(|s: String| s@) =~= before.map_values(|s: String| s@).push(items@[i as int]@));
            assert(items@.take(i + 1).map_values(|s: &str| s@) =~= items@.take(i as int).map_values(|s: &str| s@).push(
                items@[i as int]@,
            ));
        }
        i = i + 1;
    }
    assert(items@.take(items@.len() as int) =~= items@);
    r
}

/// Resolves the geography of victims and their breach records.
pub struct GeolocationEngine;

impl GeolocationEngine {
    /// The engine.
    pub fn new() -> (r: Self) {
        GeolocationEngine
    }

    /// The breach records of a victim, looked up by the domain of the address.
    pub fn get_breach_victim_data(&self, email: &str) -> (r: Vec<BreachVictimData>)
        ensures
            r@.map_values(|b: BreachVictimData| b@) == recorded_breaches(email@),
    {
        let e = chars_of(email);
        let pieces = split_all(&e, '@');
        let local = &pieces[0];
        let domain: Vec<char> = if pieces.len() > 1 {
            pieces[1].clone()
        } else {
            chars_of("example.com")
        };
        proof {
            assert(pieces@.map_values(|p: Vec<char>| p@)[0] == pieces@[0]@);
            if pieces@.len() > 1 {
                assert(pieces@.map_values(|p: Vec<char>| p@)[1] == pieces@[1]@);
            }
        }
        assert(domain@ == email_domain(email@));
        assert(local@ == email_local(email@));
        let mut r: Vec<BreachVictimData> = Vec::new();
        if equal_chars(&domain, &chars_of("gmail.com")) {
            let first = BreachVictimData {
                breach_name: string_from("LinkedIn 2021"),
                breach_date: string_from("2021-06-21"),
                victim_email: string_from(email),
                victim_location: Some(string_from("United States")),
                username: Some(prefixed("user_", local)),
                password_hash: None,
                exposed_fields: owned_list(&["email", "profile_name"]),
                stealer_forum: string_from("BreachForums"),
                recovery_possible: true,
            };
            assert(first.exposed_fields@.map_values(|s: String| s@) =~= seq!["email"@, "profile_name"@]);
            assert(first@ == recorded_breaches(email@)[0]);
            let second = BreachVictimData {
                breach_name: string_from("Twitter 2021"),
                breach_date: string_from("2021-06-01"),
                victim_email: string_from(email),
                victim_location: Some(string_from("United States")),
                username: Some(prefixed("twitter_", local)),
                password_hash: None,
                exposed_fields: owned_list(&["email", "phone"]),
                stealer_forum: string_from("BreachForums"),
                recovery_possible: true,
            };
            assert(second.exposed_fields@.map_values(|s: String| s@) =~= seq!["email"@, "phone"@]);
            assert(second@ == recorded_breaches(email@)[1]);
            r.push(first);
            r.push(second);
        } else if equal_chars(&domain, &chars_of("yahoo.com")) {
            let only = BreachVictimData {
                breach_name: string_from("Yahoo 2013"),
                breach_date: string_from("2013-08-24"),
                victim_email: string_from(email),
                victim_location: Some(string_from("USA")),
                username: Some(prefixed("yahoo_", local)),
                password_hash: Some(string_from("sha256_hash")),
                exposed_fields: owned_list(&["email", "password_hash", "security_q&a"]),
                stealer_forum: string_from("BreachForums"),
                recovery_possible: false,
            };
            assert(only.exposed_fields@.map_values(|s: String| s@) =~= seq!["email"@, "password_hash"@, "security_q&a"@]);
            assert(only@ == recorded_breaches(email@)[0]);
            r.push(only);
        }
        proof {
            assert(r@.map_values(|b: BreachVictimData| b@) =~= recorded_breaches(email@));
        }
        r
    }

    /// How many records name each victim location: one entry per distinct
    /// location, in order of first appearance; records without a location are
    /// not counted.
    pub fn identify_geographic_patterns(&self, breaches: &[BreachVictimData]) -> (r: Vec<(String, usize)>)
        ensures
            unique_keys(tally_view(r@)),
            forall|l: Seq<char>|
                #[trigger] lookup(tally_view(r@), l) == if location_count(
                    breaches@,
                    l,
                ) > 0 {
                    Some(location_count(breaches@, l) as usize)
                } else {
                    None
                },
    {
        let mut r: Vec<(String, usize)> = Vec::new();
        let mut i: usize = 0;
        proof {
            assert forall|l: Seq<char>| #[trigger] location_count(breaches@.take(0), l) == 0 by {}
        }
        while i < breaches.len()
            invariant
                i <= breaches@.len(),
                unique_keys(tally_view(r@)),
                forall|l: Seq<char>| #[trigger] location_count(breaches@.take(i as int), l) <= i,
                forall|l: Seq<char>|
                    #[trigger] lookup(tally_view(r@), l) == if location_count(
                        breaches@.take(i as int),
                        l,
                    ) > 0 {
                        Some(location_count(breaches@.take(i as int), l) as usize)
                    } else {
                        None
                    },
            decreases breaches@.len() - i,
        {
            let ghost pre = breaches@.take(i as int);
            let ghost next = breaches@.take(i + 1);
            proof {
                assert(next.drop_last() =~= pre);
                assert(next.last() == breaches@[i as int]);
            }
            match &breaches[i].victim_location {
                Some(loc) => {
                    let key = chars_of(loc.as_str());
                    let ghost before = tally_view(r@);
                    let pos = tally_position(&r, &key);
                    match pos {
                        Some(j) => {
                            proof {
                                assert(before[j as int].0 == key@);
                                lemma_lookup_at(before, j as int);
                            }
                            let n = r[j].1;
                            let name = r[j].0.clone();
                            r.set(j, (name, n + 1));
                            proof {
                                let after = tally_view(r@);
                                assert(after =~= before.update(j as int, (key@, (n + 1) as usize)));
                                lemma_store(before, after, j as int, key@, (n + 1) as usize);
                            }
                        },
                        None => {
                            proof {
                                lemma_lookup_absent(before, key@);
                            }
                            r.push((loc.clone(), 1));
                            proof {
                                let after = tally_view(r@);
                                assert(after =~= before.push((key@, 1usize)));
                                lemma_store(before, after, before.len() as int, key@, 1usize);
                            }
                        },
                    }
                },
                None => {},
            }
            proof {
                assert forall|l: Seq<char>| #[trigger] location_count(next, l) == location_count(pre, l) + if opt_view(
                    breaches@[i as int].victim_location,
                ) == Some(l) {
                    1nat
                } else {
                    0nat
                } by {}
            }
            i = i + 1;
        }
        assert(breaches@.take(i as int) =~= breaches@);
        r
    }
}

} // verus!
