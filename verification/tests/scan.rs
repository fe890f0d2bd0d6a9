use huntsman::ioc::{Confidence, Hit, Indicator};
use huntsman::scanner::{Error, Mode, Scanner};

const FEED: &str = "\
type,value,malware,context,confidence
domain,droidjack.net,DroidJack,C2,high
string,DJ_GooDbYe:(,DroidJack,kill token,high
sha256,deadbeef,DroidJack,should be skipped,high
domain,bshades.eu,Blackshades,C2,medium
";

#[test]
fn loads_only_scannable_indicators() {
    let s = Scanner::from_csv(FEED).unwrap();
    // 3 scannable (two domains + one string); the sha256 row is skipped.
    assert_eq!(s.len(), 3);
}

#[test]
fn finds_hits_with_offsets() {
    let s = Scanner::from_csv(FEED).unwrap();
    let hay = b"GET http://droidjack.net/Access/DJ then DJ_GooDbYe:(";
    let hits = s.scan(hay);
    let values: Vec<&str> = hits.iter().map(|h| s.indicator(h).value.as_str()).collect();
    assert!(values.contains(&"droidjack.net"));
    assert!(values.contains(&"DJ_GooDbYe:("));
}

#[test]
fn case_insensitive_match() {
    let s = Scanner::from_csv(FEED).unwrap();
    let hits = s.scan(b"connect to DROIDJACK.NET now");
    assert_eq!(hits.len(), 1);
    assert_eq!(s.indicator(&hits[0]).value, "droidjack.net");
}

#[test]
fn empty_feed_is_an_error() {
    assert!(Scanner::from_csv("type,value,malware\n").is_err());
}

#[test]
fn clean_input_has_no_hits() {
    let s = Scanner::from_csv(FEED).unwrap();
    assert!(s.scan(b"a perfectly innocent file about cats").is_empty());
}

#[test]
fn min_confidence_filters_below_threshold() {
    // `from_csv_min(High)` should drop the medium-confidence bshades row.
    let s = Scanner::from_csv_min(FEED, Confidence::High).unwrap();
    // Only 2 high-confidence scannable rows (domain + string); bshades.eu gone.
    assert_eq!(s.len(), 2);
    assert!(s.scan(b"bshades.eu").is_empty());
    assert!(!s.scan(b"droidjack.net").is_empty());
}

#[test]
fn hash_lookup_finds_and_misses() {
    let feed = "\
type,value,malware,context,confidence
sha256,abc123def456,DroidJack,sample,high
string,keepme,DroidJack,marker,high
";
    let s = Scanner::from_csv(feed).unwrap();
    // Hit — case-insensitive.
    let hit = s.hash_lookup("ABC123DEF456");
    assert!(hit.is_some());
    assert_eq!(hit.unwrap().malware, "DroidJack");
    // Miss.
    assert!(s.hash_lookup("000000").is_none());
}

#[test]
fn hits_report_offsets_of_each_match() {
    let s = Scanner::from_csv(FEED).unwrap();
    let hits = s.scan(b"xx droidjack.net");
    assert_eq!(hits.len(), 1);
    assert_eq!(hits[0].offset, 3);
    assert_eq!(s.hash_count(), 1);
    assert!(s.is_empty());
}

#[test]
fn min_confidence_low_equals_plain_load() {
    let a = Scanner::from_csv(FEED).unwrap();
    let b = Scanner::from_csv_min(FEED, Confidence::Low).unwrap();
    assert_eq!(a.len(), b.len());
    let medium = Scanner::from_csv_min(FEED, Confidence::Medium).unwrap();
    assert_eq!(medium.len(), 3);
}

fn ind(value: &str) -> Indicator {
    Indicator {
        value: value.to_string(),
        kind: "string".to_string(),
        malware: "M".to_string(),
        confidence: Confidence::High,
    }
}

#[test]
fn fast_mode_reports_leftmost_longest_matches() {
    let s = Scanner::with_mode(vec![ind("abc"), ind("abcd"), ind("cd")], Mode::Fast).unwrap();
    let hits = s.scan(b"xabcdcd");
    assert_eq!(hits, vec![Hit { indicator: 1, offset: 1 }, Hit { indicator: 2, offset: 5 }]);
    // Case-sensitive in fast mode.
    assert!(s.scan(b"XABCDCD").is_empty());
}

#[test]
fn complete_mode_reports_each_overlapping_match_once() {
    let s = Scanner::with_mode(vec![ind("abc"), ind("abcd"), ind("cd")], Mode::Complete).unwrap();
    let mut hits = s.scan(b"xABCDcd");
    hits.sort_by_key(|h| (h.offset, h.indicator));
    assert_eq!(
        hits,
        vec![
            Hit { indicator: 0, offset: 1 },
            Hit { indicator: 1, offset: 1 },
            Hit { indicator: 2, offset: 3 },
            Hit { indicator: 2, offset: 5 },
        ]
    );
}

#[test]
fn complete_mode_exact_single_hit() {
    let s = Scanner::from_csv(FEED).unwrap();
    assert_eq!(s.scan(b"connect to DROIDJACK.NET now"), vec![Hit { indicator: 0, offset: 11 }]);
    assert!(s.scan(b"").is_empty());
}

#[test]
fn section_rows_are_not_scanned() {
    let feed = "type,value,malware\nsection,.evil,M\n";
    assert!(matches!(Scanner::from_csv(feed), Err(Error::NoIndicators)));
    let feed = "type,value,malware\nsection,.evil,M\nfilemarker,EVILMARK,M\n";
    let s = Scanner::from_csv(feed).unwrap();
    assert_eq!(s.len(), 1);
    assert_eq!(s.indicator(&Hit { indicator: 0, offset: 0 }).value, "EVILMARK");
}

#[test]
fn scan_reader_hits_name_loaded_indicators() {
    let s = Scanner::from_csv(FEED).unwrap();
    let hits = s.scan_reader(&b"xx droidjack.net and DJ_GooDbYe:("[..]).unwrap();
    assert_eq!(hits.len(), 2);
    assert!(hits.iter().all(|h| h.indicator < s.len()));
}

#[test]
fn empty_indicator_list_is_an_error() {
    assert!(matches!(Scanner::new(Vec::new()), Err(Error::NoIndicators)));
    assert!(matches!(Scanner::with_mode(Vec::new(), Mode::Fast), Err(Error::NoIndicators)));
}

#[test]
fn empty_indicator_matches_at_every_offset() {
    let s = Scanner::with_mode(vec![ind(""), ind("ab"), ind("xab")], Mode::Complete).unwrap();
    let mut hits = s.scan(b"xab");
    hits.sort_by_key(|h| (h.offset, h.indicator));
    hits.dedup();
    assert_eq!(
        hits,
        vec![
            Hit { indicator: 0, offset: 0 },
            Hit { indicator: 2, offset: 0 },
            Hit { indicator: 0, offset: 1 },
            Hit { indicator: 1, offset: 1 },
            Hit { indicator: 0, offset: 2 },
            Hit { indicator: 0, offset: 3 },
        ]
    );
}

#[test]
fn scan_reader_works_in_fast_mode_too() {
    let s = Scanner::with_mode(vec![ind("abc"), ind("cd")], Mode::Fast).unwrap();
    let hits = s.scan_reader(&b"xxabcd ABC cd"[..]).unwrap();
    assert_eq!(hits, vec![Hit { indicator: 0, offset: 2 }, Hit { indicator: 1, offset: 11 }]);
}
