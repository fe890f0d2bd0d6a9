use huntsman::sweep::{family_counts, sweep_status};

#[test]
fn family_counts_tally_hits_in_name_order() {
    let names: Vec<String> = ["DroidJack", "Blackshades", "DroidJack", "AsyncRAT", "DroidJack"]
        .iter()
        .map(|s| s.to_string())
        .collect();
    let counts = family_counts(&names);
    assert_eq!(
        counts,
        vec![
            ("AsyncRAT".to_string(), 1),
            ("Blackshades".to_string(), 1),
            ("DroidJack".to_string(), 3),
        ]
    );
    let total: usize = counts.iter().map(|(_, n)| n).sum();
    assert_eq!(total, names.len());
}

#[test]
fn family_counts_of_no_hits_is_empty() {
    assert!(family_counts(&Vec::new()).is_empty());
}

#[test]
fn sweep_status_reports_findings() {
    assert_eq!(sweep_status(0), 0);
    assert_eq!(sweep_status(1), 1);
    assert_eq!(sweep_status(42), 1);
}
