//! The tallies of a sweep over files: how many hits each malware family got,
//! and the exit status a sweep reports.

use vstd::prelude::*;
use crate::catalog_commands::{is_tally, tally};

verus! {

/// The hits of a sweep as `(malware, "")` pairs, keyed by the family named.
pub open spec fn family_pairs(families: Seq<String>) -> Seq<(Seq<char>, Seq<char>)> {
    families.map_values(|f: String| (f@, Seq::<char>::empty()))
}

/// Hits per malware family, in ascending family order: one entry for each
/// family named in `families` (one name per hit), with the number of hits
/// naming it.
pub fn family_counts(families: &Vec<String>) -> (r: Vec<(String, usize)>)
    ensures
        is_tally(r@, family_pairs(families@)),
{
    let mut pairs: Vec<(String, String)> = Vec::new();
    let mut i: usize = 0;
    while i < families.len()
        invariant
            i <= families@.len(),
            pairs@.map_values(|p: (String, String)| (p.0@, p.1@)) == family_pairs(families@.take(i as int)),
        decreases families@.len() - i,
    {
        let ghost before = pairs@;
        pairs.push((families[i].clone(), String::new()));
        assert(pairs@.map_values(|p: (String, String)| (p.0@, p.1@)) =~= before.map_values(
            |p: (String, String)| (p.0@, p.1@),
        ).push((families@[i as int]@, Seq::<char>::empty())));
        assert(family_pairs(families@.take(i + 1)) =~= family_pairs(families@.take(i as int)).push(
            (families@[i as int]@, Seq::<char>::empty()),
        ));
        i = i + 1;
    }
    assert(families@.take(i as int) =~= families@);
    tally(&pairs, false)
}

/// The exit status of a finished sweep: 1 when anything was found, 0 when
/// everything was clean.
pub fn sweep_status(total_hits: usize) -> (code: u8)
    ensures
        code == (if total_hits > 0 { 1u8 } else { 0u8 }),
{
    if total_hits > 0 {
        1
    } else {
        0
    }
}

} // verus!
