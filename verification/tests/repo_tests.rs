use libsolv::repo::{find, updateaddedprovides, ProvidesCheck, RepoDataRef, SEARCH_STRING, SOLVID_META, SOLVID_POS};

#[test]
fn find_stops_at_first_match_with_a_location() {
    let matches = vec![(None, Some(1)), (Some("a"), Some(2)), (Some("b"), Some(3))];
    assert_eq!(find(matches), (Some("a"), Some(2)));
}

#[test]
fn find_without_location_keeps_the_last_match() {
    let matches: Vec<(Option<&str>, Option<i32>)> = vec![(None, Some(1)), (None, None), (None, Some(7))];
    assert_eq!(find(matches), (None, Some(7)));
}

#[test]
fn find_on_no_matches_finds_nothing() {
    let matches: Vec<(Option<&str>, Option<i32>)> = vec![];
    assert_eq!(find(matches), (None, None));
}

#[test]
fn updateaddedprovides_checks_in_order() {
    assert_eq!(updateaddedprovides(0, &[]), ProvidesCheck::NoSolvables);
    assert_eq!(updateaddedprovides(1, &[]), ProvidesCheck::TooFewSolvables);
    assert_eq!(updateaddedprovides(3, &[false, true, true]), ProvidesCheck::FirstHasLoadCallback);
    assert_eq!(updateaddedprovides(4, &[false, false, true, false]), ProvidesCheck::NoLoadCallback(3));
    assert_eq!(updateaddedprovides(4, &[false, false, true, true]), ProvidesCheck::AllHaveLoadCallbacks);
    assert_eq!(updateaddedprovides(2, &[false, false]), ProvidesCheck::AllHaveLoadCallbacks);
}

#[test]
fn search_ids() {
    let _r = RepoDataRef {};
    assert_eq!(SEARCH_STRING, 1);
    assert_eq!(SOLVID_META, -1);
    assert_eq!(SOLVID_POS, -2);
}

#[test]
fn find_step_settles_on_the_next_match_and_stops_at_a_location() {
    let (d, stop) = libsolv::repo::find_step((None::<&str>, Some(1)), (None, Some(2)));
    assert_eq!(d, (None, Some(2)));
    assert!(!stop);
    let (d, stop) = libsolv::repo::find_step(d, (Some("p"), Some(3)));
    assert_eq!(d, (Some("p"), Some(3)));
    assert!(stop);
}
