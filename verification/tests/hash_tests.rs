#[test]
fn hash_round_trips_lower_case_digits() {
    let hash = launcher_core::packages::hash::Hash::parse("deadbeef").expect("valid hash");
    assert_eq!(hash.to_string(), "deadbeef");
}

#[test]
fn hash_lowers_upper_case_digits() {
    let hash = launcher_core::packages::hash::Hash::parse("CAFEf00d").expect("valid hash");
    assert_eq!(hash.to_string(), "cafef00d");
}

#[test]
fn hash_refuses_other_text() {
    assert!(launcher_core::packages::hash::Hash::parse("").is_none());
    assert!(launcher_core::packages::hash::Hash::parse("xyz").is_none());
    assert!(launcher_core::packages::hash::Hash::parse("dead-beef").is_none());
}
