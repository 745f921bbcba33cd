use launcher_core::packages::storage::join_path;
use launcher_core::packages::storage::Storage;

fn hash(text: &str) -> launcher_core::packages::hash::Hash {
    launcher_core::packages::hash::Hash::parse(text).expect("valid hash")
}

fn listing(names: &[&str]) -> Vec<String> {
    names.iter().map(|name| String::from(*name)).collect()
}

#[test]
fn sanitize_keeps_a_plain_ascii_name() {
    assert_eq!(Storage::sanitize_name("game-v1.2_final.lua"), "game-v1.2_final.lua");
    assert_eq!(Storage::sanitize_name(""), "");
    assert_eq!(Storage::sanitize_name("."), ".");
}

#[test]
fn sanitize_drops_characters_outside_ascii() {
    assert_eq!(Storage::sanitize_name("na\u{ef}ve-\u{6e38}\u{620f}.bin"), "nave-.bin");
}

#[test]
fn sanitize_drops_parent_references_from_the_left() {
    assert_eq!(Storage::sanitize_name("../../etc/passwd"), "etcpasswd");
    assert_eq!(Storage::sanitize_name(".."), "");
    assert_eq!(Storage::sanitize_name("..."), ".");
    assert_eq!(Storage::sanitize_name("...."), "");
    assert_eq!(Storage::sanitize_name("a..b"), "ab");
}

#[test]
fn sanitize_drops_both_separators() {
    assert_eq!(Storage::sanitize_name("a/b\\c"), "abc");
    assert_eq!(Storage::sanitize_name("C:\\Games\\x"), "C:Gamesx");
}

#[test]
fn sanitize_drops_what_lies_outside_ascii_before_it_looks_for_dots() {
    // The two dots meet once the character between them is gone.
    assert_eq!(Storage::sanitize_name(".\u{e9}."), "");
}

#[test]
fn sanitize_drops_separators_before_it_looks_for_dots() {
    // The two dots meet once the separator between them is gone, and go too.
    assert_eq!(Storage::sanitize_name("./."), "");
    assert_eq!(Storage::sanitize_name(".\\."), "");
    assert_eq!(Storage::sanitize_name("a/./.b"), "ab");
    assert_eq!(Storage::sanitize_name("./../."), "");
}

#[test]
fn sanitizing_twice_is_sanitizing_once() {
    for name in ["./.", "..", "...", "a/../b", ".\u{e9}./.x", "plain-name.lua", "/././", "....//.."] {
        let once = Storage::sanitize_name(name);
        assert_eq!(Storage::sanitize_name(&once), once, "{name}");
    }
}

#[test]
fn sanitized_names_hold_no_separator_and_no_parent_reference() {
    for name in ["a/b", "/", "\\\\", "x/../y", "./.", "..//..\\"] {
        let clean = Storage::sanitize_name(name);
        assert!(!clean.contains('/'), "{clean}");
        assert!(!clean.contains('\\'), "{clean}");
        assert!(!clean.contains(".."), "{clean}");
        assert!(clean.is_ascii());
    }
}

#[test]
fn entry_name_is_hash_dash_sanitized_name() {
    assert_eq!(Storage::entry_name("a.bin", &hash("deadbeef")), "deadbeef-a.bin");
    assert_eq!(Storage::entry_name("../a", &hash("CAFEF00D")), "cafef00d-a");
    assert_eq!(Storage::entry_name("", &hash("00")), "00-");
}

#[test]
fn build_path_places_the_entry_in_the_folder() {
    let storage = Storage::new(String::from("/var/store"));
    assert_eq!(storage.folder(), "/var/store");
    assert_eq!(storage.build_path("a.bin", &hash("deadbeef")), "/var/store/deadbeef-a.bin");
    let storage = Storage::new(String::from("/var/store/"));
    assert_eq!(storage.build_path("a.bin", &hash("deadbeef")), "/var/store/deadbeef-a.bin");
    let storage = Storage::new(String::new());
    assert_eq!(storage.build_path("a.bin", &hash("deadbeef")), "deadbeef-a.bin");
}

#[test]
fn build_path_is_the_same_for_the_same_arguments() {
    let storage = Storage::new(String::from("store"));
    let first = storage.build_path("some/name", &hash("0123abcd"));
    let second = storage.build_path("some/name", &hash("0123abcd"));
    assert_eq!(first, second);
}

#[test]
fn build_path_tells_names_and_hashes_apart() {
    let storage = Storage::new(String::from("store"));
    let h = hash("0123abcd");
    assert_ne!(storage.build_path("a", &h), storage.build_path("b", &h));
    // Two names with one sanitized form share a path under one hash only.
    assert_eq!(storage.build_path("a/b", &h), storage.build_path("ab", &h));
    assert_ne!(storage.build_path("a/b", &h), storage.build_path("ab", &hash("0123abce")));
    // A hash that is the start of another does not run into the name.
    assert_ne!(storage.build_path("cd-x", &hash("ab")), storage.build_path("x", &hash("abcd")));
}

#[test]
fn join_path_adds_one_separator_where_it_is_needed() {
    assert_eq!(join_path("a", "b"), "a/b");
    assert_eq!(join_path("a/", "b"), "a/b");
    assert_eq!(join_path("", "b"), "b");
    assert_eq!(join_path("a", ""), "a/");
}

#[test]
fn search_hash_finds_the_first_entry_that_starts_with_the_hash() {
    let storage = Storage::new(String::from("store"));
    let entries = listing(&["cafef00d-a", "deadbeef-a.bin", "deadbeef-other"]);
    assert_eq!(
        storage.search_hash(&entries, &hash("deadbeef")),
        Some(String::from("store/deadbeef-a.bin"))
    );
    assert_eq!(storage.search_hash(&entries, &hash("cafe")), Some(String::from("store/cafef00d-a")));
    assert_eq!(storage.search_hash(&entries, &hash("beef")), None);
    assert_eq!(storage.search_hash(&Vec::new(), &hash("deadbeef")), None);
}

#[test]
fn search_name_finds_every_entry_that_ends_with_the_sanitized_name() {
    let storage = Storage::new(String::from("store"));
    let entries = listing(&["cafef00d-a.lua", "deadbeef-a.bin", "0011-a.lua", "a.lu"]);
    assert_eq!(
        storage.search_name(&entries, "a.lua"),
        vec![String::from("store/cafef00d-a.lua"), String::from("store/0011-a.lua")]
    );
    assert_eq!(
        storage.search_name(&entries, "../a.lua"),
        vec![String::from("store/cafef00d-a.lua"), String::from("store/0011-a.lua")]
    );
    assert_eq!(storage.search_name(&entries, "missing"), Vec::<String>::new());
}
