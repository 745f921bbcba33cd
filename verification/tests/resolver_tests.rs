use launcher_core::common::json::Json;
use launcher_core::packages::manifest::Manifest;
use launcher_core::games::manifest::package::Package;
use launcher_core::packages::resolver::Dependency;
use launcher_core::packages::resolver::ResolveError;
use launcher_core::packages::resolver::Resolver;
use launcher_core::packages::manifest::v2::parse_v2;

fn manifest(text: &str) -> Manifest {
    let document = Json::from_slice(text.as_bytes()).expect("valid JSON");
    parse_v2(&document).ok().expect("a manifest")
}

fn package(url: &str) -> Package {
    Package::new(String::from(url))
}

fn names(found: &[Dependency]) -> Vec<String> {
    found.iter().map(|dependency| String::from(dependency.name())).collect()
}

fn resolve(url: &str, table: &Vec<(Package, Manifest)>) -> Result<Vec<Dependency>, String> {
    match Resolver::resolve_dependencies(&package(url), table) {
        Ok(found) => Ok(found),
        Err(ResolveError::Cycle(at)) => Err(format!("cycle at {at}")),
        Err(ResolveError::MissingManifest(at)) => Err(format!("missing {at}")),
    }
}

#[test]
fn a_flat_manifest_gives_every_input_and_then_every_output() {
    let table = vec![(
        package("https://x/pkg"),
        manifest(
            r#"{"inputs": {"i1": {"uri": "https://x/1.bin", "hash": "01"},
                           "i2": {"uri": "https://x/2.bin", "hash": "02"}},
                "outputs": {"o1": {"path": "1.lua", "hash": "a1"},
                            "o2": {"path": "2.lua", "hash": "a2"},
                            "o3": {"path": "3.lua", "hash": "a3"}}}"#,
        ),
    )];
    let found = resolve("https://x/pkg", &table).expect("a list");
    assert_eq!(found.len(), 5);
    assert_eq!(names(&found), ["i1", "i2", "o1", "o2", "o3"]);
    assert!(matches!(found[0], Dependency::Input { .. }));
    assert!(matches!(found[2], Dependency::Output { .. }));
    assert_eq!(found[0].uri(), "https://x/1.bin");
    assert_eq!(found[2].uri(), "https://x/pkg/1.lua");
    assert_eq!(found[2].hash().to_string(), "a1");
}

#[test]
fn an_empty_manifest_gives_nothing() {
    let table = vec![(package("p"), manifest(r#"{"inputs": {}, "outputs": {}}"#))];
    assert_eq!(resolve("p", &table).expect("a list").len(), 0);
}

#[test]
fn the_same_hash_is_listed_once() {
    let table = vec![(
        package("p"),
        manifest(
            r#"{"inputs": {"a": {"uri": "u/a.bin", "hash": "01"},
                           "b": {"uri": "u/b.bin", "hash": "01"}},
                "outputs": {"c": {"path": "c.lua", "hash": "01"},
                            "d": {"path": "d.lua", "hash": "02"}}}"#,
        ),
    )];
    let found = resolve("p", &table).expect("a list");
    assert_eq!(names(&found), ["a", "d"]);
}

#[test]
fn a_manifest_that_was_not_given_is_asked_for() {
    let table: Vec<(Package, Manifest)> = Vec::new();
    assert_eq!(resolve("https://x/pkg", &table).err(), Some(String::from("missing https://x/pkg")));
    let table = vec![(
        package("https://x/pkg"),
        manifest(
            r#"{"inputs": {}, "outputs": {"sub": {"path": "sub", "format": "package", "hash": "0b"}}}"#,
        ),
    )];
    assert_eq!(
        resolve("https://x/pkg", &table).err(),
        Some(String::from("missing https://x/pkg/sub"))
    );
}

#[test]
fn what_a_package_output_lists_comes_before_the_output() {
    let table = vec![
        (
            package("https://x/pkg"),
            manifest(
                r#"{"inputs": {"in": {"uri": "https://x/in.bin", "hash": "01"}},
                    "outputs": {"a-first": {"path": "first.lua", "hash": "a1"},
                                "b-sub": {"path": "sub", "format": "package", "hash": "0b"},
                                "c-last": {"path": "last.lua", "hash": "a2"}}}"#,
            ),
        ),
        (
            package("https://x/pkg/sub"),
            manifest(
                r#"{"inputs": {"again": {"uri": "https://x/in.bin", "hash": "01"},
                               "deep": {"uri": "https://x/deep.bin", "hash": "02"}},
                    "outputs": {"inner": {"path": "inner.lua", "hash": "a3"}}}"#,
            ),
        ),
    ];
    let found = resolve("https://x/pkg", &table).expect("a list");
    // The members of an object are read in the order of their names.
    assert_eq!(names(&found), ["in", "a-first", "deep", "inner", "b-sub", "c-last"]);
    assert_eq!(found[3].uri(), "https://x/pkg/sub/inner.lua");
}

#[test]
fn a_package_that_lists_itself_is_a_cycle() {
    let table = vec![(
        package("https://x/pkg/"),
        manifest(
            r#"{"inputs": {"in": {"uri": "https://x/in.bin", "hash": "01"}},
                "outputs": {"me": {"path": "", "format": "package", "hash": "0b"}}}"#,
        ),
    )];
    assert_eq!(resolve("https://x/pkg/", &table).err(), Some(String::from("cycle at https://x/pkg/")));
}

#[test]
fn a_cycle_below_the_root_is_found_too() {
    let table = vec![
        (
            package("https://x/pkg"),
            manifest(
                r#"{"inputs": {}, "outputs": {"sub": {"path": "sub/", "format": "package", "hash": "0b"}}}"#,
            ),
        ),
        (
            package("https://x/pkg/sub/"),
            manifest(
                r#"{"inputs": {}, "outputs": {"loop": {"path": "", "format": "package", "hash": "0c"}}}"#,
            ),
        ),
    ];
    assert_eq!(
        resolve("https://x/pkg", &table).err(),
        Some(String::from("cycle at https://x/pkg/sub/"))
    );
}
