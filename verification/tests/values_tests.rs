use launcher_core::games::integrations::answers::addons_answer;
use launcher_core::games::integrations::answers::defined_answer;
use launcher_core::games::integrations::answers::done_answer;
use launcher_core::games::integrations::answers::download_answer;
use launcher_core::games::integrations::answers::launch_options_answer;
use launcher_core::games::integrations::answers::optional_text_answer;
use launcher_core::games::integrations::answers::reply_of_value;
use launcher_core::games::integrations::answers::truth_answer;
use launcher_core::games::integrations::replies::ListReply;
use launcher_core::games::integrations::replies::QueryError;
use launcher_core::games::integrations::replies::Reply;
use launcher_core::common::json::Json;
use launcher_core::games::integrations::standards::Addon;
use launcher_core::games::integrations::standards::AddonsGroup;
use launcher_core::games::integrations::standards::Diff;
use launcher_core::games::integrations::standards::DiffStatus;
use launcher_core::games::integrations::standards::Download;
use launcher_core::games::integrations::standards::Edition;
use launcher_core::games::integrations::standards::EntryPoint;
use launcher_core::games::integrations::standards::IntegrationStandard;
use launcher_core::games::integrations::standards::LaunchOptions;
use launcher_core::games::integrations::standards::ValueError;
use launcher_core::games::integrations::values::addons_groups_in;
use launcher_core::games::integrations::values::editions_in;

const V1: IntegrationStandard = IntegrationStandard::V1;

fn doc(text: &str) -> Json {
    Json::from_slice(text.as_bytes()).expect("valid JSON")
}

#[test]
fn an_edition_needs_name_and_title() {
    assert_eq!(
        Edition::from_json(&doc(r#"{"name": "n", "title": "t", "more": 1}"#), V1),
        Ok(Edition { name: String::from("n"), title: String::from("t") })
    );
    assert_eq!(Edition::from_json(&doc(r#"{"title": "t"}"#), V1), Err(ValueError::MissingName));
    assert_eq!(Edition::from_json(&doc(r#"{"name": 1, "title": "t"}"#), V1), Err(ValueError::MissingName));
    assert_eq!(Edition::from_json(&doc(r#"{"name": "n"}"#), V1), Err(ValueError::MissingTitle));
    assert_eq!(Edition::from_json(&doc(r#"["n", "t"]"#), V1), Err(ValueError::MissingName));
}

#[test]
fn a_download_names_the_first_field_that_it_lacks() {
    assert_eq!(
        Download::from_json(&doc(r#"{"version": "v", "edition": "e", "uri": "u", "size": 0}"#), V1),
        Ok(Download {
            version: String::from("v"),
            edition: String::from("e"),
            uri: String::from("u"),
            size: 0,
        })
    );
    let cases = [
        (r#"{}"#, ValueError::MissingVersion),
        (r#"{"version": "v"}"#, ValueError::MissingEdition),
        (r#"{"version": "v", "edition": "e"}"#, ValueError::MissingUri),
        (r#"{"version": "v", "edition": "e", "uri": "u"}"#, ValueError::MissingSize),
        (r#"{"version": "v", "edition": "e", "uri": "u", "size": -1}"#, ValueError::MissingSize),
        (r#"{"version": "v", "edition": "e", "uri": "u", "size": 1.5}"#, ValueError::MissingSize),
        (r#"{"version": "v", "edition": "e", "uri": "u", "size": "1"}"#, ValueError::MissingSize),
    ];
    for (text, error) in cases {
        assert_eq!(Download::from_json(&doc(text), V1), Err(error), "{text}");
    }
}

#[test]
fn a_diff_names_the_first_field_that_it_lacks() {
    assert_eq!(
        Diff::from_json(
            &doc(r#"{"current_version": "1", "latest_version": "2", "edition": "e", "status": "latest"}"#),
            V1
        ),
        Ok(Diff {
            current_version: String::from("1"),
            latest_version: String::from("2"),
            edition: String::from("e"),
            status: DiffStatus::Latest,
        })
    );
    let cases = [
        (r#"{}"#, ValueError::MissingCurrentVersion),
        (r#"{"current_version": "1"}"#, ValueError::MissingLatestVersion),
        (r#"{"current_version": "1", "latest_version": "2"}"#, ValueError::MissingEdition),
        (
            r#"{"current_version": "1", "latest_version": "2", "edition": "e"}"#,
            ValueError::MissingStatus,
        ),
        (
            r#"{"current_version": "1", "latest_version": "2", "edition": "e", "status": "Latest"}"#,
            ValueError::UnknownStatus,
        ),
    ];
    for (text, error) in cases {
        assert_eq!(Diff::from_json(&doc(text), V1), Err(error), "{text}");
    }
    assert_eq!(DiffStatus::from_str("latest"), Some(DiffStatus::Latest));
    assert_eq!(DiffStatus::from_str("outdated"), Some(DiffStatus::Outdated));
    assert_eq!(DiffStatus::from_str("unavailable"), Some(DiffStatus::Unavailable));
    assert_eq!(DiffStatus::from_str(""), None);
}

#[test]
fn launch_options_need_an_executable_and_take_a_list_of_strings() {
    assert_eq!(
        LaunchOptions::from_json(&doc(r#"{"executable": "g", "options": ["a", "b"]}"#), V1),
        Ok(LaunchOptions {
            executable: String::from("g"),
            options: vec![String::from("a"), String::from("b")],
        })
    );
    assert_eq!(
        LaunchOptions::from_json(&doc(r#"{"executable": "g", "options": {}}"#), V1),
        Ok(LaunchOptions { executable: String::from("g"), options: Vec::new() })
    );
    assert_eq!(
        LaunchOptions::from_json(&doc(r#"{"options": []}"#), V1),
        Err(ValueError::MissingExecutable)
    );
    for text in [
        r#"{"executable": "g", "options": ["a", 1]}"#,
        r#"{"executable": "g", "options": {"a": "b"}}"#,
        r#"{"executable": "g", "options": "a"}"#,
    ] {
        assert_eq!(LaunchOptions::from_json(&doc(text), V1), Err(ValueError::InvalidOptions), "{text}");
    }
}

#[test]
fn a_group_of_addons_needs_every_addon_to_be_one() {
    assert_eq!(
        AddonsGroup::from_json(
            &doc(r#"{"name": "n", "title": "t", "addons": [{"name": "a", "title": "A", "required": true},
                                                        {"name": "b", "title": "B", "required": 1}]}"#),
            V1
        ),
        Ok(AddonsGroup {
            name: String::from("n"),
            title: String::from("t"),
            addons: vec![
                Addon { name: String::from("a"), title: String::from("A"), required: true },
                Addon { name: String::from("b"), title: String::from("B"), required: false },
            ],
        })
    );
    let cases = [
        (r#"{"title": "t", "addons": []}"#, ValueError::MissingName),
        (r#"{"name": "n", "addons": []}"#, ValueError::MissingTitle),
        (r#"{"name": "n", "title": "t"}"#, ValueError::InvalidAddons),
        (r#"{"name": "n", "title": "t", "addons": 1}"#, ValueError::InvalidAddons),
        (r#"{"name": "n", "title": "t", "addons": {"a": {}}}"#, ValueError::InvalidAddons),
        (r#"{"name": "n", "title": "t", "addons": [{"name": "a"}]}"#, ValueError::InvalidAddons),
    ];
    for (text, error) in cases {
        assert_eq!(AddonsGroup::from_json(&doc(text), V1), Err(error), "{text}");
    }
    assert_eq!(Addon::from_json(&doc(r#"{"title": "A"}"#)), None);
}

#[test]
fn lists_keep_what_is_well_formed_in_its_order() {
    let items = vec![
        None,
        Some(doc(r#"{"name": "1", "title": "One"}"#)),
        Some(doc(r#"{"name": "2"}"#)),
        Some(doc(r#"7"#)),
        Some(doc(r#"{"name": "3", "title": "Three"}"#)),
    ];
    let editions = editions_in(&items, V1);
    assert_eq!(editions.len(), 2);
    assert_eq!(editions[0].name, "1");
    assert_eq!(editions[1].name, "3");
    assert!(editions_in(&Vec::new(), V1).is_empty());
    let items = vec![
        Some(doc(r#"{"name": "g", "title": "G", "addons": []}"#)),
        Some(doc(r#"{"name": "h", "title": "H"}"#)),
    ];
    let groups = addons_groups_in(&items, V1);
    assert_eq!(groups.len(), 1);
    assert_eq!(groups[0].name, "g");
}

#[test]
fn each_answer_names_what_was_wrong_with_the_reply() {
    let entry = EntryPoint::GameIsInstalled;
    assert_eq!(truth_answer(entry, Reply::Returned(Some(Json::Bool(true)))), Ok(true));
    assert_eq!(truth_answer(entry, Reply::Returned(Some(Json::Bool(false)))), Ok(false));
    assert_eq!(truth_answer(entry, Reply::Returned(Some(Json::Null))), Ok(false));
    assert_eq!(truth_answer(entry, Reply::Returned(Some(Json::Unsigned(0)))), Ok(true));
    assert_eq!(truth_answer(entry, Reply::Returned(Some(Json::Text(String::new())))), Ok(true));
    assert_eq!(truth_answer(entry, Reply::Returned(None)), Ok(true));
    assert_eq!(
        truth_answer(entry, Reply::Failed(String::from("x"))),
        Err(QueryError::ScriptFailed(entry, String::from("x")))
    );
    assert_eq!(truth_answer(entry, Reply::Missing), Err(QueryError::MissingEntryPoint(entry)));
    let entry = EntryPoint::GameGetVersion;
    assert_eq!(optional_text_answer(entry, Reply::Returned(Some(Json::Null))), Ok(None));
    assert_eq!(
        optional_text_answer(entry, Reply::Returned(Some(Json::Text(String::from("1.0"))))),
        Ok(Some(String::from("1.0")))
    );
    assert_eq!(
        optional_text_answer(entry, Reply::Returned(Some(Json::Bool(false)))),
        Err(QueryError::InvalidValue(entry, ValueError::NotText))
    );
    let entry = EntryPoint::GameGetDownload;
    assert_eq!(
        download_answer(entry, Reply::Returned(Some(Json::Null)), V1),
        Err(QueryError::InvalidValue(entry, ValueError::MissingVersion))
    );
    let entry = EntryPoint::GameGetLaunchOptions;
    assert_eq!(
        launch_options_answer(entry, Reply::Failed(String::from("x")), V1),
        Err(QueryError::ScriptFailed(entry, String::from("x")))
    );
    let entry = EntryPoint::GameDiffTransition;
    assert_eq!(done_answer(entry, Reply::Returned(None)), Ok(()));
    assert_eq!(done_answer(entry, Reply::Returned(Some(Json::Unsigned(3)))), Ok(()));
    assert_eq!(done_answer(entry, Reply::Missing), Err(QueryError::MissingEntryPoint(entry)));
    let entry = EntryPoint::AddonsGetList;
    assert_eq!(
        addons_answer(entry, ListReply::NotList, V1),
        Err(QueryError::InvalidValue(entry, ValueError::NotList))
    );
    assert_eq!(addons_answer(entry, ListReply::Items(Vec::new()), V1), Ok(Vec::new()));
}

#[test]
fn a_global_counts_as_defined_when_the_lookup_says_so() {
    let entry = EntryPoint::GameDiffTransition;
    assert_eq!(defined_answer(entry, Ok(true)), Ok(true));
    assert_eq!(defined_answer(entry, Ok(false)), Ok(false));
    assert_eq!(
        defined_answer(entry, Err(String::from("no stack left"))),
        Err(QueryError::ScriptFailed(entry, String::from("no stack left")))
    );
}

#[test]
fn only_nil_reads_as_null() {
    assert_eq!(reply_of_value(Some(Json::Null), true), Reply::Returned(Some(Json::Null)));
    assert_eq!(reply_of_value(Some(Json::Null), false), Reply::Returned(None));
    assert_eq!(reply_of_value(None, false), Reply::Returned(None));
    assert_eq!(
        reply_of_value(Some(Json::Unsigned(3)), false),
        Reply::Returned(Some(Json::Unsigned(3)))
    );
}
