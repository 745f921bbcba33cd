use launcher_core::games::integrations::answers::editions_answer;
use launcher_core::games::integrations::answers::optional_diff_answer;
use launcher_core::games::integrations::answers::text_answer;
use launcher_core::games::manifest::GameField;
use launcher_core::games::manifest::GameManifest;
use launcher_core::games::manifest::GameManifestError;
use launcher_core::games::integrations::replies::ListReply;
use launcher_core::games::integrations::replies::LoadError;
use launcher_core::games::integrations::replies::QueryError;
use launcher_core::games::integrations::replies::Reply;
use launcher_core::common::json::Json;
use launcher_core::games::integrations::Game;
use launcher_core::games::integrations::standards::capability_name;
use launcher_core::games::integrations::standards::entry_point_name;
use launcher_core::games::integrations::standards::Capability;
use launcher_core::games::integrations::standards::DiffStatus;
use launcher_core::games::integrations::standards::Edition;
use launcher_core::games::integrations::standards::EntryPoint;
use launcher_core::games::integrations::standards::IntegrationStandard;
use launcher_core::games::integrations::standards::ValueError;

const MANIFEST: &str = r#"{
    "manifest_version": "1",
    "game": {"name": "g", "title": "Game", "developer": "Dev"},
    "script": {"path": "integration.lua", "version": "1.0.0", "standard": "1"}
}"#;

fn manifest() -> GameManifest {
    GameManifest::from_slice(MANIFEST.as_bytes()).expect("a manifest")
}

fn no_network(_uri: String) -> Result<String, String> {
    Err(String::from("no network in tests"))
}

fn game(script: &str) -> Game {
    match Game::new(manifest(), String::from("/games/g/integration.lua"), script, no_network) {
        Ok(game) => game,
        Err(error) => panic!("the script did not load: {error:?}"),
    }
}

fn manifest_error(text: &str) -> GameManifestError {
    GameManifest::from_slice(text.as_bytes()).expect_err("an error")
}

#[test]
fn reads_the_manifest_of_a_game() {
    let manifest = manifest();
    assert_eq!(manifest.game_name, "g");
    assert_eq!(manifest.game_title, "Game");
    assert_eq!(manifest.game_developer, "Dev");
    assert_eq!(manifest.script_path, "integration.lua");
    assert_eq!(manifest.script_version, "1.0.0");
    assert_eq!(manifest.script_standard, IntegrationStandard::V1);
}

#[test]
fn refuses_a_manifest_of_another_version_or_standard() {
    assert_eq!(manifest_error("not json"), GameManifestError::InvalidJson);
    assert_eq!(manifest_error("{}"), GameManifestError::MissingVersion);
    assert_eq!(
        manifest_error(r#"{"manifest_version": "2"}"#),
        GameManifestError::UnknownManifestVersion(String::from("2"))
    );
    assert_eq!(
        manifest_error(
            r#"{"manifest_version": "1", "game": {"name": "g", "title": "t", "developer": "d"},
                "script": {"path": "p", "version": "v", "standard": "2"}}"#
        ),
        GameManifestError::UnknownStandard(String::from("2"))
    );
}

#[test]
fn names_the_field_that_a_manifest_lacks() {
    let cases = [
        (r#"{"manifest_version": "1"}"#, GameField::Game),
        (r#"{"manifest_version": "1", "game": {}}"#, GameField::Script),
        (r#"{"manifest_version": "1", "game": {}, "script": {}}"#, GameField::ScriptPath),
        (r#"{"manifest_version": "1", "game": {}, "script": {"path": "p"}}"#, GameField::GameName),
        (
            r#"{"manifest_version": "1", "game": {"name": "n"}, "script": {"path": "p"}}"#,
            GameField::GameTitle,
        ),
        (
            r#"{"manifest_version": "1", "game": {"name": "n", "title": "t"}, "script": {"path": "p"}}"#,
            GameField::GameDeveloper,
        ),
        (
            r#"{"manifest_version": "1", "game": {"name": "n", "title": "t", "developer": "d"},
                "script": {"path": "p"}}"#,
            GameField::ScriptVersion,
        ),
        (
            r#"{"manifest_version": "1", "game": {"name": "n", "title": "t", "developer": "d"},
                "script": {"path": "p", "version": "v"}}"#,
            GameField::ScriptStandard,
        ),
    ];
    for (text, field) in cases {
        assert_eq!(manifest_error(text), GameManifestError::MissingField(field));
    }
}

#[test]
fn entry_points_and_capabilities_have_their_names() {
    let v1 = IntegrationStandard::V1;
    assert_eq!(entry_point_name(v1, EntryPoint::GameIsInstalled), "v1_game_is_installed");
    assert_eq!(entry_point_name(v1, EntryPoint::VisualGetCardPicture), "v1_visual_get_card_picture");
    assert_eq!(entry_point_name(v1, EntryPoint::DlcDiffPostTransition), "v1_dlc_diff_post_transition");
    assert_eq!(capability_name(v1, Capability::NetworkHttpGet), "v1_network_http_get");
    assert_eq!(capability_name(v1, Capability::JsonDecode), "v1_json_decode");
    assert_eq!(IntegrationStandard::from_str("1"), Some(v1));
    assert_eq!(IntegrationStandard::from_str("2"), None);
}

#[test]
fn a_game_keeps_what_its_manifest_says() {
    let game = game("");
    assert_eq!(game.game_name, "g");
    assert_eq!(game.game_title, "Game");
    assert_eq!(game.game_developer, "Dev");
    assert_eq!(game.script_path, "/games/g/integration.lua");
    assert_eq!(game.script_version, "1.0.0");
    assert_eq!(game.script_standard, IntegrationStandard::V1);
}

#[test]
fn a_script_that_fails_at_top_level_does_not_load() {
    let loaded = Game::new(manifest(), String::from("p"), "this is no lua", no_network);
    assert!(matches!(loaded, Err(LoadError::Script(_))));
    let loaded = Game::new(manifest(), String::from("p"), "error('boom')", no_network);
    assert!(matches!(loaded, Err(LoadError::Script(_))));
}

#[test]
fn pictures_are_strings() {
    let game = game(
        "function v1_visual_get_card_picture(edition) return 'card-' .. edition end
         function v1_visual_get_background_picture(edition) return 7 end",
    );
    assert_eq!(game.get_card_picture("global"), Ok(String::from("card-global")));
    assert_eq!(
        game.get_background_picture("global"),
        Err(QueryError::InvalidValue(EntryPoint::VisualGetBackgroundPicture, ValueError::NotText))
    );
}

#[test]
fn a_missing_entry_point_is_named() {
    let game = game("");
    assert_eq!(
        game.get_card_picture("global"),
        Err(QueryError::MissingEntryPoint(EntryPoint::VisualGetCardPicture))
    );
    assert_eq!(
        game.get_game_editions_list(),
        Err(QueryError::MissingEntryPoint(EntryPoint::GameGetEditionsList))
    );
    assert_eq!(
        game.run_game_diff_transition("/tmp/x", "global"),
        Err(QueryError::MissingEntryPoint(EntryPoint::GameDiffTransition))
    );
}

#[test]
fn an_error_of_the_script_is_reported_with_its_entry_point() {
    let game = game("function v1_game_is_installed(path) error('broken') end");
    match game.is_game_installed("/games/g") {
        Err(QueryError::ScriptFailed(EntryPoint::GameIsInstalled, message)) => {
            assert!(message.contains("broken"), "{message}");
        }
        other => panic!("{other:?}"),
    }
}

#[test]
fn the_malformed_edition_of_three_is_left_out() {
    let game = game(
        "function v1_game_get_editions_list()
            return {
                { name = 'global', title = 'Global' },
                { name = 'broken' },
                { name = 'china', title = 'China' },
            }
         end",
    );
    assert_eq!(
        game.get_game_editions_list(),
        Ok(vec![
            Edition { name: String::from("global"), title: String::from("Global") },
            Edition { name: String::from("china"), title: String::from("China") },
        ])
    );
}

#[test]
fn items_that_are_no_tables_are_left_out_of_a_list() {
    let game = game(
        "function v1_game_get_editions_list()
            return { 1, { name = 'a', title = 'A' }, 'text', print, { title = 'no name' } }
         end",
    );
    assert_eq!(
        game.get_game_editions_list(),
        Ok(vec![Edition { name: String::from("a"), title: String::from("A") }])
    );
}

#[test]
fn an_empty_list_and_no_list() {
    let empty = game("function v1_game_get_editions_list() return {} end");
    assert_eq!(empty.get_game_editions_list(), Ok(Vec::new()));
    let none = game("function v1_game_get_editions_list() return 5 end");
    assert_eq!(
        none.get_game_editions_list(),
        Err(QueryError::InvalidValue(EntryPoint::GameGetEditionsList, ValueError::NotList))
    );
}

#[test]
fn installed_and_version() {
    let game = game(
        "function v1_game_is_installed(path) return path == '/games/g' end
         function v1_game_get_version(path, edition)
            if path == '/games/g' then return '1.2.3-' .. edition end
            return nil
         end",
    );
    assert_eq!(game.is_game_installed("/games/g"), Ok(true));
    assert_eq!(game.is_game_installed("/elsewhere"), Ok(false));
    assert_eq!(game.get_game_version("/games/g", "global"), Ok(Some(String::from("1.2.3-global"))));
    assert_eq!(game.get_game_version("/elsewhere", "global"), Ok(None));
}

#[test]
fn a_download_is_checked_field_by_field() {
    let game = game(
        "function v1_game_get_download(edition)
            return { version = '1.0', edition = edition, uri = 'https://x/g.zip', size = 1024 }
         end
         function v1_addons_get_download(group, addon, edition)
            return { version = '1.0', edition = edition, uri = group .. '/' .. addon }
         end",
    );
    let download = game.get_game_download("global").expect("a download");
    assert_eq!(download.version, "1.0");
    assert_eq!(download.edition, "global");
    assert_eq!(download.uri, "https://x/g.zip");
    assert_eq!(download.size, 1024);
    assert_eq!(
        game.get_addon_download("voices", "en", "global"),
        Err(QueryError::InvalidValue(EntryPoint::AddonsGetDownload, ValueError::MissingSize))
    );
}

#[test]
fn no_diff_is_no_error() {
    let game = game(
        "function v1_game_get_diff(path, edition)
            if path == 'old' then
                return { current_version = '1.0', latest_version = '1.1',
                         edition = edition, status = 'outdated' }
            end
            if path == 'odd' then
                return { current_version = '1.0', latest_version = '1.1',
                         edition = edition, status = 'strange' }
            end
            return nil
         end",
    );
    assert_eq!(game.get_game_diff("new", "global"), Ok(None));
    let diff = game.get_game_diff("old", "global").expect("an answer").expect("a diff");
    assert_eq!(diff.current_version, "1.0");
    assert_eq!(diff.latest_version, "1.1");
    assert_eq!(diff.edition, "global");
    assert_eq!(diff.status, DiffStatus::Outdated);
    assert_eq!(
        game.get_game_diff("odd", "global"),
        Err(QueryError::InvalidValue(EntryPoint::GameGetDiff, ValueError::UnknownStatus))
    );
}

#[test]
fn launch_options_with_and_without_options() {
    let game = game(
        "function v1_game_get_launch_options(path, edition)
            if edition == 'bare' then return { executable = path .. '/g.exe' } end
            if edition == 'odd' then return { executable = 'g.exe', options = { 1 } } end
            return { executable = path .. '/g.exe', options = { '-a', '-b' } }
         end",
    );
    let options = game.get_launch_options("/games/g", "global").expect("options");
    assert_eq!(options.executable, "/games/g/g.exe");
    assert_eq!(options.options, ["-a", "-b"]);
    let options = game.get_launch_options("/games/g", "bare").expect("options");
    assert!(options.options.is_empty());
    assert_eq!(
        game.get_launch_options("/games/g", "odd"),
        Err(QueryError::InvalidValue(EntryPoint::GameGetLaunchOptions, ValueError::InvalidOptions))
    );
}

#[test]
fn groups_of_addons_are_filtered_like_editions() {
    let game = game(
        "function v1_addons_get_list(edition)
            return {
                { name = 'voices', title = 'Voices', addons = {
                    { name = 'en', title = 'English', required = true },
                    { name = 'jp', title = 'Japanese' },
                } },
                { name = 'broken', title = 'Broken', addons = { { name = 'x' } } },
                { name = 'none', title = 'None', addons = {} },
            }
         end
         function v1_addons_get_info(path, edition) return {} end",
    );
    let groups = game.get_addons_list("global").expect("groups");
    assert_eq!(groups.len(), 2);
    assert_eq!(groups[0].name, "voices");
    assert_eq!(groups[0].addons.len(), 2);
    assert_eq!(groups[0].addons[0].name, "en");
    assert!(groups[0].addons[0].required);
    assert!(!groups[0].addons[1].required);
    assert_eq!(groups[1].name, "none");
    assert!(groups[1].addons.is_empty());
    assert_eq!(game.get_addons_info("/addons", "global"), Ok(Vec::new()));
}

#[test]
fn a_script_without_hooks_has_none() {
    let game = game("function v1_game_is_installed(path) return true end");
    assert_eq!(game.has_game_diff_transition(), Ok(false));
    assert_eq!(game.has_game_diff_post_transition(), Ok(false));
    assert_eq!(game.has_dlc_diff_transition(), Ok(false));
    assert_eq!(game.has_dlc_diff_post_transition(), Ok(false));
}

#[test]
fn hooks_are_found_without_being_called_and_run_when_asked() {
    let game = game(
        "calls = 0
         function v1_game_diff_transition(path, edition) calls = calls + 1 end
         function v1_game_diff_post_transition(path, edition) calls = calls + 10 end
         function v1_dlc_diff_transition(group, dlc, path, edition) calls = calls + 100 end
         function v1_dlc_diff_post_transition(group, dlc, path, edition) calls = calls + 1000 end
         function v1_visual_get_card_picture(edition) return tostring(calls) end",
    );
    assert_eq!(game.has_game_diff_transition(), Ok(true));
    assert_eq!(game.has_game_diff_post_transition(), Ok(true));
    assert_eq!(game.has_dlc_diff_transition(), Ok(true));
    assert_eq!(game.has_dlc_diff_post_transition(), Ok(true));
    assert_eq!(game.get_card_picture("x"), Ok(String::from("0")));
    assert_eq!(game.run_game_diff_transition("/tmp/t", "global"), Ok(()));
    assert_eq!(game.run_game_diff_post_transition("/games/g", "global"), Ok(()));
    assert_eq!(game.run_dlc_diff_transition("voices", "en", "/tmp/t", "global"), Ok(()));
    assert_eq!(game.run_dlc_diff_post_transition("voices", "en", "/games/g", "global"), Ok(()));
    assert_eq!(game.get_card_picture("x"), Ok(String::from("1111")));
}

#[test]
fn the_script_can_call_the_two_capabilities() {
    let game = match Game::new(
        manifest(),
        String::from("p"),
        "function v1_visual_get_card_picture(edition)
            local document = v1_json_decode('{\"picture\": \"p.png\", \"n\": [1, 2]}')
            return document.picture .. '#' .. #document.n
         end
         function v1_visual_get_background_picture(edition)
            return v1_network_http_get('https://x/' .. edition)
         end",
        |uri| Ok(format!("body of {uri}")),
    ) {
        Ok(game) => game,
        Err(error) => panic!("{error:?}"),
    };
    assert_eq!(game.get_card_picture("global"), Ok(String::from("p.png#2")));
    assert_eq!(game.get_background_picture("global"), Ok(String::from("body of https://x/global")));
}

#[test]
fn a_fetch_that_fails_is_an_error_of_the_script() {
    let game = game(
        "function v1_visual_get_card_picture(edition) return v1_network_http_get(edition) end
         function v1_visual_get_background_picture(edition)
            local ok, why = pcall(v1_network_http_get, edition)
            if ok then return 'fetched' end
            return 'refused'
         end",
    );
    assert!(matches!(
        game.get_card_picture("https://x"),
        Err(QueryError::ScriptFailed(EntryPoint::VisualGetCardPicture, _))
    ));
    assert_eq!(game.get_background_picture("https://x"), Ok(String::from("refused")));
}

#[test]
fn answers_are_fixed_by_the_reply() {
    let entry = EntryPoint::VisualGetCardPicture;
    assert_eq!(text_answer(entry, Reply::Missing), Err(QueryError::MissingEntryPoint(entry)));
    assert_eq!(
        text_answer(entry, Reply::Failed(String::from("why"))),
        Err(QueryError::ScriptFailed(entry, String::from("why")))
    );
    assert_eq!(
        text_answer(entry, Reply::Returned(None)),
        Err(QueryError::InvalidValue(entry, ValueError::NotPlain))
    );
    assert_eq!(
        text_answer(entry, Reply::Returned(Some(Json::Text(String::from("t"))))),
        Ok(String::from("t"))
    );
    assert_eq!(
        optional_diff_answer(EntryPoint::GameGetDiff, Reply::Returned(Some(Json::Null)), IntegrationStandard::V1),
        Ok(None)
    );
    let well_formed = |name: &str| {
        Some(Json::Object(vec![
            (String::from("name"), Json::Text(String::from(name))),
            (String::from("title"), Json::Text(String::from("T"))),
        ]))
    };
    let items = vec![well_formed("one"), Some(Json::Object(Vec::new())), None, well_formed("two")];
    let editions = editions_answer(
        EntryPoint::GameGetEditionsList,
        ListReply::Items(items),
        IntegrationStandard::V1,
    )
    .expect("a list");
    assert_eq!(editions.len(), 2);
    assert_eq!(editions[0].name, "one");
    assert_eq!(editions[1].name, "two");
}

#[test]
fn a_value_without_plain_form_is_refused() {
    let game = game(
        "function v1_visual_get_card_picture(edition) return print end
         function v1_game_is_installed(path) return 'yes' end",
    );
    assert_eq!(
        game.get_card_picture("global"),
        Err(QueryError::InvalidValue(EntryPoint::VisualGetCardPicture, ValueError::NotPlain))
    );
    // Every value but nil and false is true, as a script reads it.
    assert_eq!(game.is_game_installed("/games/g"), Ok(true));
}

#[test]
fn installed_is_read_as_a_script_reads_a_truth_value() {
    let game = game(
        "function v1_game_is_installed(path)
            if path == 'nil' then return nil end
            if path == 'false' then return false end
            if path == 'zero' then return 0 end
            if path == 'empty' then return '' end
            if path == 'table' then return {} end
            if path == 'function' then return print end
            return true
         end",
    );
    assert_eq!(game.is_game_installed("nil"), Ok(false));
    assert_eq!(game.is_game_installed("false"), Ok(false));
    for path in ["zero", "empty", "table", "function", "other"] {
        assert_eq!(game.is_game_installed(path), Ok(true), "{path}");
    }
}

#[test]
fn a_table_that_holds_a_function_is_read_without_it() {
    let game = game(
        "function v1_game_get_editions_list()
            return {
                { name = 'global', title = 'Global', open = print },
                { name = print, title = 'no name' },
            }
         end
         function v1_game_get_download(edition)
            return { version = '1.0', edition = edition, uri = 'u', size = 1, check = print }
         end",
    );
    assert_eq!(
        game.get_game_editions_list(),
        Ok(vec![Edition { name: String::from("global"), title: String::from("Global") }])
    );
    assert_eq!(game.get_game_download("global").expect("a download").size, 1);
}

#[test]
fn a_script_finds_the_libraries_for_data_and_no_way_to_files_or_processes() {
    let game = game(
        "function v1_visual_get_card_picture(name)
            return tostring(_G[name] ~= nil)
         end
         function v1_visual_get_background_picture(edition)
            return string.upper(edition) .. math.floor(2.5) .. table.concat({ 'a', 'b' })
         end",
    );
    for present in ["string", "table", "math", "utf8", "coroutine", "pcall", "load", "tostring"] {
        assert_eq!(game.get_card_picture(present), Ok(String::from("true")), "{present}");
    }
    for absent in ["io", "os", "package", "require", "debug", "dofile", "loadfile"] {
        assert_eq!(game.get_card_picture(absent), Ok(String::from("false")), "{absent}");
    }
    assert_eq!(game.get_card_picture("v1_network_http_get"), Ok(String::from("true")));
    assert_eq!(game.get_card_picture("v1_json_decode"), Ok(String::from("true")));
    assert_eq!(game.get_background_picture("x"), Ok(String::from("X2ab")));
}

#[test]
fn errors_of_a_game_manifest_read_as_messages() {
    assert_eq!(
        manifest_error(r#"{"manifest_version": "7"}"#).message(),
        "Unknown manifest version: 7"
    );
    assert_eq!(manifest_error("{}").message(), "Wrong manifest file structure");
    assert_eq!(
        manifest_error(r#"{"manifest_version": "1"}"#).message(),
        "Wrong manifest v1 structure: field `game` expected but wasn't presented"
    );
    assert_eq!(
        manifest_error(
            r#"{"manifest_version": "1", "game": {"name": "g", "title": "t", "developer": "d"},
                "script": {"path": "p", "version": "v", "standard": "two"}}"#
        )
        .message(),
        "Wrong manifest v1 structure: field `script.standard` contains unknown version: two"
    );
    assert_eq!(manifest_error("[").message(), "Wrong manifest file format");
}

#[test]
fn the_folder_of_a_manifest_path_is_read_as_a_path_is() {
    let manifest = manifest();
    assert_eq!(manifest.script_location("dir/"), "integration.lua");
    assert_eq!(manifest.script_location("/games/g//game.json"), "/games/g/integration.lua");
    assert_eq!(manifest.script_location("/games/g/game.json/"), "/games/g/integration.lua");
    assert_eq!(manifest.script_location("/g"), "/integration.lua");
    assert_eq!(manifest.script_location("/"), "integration.lua");
    assert_eq!(manifest.script_location("//"), "integration.lua");
}

#[test]
fn a_global_that_is_no_function_is_an_error_of_the_script() {
    let game = game("v1_visual_get_card_picture = 5");
    assert!(matches!(
        game.get_card_picture("global"),
        Err(QueryError::ScriptFailed(EntryPoint::VisualGetCardPicture, _))
    ));
    assert_eq!(game.has_game_diff_transition(), Ok(false));
}

#[test]
fn fields_of_a_game_manifest_have_their_names() {
    assert_eq!(GameField::Game.name(), "game");
    assert_eq!(GameField::ScriptPath.name(), "script.path");
    assert_eq!(GameField::GameDeveloper.name(), "game.developer");
    assert_eq!(GameField::ScriptStandard.name(), "script.standard");
}

#[test]
fn the_script_lies_below_the_folder_of_the_manifest() {
    let manifest = manifest();
    assert_eq!(manifest.script_location("/games/g/game.json"), "/games/g/integration.lua");
    assert_eq!(manifest.script_location("games/g/game.json"), "games/g/integration.lua");
    assert_eq!(manifest.script_location("game.json"), "integration.lua");
    assert_eq!(manifest.script_location("/game.json"), "/integration.lua");
    assert_eq!(manifest.script_location(""), "integration.lua");
}

#[test]
fn an_absolute_script_path_is_taken_as_given() {
    let manifest = GameManifest::from_slice(
        br#"{"manifest_version": "1", "game": {"name": "g", "title": "t", "developer": "d"},
             "script": {"path": "/opt/scripts/g.lua", "version": "1", "standard": "1"}}"#,
    )
    .expect("a manifest");
    assert_eq!(manifest.script_location("/games/g/game.json"), "/opt/scripts/g.lua");
}

#[test]
fn a_hook_is_found_whatever_the_global_holds() {
    let game = game("v1_game_diff_transition = 5\nv1_dlc_diff_transition = false");
    assert_eq!(game.has_game_diff_transition(), Ok(true));
    assert_eq!(game.has_dlc_diff_transition(), Ok(true));
    assert_eq!(game.has_game_diff_post_transition(), Ok(false));
}

#[test]
fn the_error_of_a_script_that_fails_at_top_level_carries_its_message() {
    match Game::new(manifest(), String::from("p"), "error('boom at load')", no_network) {
        Err(LoadError::Script(message)) => assert!(message.contains("boom at load"), "{message}"),
        Err(other) => panic!("{other:?}"),
        Ok(_) => panic!("the script loaded"),
    }
}

#[test]
fn looking_for_a_hook_runs_nothing_of_the_script() {
    let game = game(
        "setmetatable(_G, { __index = function(_, name) error('looked up ' .. name) end })
         function v1_game_diff_post_transition(path, edition) end",
    );
    assert_eq!(game.has_game_diff_transition(), Ok(false));
    assert_eq!(game.has_game_diff_post_transition(), Ok(true));
}
