//! The runtime that loads the script of a game integration and asks it
//! questions.

pub mod answers;
pub mod replies;
pub mod script;
pub mod standards;
pub mod values;

use vstd::prelude::*;
use crate::common::json::Json;
use crate::games::integrations::answers::{
    addons_answer, defined_answer, done_answer, download_answer, editions_answer, is_addons_answer,
    is_defined_answer, is_done_answer, is_download_answer, is_editions_answer,
    is_launch_options_answer, is_optional_diff_answer, is_optional_text_answer, is_text_answer,
    is_truth_answer, launch_options_answer, optional_diff_answer, optional_text_answer,
    reply_of_value, text_answer, truth_answer,
};
use crate::games::integrations::replies::{
    ListReply, LoadError, QueryError, Reply, Setup, setup_failure,
};
use crate::games::integrations::script::{
    call_function, define_fetch, define_json_decode, error_message, global_function, is_nil,
    new_interpreter, plain_value, raw_global, run_script, sequence_items, withhold_global,
};
use crate::games::integrations::standards::{
    AddonsGroup, Capability, Diff, Download, Edition, EntryPoint, IntegrationStandard,
    LaunchOptions, capability_name, entry_point_name, script_libraries, withheld_globals,
};
use crate::games::manifest::{GameManifest, GameManifestModel};

verus! {

/// The interpreter that runs the script of one game.  It is made when the
/// game is loaded, and nothing outside this module reaches into it.
pub struct Interpreter {
    lua: mlua::Lua,
}

/// A game integration: what its manifest says, and an interpreter that has
/// run its script.  The interpreter belongs to this value alone.
pub struct Game {
    pub game_name: String,
    pub game_title: String,
    pub game_developer: String,
    pub script_path: String,
    pub script_version: String,
    pub script_standard: IntegrationStandard,
    pub interpreter: Interpreter,
}

impl View for Game {
    type V = GameManifestModel;

    /// What the game's manifest says, with the path that the script was
    /// read from.
    open spec fn view(&self) -> GameManifestModel {
        GameManifestModel {
            game_name: self.game_name@,
            game_title: self.game_title@,
            game_developer: self.game_developer@,
            script_path: self.script_path@,
            script_version: self.script_version@,
            script_standard: self.script_standard,
        }
    }
}

fn one(a: &str) -> (args: Vec<String>)
    ensures
        args@.len() == 1,
        args@[0]@ == a@,
{
    let mut args: Vec<String> = Vec::new();
    args.push(String::from_str(a));
    args
}

fn two(a: &str, b: &str) -> (args: Vec<String>)
    ensures
        args@.len() == 2,
        args@[0]@ == a@,
        args@[1]@ == b@,
{
    let mut args = one(a);
    args.push(String::from_str(b));
    args
}

fn three(a: &str, b: &str, c: &str) -> (args: Vec<String>)
    ensures
        args@.len() == 3,
        args@[0]@ == a@,
        args@[1]@ == b@,
        args@[2]@ == c@,
{
    let mut args = two(a, b);
    args.push(String::from_str(c));
    args
}

fn four(a: &str, b: &str, c: &str, d: &str) -> (args: Vec<String>)
    ensures
        args@.len() == 4,
        args@[0]@ == a@,
        args@[1]@ == b@,
        args@[2]@ == c@,
        args@[3]@ == d@,
{
    let mut args = three(a, b, c);
    args.push(String::from_str(d));
    args
}

/// `loaded` is what loading a game comes to when preparing its interpreter
/// came to `setup`: the game, with what the manifest says and the path of
/// the script, where the interpreter is ready, and else the failure that the
/// setup stands for.
pub open spec fn is_load_result(
    manifest: GameManifestModel,
    script_path: Seq<char>,
    setup: Setup,
    loaded: Result<Game, LoadError>,
) -> bool {
    match loaded {
        Ok(game) => setup_failure(setup) is None && game@ == (GameManifestModel {
            script_path,
            ..manifest
        }),
        Err(e) => setup_failure(setup) == Some(e@),
    }
}

impl Game {
    /// Loads a game integration: makes a fresh interpreter with the
    /// libraries that a script of the manifest's standard may use, takes out
    /// of it the functions that such a script may not use, defines in it the
    /// capabilities of the standard and nothing else, and runs the script at
    /// top level.  `script_path` is where the script was
    /// read from and `script` its text; `fetch` is what the capability to
    /// fetch an address calls.
    ///
    /// The interpreter decides how the setup goes.  Whatever it decides, the
    /// result is the one that belongs to that setup: the game where every
    /// step was taken and the script ran, and else the error of the first
    /// step that failed.
    pub fn new<F: Fn(String) -> Result<String, String> + 'static>(
        manifest: GameManifest,
        script_path: String,
        script: &str,
        fetch: F,
    ) -> (r: Result<Game, LoadError>)
        ensures
            exists|setup: Setup| is_load_result(manifest@, script_path@, setup, r),
    {
        let standard = manifest.script_standard;
        let libraries = script_libraries(standard);
        let lua = match new_interpreter(&libraries) {
            Ok(lua) => lua,
            Err(e) => {
                let message = error_message(&e);
                let ghost seen = Setup::Unprepared(message);
                let r = Err(LoadError::Interpreter(message));
                assert(is_load_result(manifest@, script_path@, seen, r));
                return r;
            },
        };
        let withheld = withheld_globals(standard);
        let mut unprepared: Option<String> = None;
        let mut i: usize = 0;
        while i < withheld.len() && unprepared.is_none()
            invariant
                i <= withheld@.len(),
            decreases withheld@.len() - i,
        {
            match withhold_global(&lua, withheld[i]) {
                Ok(()) => {},
                Err(e) => {
                    unprepared = Some(error_message(&e));
                },
            }
            i += 1;
        }
        let setup = match unprepared {
            Some(message) => Setup::Unprepared(message),
            None => match standard {
                IntegrationStandard::V1 => {
                    let fetch_name = capability_name(standard, Capability::NetworkHttpGet);
                    let decode_name = capability_name(standard, Capability::JsonDecode);
                    match define_fetch(&lua, fetch_name, fetch) {
                        Err(e) => Setup::Refused(Capability::NetworkHttpGet, error_message(&e)),
                        Ok(()) => match define_json_decode(&lua, decode_name) {
                            Err(e) => Setup::Refused(Capability::JsonDecode, error_message(&e)),
                            Ok(()) => match run_script(&lua, script) {
                                Err(e) => Setup::Failed(error_message(&e)),
                                Ok(()) => Setup::Ready,
                            },
                        },
                    }
                },
            },
        };
        let ghost seen = setup;
        let r = Game::loaded(manifest, script_path, lua, setup);
        assert(is_load_result(manifest@, script_path@, seen, r));
        r
    }

    /// The game that comes of a setup: the interpreter with what the
    /// manifest says where the setup is ready, and the error of the step
    /// that failed where it is not.
    fn loaded(manifest: GameManifest, script_path: String, lua: mlua::Lua, setup: Setup) -> (r:
        Result<Game, LoadError>)
        ensures
            is_load_result(manifest@, script_path@, setup, r),
    {
        match setup {
            Setup::Unprepared(message) => Err(LoadError::Interpreter(message)),
            Setup::Refused(capability, message) => Err(LoadError::Capability(capability, message)),
            Setup::Failed(message) => Err(LoadError::Script(message)),
            Setup::Ready => Ok(
                Game {
                    game_name: manifest.game_name,
                    game_title: manifest.game_title,
                    game_developer: manifest.game_developer,
                    script_path,
                    script_version: manifest.script_version,
                    script_standard: manifest.script_standard,
                    interpreter: Interpreter { lua },
                },
            ),
        }
    }

    /// Calls the function of the script for an entry point, and tells what
    /// came of it.  The interpreter decides which reply that is, and every
    /// reply can be the one: what to make of each is for the answers to say.
    fn ask(&self, entry: EntryPoint, args: &Vec<String>) -> (reply: Reply) {
        let name = entry_point_name(self.script_standard, entry);
        match global_function(&self.interpreter.lua, name) {
            Err(e) => Reply::Failed(error_message(&e)),
            Ok(None) => Reply::Missing,
            Ok(Some(function)) => match call_function(&function, args) {
                Err(e) => Reply::Failed(error_message(&e)),
                Ok(value) => reply_of_value(
                    plain_value(&self.interpreter.lua, &value, false),
                    is_nil(&value),
                ),
            },
        }
    }

    /// Calls the function of the script for an entry point that is to
    /// return a list, and tells what came of it, item by item.  As with
    /// `ask`, the interpreter decides which reply that is.
    fn ask_list(&self, entry: EntryPoint, args: &Vec<String>) -> (reply: ListReply) {
        let name = entry_point_name(self.script_standard, entry);
        match global_function(&self.interpreter.lua, name) {
            Err(e) => ListReply::Failed(error_message(&e)),
            Ok(None) => ListReply::Missing,
            Ok(Some(function)) => match call_function(&function, args) {
                Err(e) => ListReply::Failed(error_message(&e)),
                Ok(value) => match sequence_items(&value) {
                    None => ListReply::NotList,
                    Some(values) => {
                        let mut items: Vec<Option<Json>> = Vec::new();
                        let n: usize = values.len();
                        let mut i: usize = 0;
                        while i < n
                            invariant
                                n == values@.len(),
                                i <= n,
                            decreases n - i,
                        {
                            let item = match &values[i] {
                                Some(value) => plain_value(&self.interpreter.lua, value, false),
                                None => None,
                            };
                            items.push(item);
                            i += 1;
                        }
                        ListReply::Items(items)
                    },
                },
            },
        }
    }

    /// Whether the script defines the function for an entry point.  The
    /// name of the entry point is looked up in the table of globals itself,
    /// and what is found there is asked whether it is nil; nothing of the
    /// script is called.  Whatever the interpreter says, the result is the
    /// answer that belongs to it.
    fn defines(&self, entry: EntryPoint) -> (r: Result<bool, QueryError>)
        ensures
            exists|found: Result<bool, String>| is_defined_answer(entry, found, r),
    {
        let name = entry_point_name(self.script_standard, entry);
        let found = match raw_global(&self.interpreter.lua, name) {
            Ok(value) => Ok(!is_nil(&value)),
            Err(e) => Err(error_message(&e)),
        };
        let ghost seen = found;
        let r = defined_answer(entry, found);
        assert(is_defined_answer(entry, seen, r));
        r
    }

    /// The picture of the game's card for an edition.
    pub fn get_card_picture(&self, edition: &str) -> (r: Result<String, QueryError>)
        ensures
            exists|reply: Reply| is_text_answer(EntryPoint::VisualGetCardPicture, reply, r),
    {
        let reply = self.ask(EntryPoint::VisualGetCardPicture, &one(edition));
        let ghost seen = reply;
        let r = text_answer(EntryPoint::VisualGetCardPicture, reply);
        assert(is_text_answer(EntryPoint::VisualGetCardPicture, seen, r));
        r
    }

    /// The background picture of the game for an edition.
    pub fn get_background_picture(&self, edition: &str) -> (r: Result<String, QueryError>)
        ensures
            exists|reply: Reply| is_text_answer(EntryPoint::VisualGetBackgroundPicture, reply, r),
    {
        let reply = self.ask(EntryPoint::VisualGetBackgroundPicture, &one(edition));
        let ghost seen = reply;
        let r = text_answer(EntryPoint::VisualGetBackgroundPicture, reply);
        assert(is_text_answer(EntryPoint::VisualGetBackgroundPicture, seen, r));
        r
    }

    /// The editions of the game.  An item of the script's list that
    /// describes no edition is left out.
    pub fn get_game_editions_list(&self) -> (r: Result<Vec<Edition>, QueryError>)
        ensures
            exists|reply: ListReply| is_editions_answer(EntryPoint::GameGetEditionsList, reply, r),
    {
        let args: Vec<String> = Vec::new();
        let reply = self.ask_list(EntryPoint::GameGetEditionsList, &args);
        let ghost seen = reply;
        let r = editions_answer(EntryPoint::GameGetEditionsList, reply, self.script_standard);
        assert(is_editions_answer(EntryPoint::GameGetEditionsList, seen, r));
        r
    }

    /// Whether the game is installed at a path.
    pub fn is_game_installed(&self, path: &str) -> (r: Result<bool, QueryError>)
        ensures
            exists|reply: Reply| is_truth_answer(EntryPoint::GameIsInstalled, reply, r),
    {
        let reply = self.ask(EntryPoint::GameIsInstalled, &one(path));
        let ghost seen = reply;
        let r = truth_answer(EntryPoint::GameIsInstalled, reply);
        assert(is_truth_answer(EntryPoint::GameIsInstalled, seen, r));
        r
    }

    /// The version of the game installed at a path, if one can be told.
    pub fn get_game_version(&self, path: &str, edition: &str) -> (r: Result<
        Option<String>,
        QueryError,
    >)
        ensures
            exists|reply: Reply| is_optional_text_answer(EntryPoint::GameGetVersion, reply, r),
    {
        let reply = self.ask(EntryPoint::GameGetVersion, &two(path, edition));
        let ghost seen = reply;
        let r = optional_text_answer(EntryPoint::GameGetVersion, reply);
        assert(is_optional_text_answer(EntryPoint::GameGetVersion, seen, r));
        r
    }

    /// Where the game can be had in an edition.
    pub fn get_game_download(&self, edition: &str) -> (r: Result<Download, QueryError>)
        ensures
            exists|reply: Reply| is_download_answer(EntryPoint::GameGetDownload, reply, r),
    {
        let reply = self.ask(EntryPoint::GameGetDownload, &one(edition));
        let ghost seen = reply;
        let r = download_answer(EntryPoint::GameGetDownload, reply, self.script_standard);
        assert(is_download_answer(EntryPoint::GameGetDownload, seen, r));
        r
    }

    /// What separates the game installed at a path from the latest
    /// version; nothing where it is up to date.
    pub fn get_game_diff(&self, path: &str, edition: &str) -> (r: Result<Option<Diff>, QueryError>)
        ensures
            exists|reply: Reply| is_optional_diff_answer(EntryPoint::GameGetDiff, reply, r),
    {
        let reply = self.ask(EntryPoint::GameGetDiff, &two(path, edition));
        let ghost seen = reply;
        let r = optional_diff_answer(EntryPoint::GameGetDiff, reply, self.script_standard);
        assert(is_optional_diff_answer(EntryPoint::GameGetDiff, seen, r));
        r
    }

    /// How to start the game installed at a path.
    pub fn get_launch_options(&self, path: &str, edition: &str) -> (r: Result<
        LaunchOptions,
        QueryError,
    >)
        ensures
            exists|reply: Reply| is_launch_options_answer(
                EntryPoint::GameGetLaunchOptions,
                reply,
                r,
            ),
    {
        let reply = self.ask(EntryPoint::GameGetLaunchOptions, &two(path, edition));
        let ghost seen = reply;
        let r = launch_options_answer(EntryPoint::GameGetLaunchOptions, reply, self.script_standard);
        assert(is_launch_options_answer(EntryPoint::GameGetLaunchOptions, seen, r));
        r
    }

    /// The addons of the game in an edition, by group.
    pub fn get_addons_list(&self, edition: &str) -> (r: Result<Vec<AddonsGroup>, QueryError>)
        ensures
            exists|reply: ListReply| is_addons_answer(EntryPoint::AddonsGetList, reply, r),
    {
        let reply = self.ask_list(EntryPoint::AddonsGetList, &one(edition));
        let ghost seen = reply;
        let r = addons_answer(EntryPoint::AddonsGetList, reply, self.script_standard);
        assert(is_addons_answer(EntryPoint::AddonsGetList, seen, r));
        r
    }

    /// The addons installed at a path, by group.
    pub fn get_addons_info(&self, addons_path: &str, edition: &str) -> (r: Result<
        Vec<AddonsGroup>,
        QueryError,
    >)
        ensures
            exists|reply: ListReply| is_addons_answer(EntryPoint::AddonsGetInfo, reply, r),
    {
        let reply = self.ask_list(EntryPoint::AddonsGetInfo, &two(addons_path, edition));
        let ghost seen = reply;
        let r = addons_answer(EntryPoint::AddonsGetInfo, reply, self.script_standard);
        assert(is_addons_answer(EntryPoint::AddonsGetInfo, seen, r));
        r
    }

    /// Where an addon can be had.
    pub fn get_addon_download(&self, group_name: &str, addon_name: &str, edition: &str) -> (r:
        Result<Download, QueryError>)
        ensures
            exists|reply: Reply| is_download_answer(EntryPoint::AddonsGetDownload, reply, r),
    {
        let reply = self.ask(
            EntryPoint::AddonsGetDownload,
            &three(group_name, addon_name, edition),
        );
        let ghost seen = reply;
        let r = download_answer(EntryPoint::AddonsGetDownload, reply, self.script_standard);
        assert(is_download_answer(EntryPoint::AddonsGetDownload, seen, r));
        r
    }

    /// Whether the script has a hook to run before a diff of the game is
    /// applied.
    pub fn has_game_diff_transition(&self) -> (r: Result<bool, QueryError>)
        ensures
            exists|found: Result<bool, String>| is_defined_answer(EntryPoint::GameDiffTransition, found, r),
    {
        self.defines(EntryPoint::GameDiffTransition)
    }

    /// Runs the hook before a diff of the game is applied.  The caller has
    /// found with `has_game_diff_transition` that there is one.
    pub fn run_game_diff_transition(&self, transition_path: &str, edition: &str) -> (r: Result<
        (),
        QueryError,
    >)
        ensures
            exists|reply: Reply| is_done_answer(EntryPoint::GameDiffTransition, reply, r),
    {
        let reply = self.ask(EntryPoint::GameDiffTransition, &two(transition_path, edition));
        let ghost seen = reply;
        let r = done_answer(EntryPoint::GameDiffTransition, reply);
        assert(is_done_answer(EntryPoint::GameDiffTransition, seen, r));
        r
    }

    /// Whether the script has a hook to run after a diff of the game was
    /// applied.
    pub fn has_game_diff_post_transition(&self) -> (r: Result<bool, QueryError>)
        ensures
            exists|found: Result<bool, String>| is_defined_answer(EntryPoint::GameDiffPostTransition, found, r),
    {
        self.defines(EntryPoint::GameDiffPostTransition)
    }

    /// Runs the hook after a diff of the game was applied.
    pub fn run_game_diff_post_transition(&self, path: &str, edition: &str) -> (r: Result<
        (),
        QueryError,
    >)
        ensures
            exists|reply: Reply| is_done_answer(EntryPoint::GameDiffPostTransition, reply, r),
    {
        let reply = self.ask(EntryPoint::GameDiffPostTransition, &two(path, edition));
        let ghost seen = reply;
        let r = done_answer(EntryPoint::GameDiffPostTransition, reply);
        assert(is_done_answer(EntryPoint::GameDiffPostTransition, seen, r));
        r
    }

    /// Whether the script has a hook to run before a diff of an addon is
    /// applied.
    pub fn has_dlc_diff_transition(&self) -> (r: Result<bool, QueryError>)
        ensures
            exists|found: Result<bool, String>| is_defined_answer(EntryPoint::DlcDiffTransition, found, r),
    {
        self.defines(EntryPoint::DlcDiffTransition)
    }

    /// Runs the hook before a diff of an addon is applied.
    pub fn run_dlc_diff_transition(
        &self,
        group_name: &str,
        dlc_name: &str,
        transition_path: &str,
        edition: &str,
    ) -> (r: Result<(), QueryError>)
        ensures
            exists|reply: Reply| is_done_answer(EntryPoint::DlcDiffTransition, reply, r),
    {
        let reply = self.ask(
            EntryPoint::DlcDiffTransition,
            &four(group_name, dlc_name, transition_path, edition),
        );
        let ghost seen = reply;
        let r = done_answer(EntryPoint::DlcDiffTransition, reply);
        assert(is_done_answer(EntryPoint::DlcDiffTransition, seen, r));
        r
    }

    /// Whether the script has a hook to run after a diff of an addon was
    /// applied.
    pub fn has_dlc_diff_post_transition(&self) -> (r: Result<bool, QueryError>)
        ensures
            exists|found: Result<bool, String>| is_defined_answer(EntryPoint::DlcDiffPostTransition, found, r),
    {
        self.defines(EntryPoint::DlcDiffPostTransition)
    }

    /// Runs the hook after a diff of an addon was applied.
    pub fn run_dlc_diff_post_transition(
        &self,
        group_name: &str,
        dlc_name: &str,
        path: &str,
        edition: &str,
    ) -> (r: Result<(), QueryError>)
        ensures
            exists|reply: Reply| is_done_answer(EntryPoint::DlcDiffPostTransition, reply, r),
    {
        let reply = self.ask(
            EntryPoint::DlcDiffPostTransition,
            &four(group_name, dlc_name, path, edition),
        );
        let ghost seen = reply;
        let r = done_answer(EntryPoint::DlcDiffPostTransition, reply);
        assert(is_done_answer(EntryPoint::DlcDiffPostTransition, seen, r));
        r
    }
}

} // verus!
