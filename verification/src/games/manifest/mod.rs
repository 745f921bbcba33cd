//! The manifest of a game integration.

pub mod package;

use vstd::prelude::*;
use crate::common::json::{Json, decoded_document};
use crate::common::text::{from_chars, same_text, to_chars};
use crate::packages::storage::{join_path, joined};
use crate::games::integrations::standards::{IntegrationStandard, named_standard};

verus! {

/// A field that the manifest of a game integration must have.
#[derive(Clone, Copy, Debug, PartialEq, Eq, Structural)]
pub enum GameField {
    Game,
    Script,
    ScriptPath,
    GameName,
    GameTitle,
    GameDeveloper,
    ScriptVersion,
    ScriptStandard,
}

/// Why a document is no manifest of a game integration.
#[derive(Debug, PartialEq, Eq)]
pub enum GameManifestError {
    /// The bytes are no JSON text.
    InvalidJson,
    /// `manifest_version` is absent or no string.
    MissingVersion,
    /// `manifest_version` is not `1`; the text is what it is.
    UnknownManifestVersion(String),
    /// A required field is absent or of the wrong kind.
    MissingField(GameField),
    /// `script.standard` names no standard that this library knows; the
    /// text is what it names.
    UnknownStandard(String),
}

/// A `GameManifestError`, with texts in place of strings.
pub ghost enum GameManifestFailure {
    InvalidJson,
    MissingVersion,
    UnknownManifestVersion(Seq<char>),
    MissingField(GameField),
    UnknownStandard(Seq<char>),
}

impl View for GameManifestError {
    type V = GameManifestFailure;

    open spec fn view(&self) -> GameManifestFailure {
        match self {
            GameManifestError::InvalidJson => GameManifestFailure::InvalidJson,
            GameManifestError::MissingVersion => GameManifestFailure::MissingVersion,
            GameManifestError::UnknownManifestVersion(version) => GameManifestFailure::UnknownManifestVersion(
                version@,
            ),
            GameManifestError::MissingField(field) => GameManifestFailure::MissingField(*field),
            GameManifestError::UnknownStandard(standard) => GameManifestFailure::UnknownStandard(
                standard@,
            ),
        }
    }
}

/// The name of a field, as error messages give it.
pub open spec fn game_field_text(field: GameField) -> Seq<char> {
    match field {
        GameField::Game => "game"@,
        GameField::Script => "script"@,
        GameField::ScriptPath => "script.path"@,
        GameField::GameName => "game.name"@,
        GameField::GameTitle => "game.title"@,
        GameField::GameDeveloper => "game.developer"@,
        GameField::ScriptVersion => "script.version"@,
        GameField::ScriptStandard => "script.standard"@,
    }
}

impl GameField {
    /// The name of the field, as error messages give it.
    pub fn name(&self) -> (name: &'static str)
        ensures
            name@ == game_field_text(*self),
    {
        match self {
            GameField::Game => "game",
            GameField::Script => "script",
            GameField::ScriptPath => "script.path",
            GameField::GameName => "game.name",
            GameField::GameTitle => "game.title",
            GameField::GameDeveloper => "game.developer",
            GameField::ScriptVersion => "script.version",
            GameField::ScriptStandard => "script.standard",
        }
    }
}

/// The message of a failure.  It names the field that is missing, and gives
/// the version or the standard that is not known.
pub open spec fn failure_text(failure: GameManifestFailure) -> Seq<char> {
    match failure {
        GameManifestFailure::InvalidJson => "Wrong manifest file format"@,
        GameManifestFailure::MissingVersion => "Wrong manifest file structure"@,
        GameManifestFailure::UnknownManifestVersion(version) => "Unknown manifest version: "@
            + version,
        GameManifestFailure::MissingField(field) => "Wrong manifest v1 structure: field `"@
            + game_field_text(field) + "` expected but wasn't presented"@,
        GameManifestFailure::UnknownStandard(standard) => {
            "Wrong manifest v1 structure: field `script.standard` contains unknown version: "@
                + standard
        },
    }
}

impl GameManifestError {
    /// The message of the error.
    pub fn message(&self) -> (message: String)
        ensures
            message@ == failure_text(self@),
    {
        match self {
            GameManifestError::InvalidJson => String::from_str("Wrong manifest file format"),
            GameManifestError::MissingVersion => String::from_str("Wrong manifest file structure"),
            GameManifestError::UnknownManifestVersion(version) => String::from_str(
                "Unknown manifest version: ",
            ).concat(version.as_str()),
            GameManifestError::MissingField(field) => String::from_str(
                "Wrong manifest v1 structure: field `",
            ).concat(field.name()).concat("` expected but wasn't presented"),
            GameManifestError::UnknownStandard(standard) => String::from_str(
                "Wrong manifest v1 structure: field `script.standard` contains unknown version: ",
            ).concat(standard.as_str()),
        }
    }
}

/// What the manifest of a game integration says.
#[derive(Debug, PartialEq, Eq)]
pub struct GameManifest {
    pub game_name: String,
    pub game_title: String,
    pub game_developer: String,
    /// The path of the script as the manifest gives it: absolute, or
    /// relative to the directory of the manifest.
    pub script_path: String,
    pub script_version: String,
    pub script_standard: IntegrationStandard,
}

/// The manifest of a game integration, with texts in place of strings.
pub ghost struct GameManifestModel {
    pub game_name: Seq<char>,
    pub game_title: Seq<char>,
    pub game_developer: Seq<char>,
    pub script_path: Seq<char>,
    pub script_version: Seq<char>,
    pub script_standard: IntegrationStandard,
}

impl View for GameManifest {
    type V = GameManifestModel;

    open spec fn view(&self) -> GameManifestModel {
        GameManifestModel {
            game_name: self.game_name@,
            game_title: self.game_title@,
            game_developer: self.game_developer@,
            script_path: self.script_path@,
            script_version: self.script_version@,
            script_standard: self.script_standard,
        }
    }
}

/// The standard that the `script` object of a manifest declares.
pub open spec fn declared_standard(script: Json) -> Result<IntegrationStandard, GameManifestFailure> {
    match script.text_field("standard"@) {
        None => Err(GameManifestFailure::MissingField(GameField::ScriptStandard)),
        Some(name) => match named_standard(name) {
            None => Err(GameManifestFailure::UnknownStandard(name)),
            Some(standard) => Ok(standard),
        },
    }
}

/// What the `game` and `script` objects of a manifest of version 1 say.  The
/// checks come in this order: `script.path`, `game.name`, `game.title`,
/// `game.developer`, `script.version`, `script.standard`.
pub open spec fn game_manifest_fields(game: Json, script: Json) -> Result<
    GameManifestModel,
    GameManifestFailure,
> {
    match script.text_field("path"@) {
        None => Err(GameManifestFailure::MissingField(GameField::ScriptPath)),
        Some(script_path) => match game.text_field("name"@) {
            None => Err(GameManifestFailure::MissingField(GameField::GameName)),
            Some(game_name) => match game.text_field("title"@) {
                None => Err(GameManifestFailure::MissingField(GameField::GameTitle)),
                Some(game_title) => match game.text_field("developer"@) {
                    None => Err(GameManifestFailure::MissingField(GameField::GameDeveloper)),
                    Some(game_developer) => match script.text_field("version"@) {
                        None => Err(GameManifestFailure::MissingField(GameField::ScriptVersion)),
                        Some(script_version) => match declared_standard(script) {
                            Err(e) => Err(e),
                            Ok(script_standard) => Ok(
                                GameManifestModel {
                                    game_name,
                                    game_title,
                                    game_developer,
                                    script_path,
                                    script_version,
                                    script_standard,
                                },
                            ),
                        },
                    },
                },
            },
        },
    }
}

/// What a document says as the manifest of a game integration.  The string
/// `manifest_version` must be `1`; then `game` and `script` must be there;
/// then their fields are read.
pub open spec fn game_manifest_of(document: Json) -> Result<GameManifestModel, GameManifestFailure> {
    match document.text_field("manifest_version"@) {
        None => Err(GameManifestFailure::MissingVersion),
        Some(version) => if version != "1"@ {
            Err(GameManifestFailure::UnknownManifestVersion(version))
        } else {
            match document.field("game"@) {
                None => Err(GameManifestFailure::MissingField(GameField::Game)),
                Some(game) => match document.field("script"@) {
                    None => Err(GameManifestFailure::MissingField(GameField::Script)),
                    Some(script) => game_manifest_fields(game, script),
                },
            }
        },
    }
}

/// What a run of bytes says as the manifest of a game integration.
pub open spec fn game_manifest_in(bytes: Seq<u8>) -> Result<GameManifestModel, GameManifestFailure> {
    match decoded_document(bytes) {
        None => Err(GameManifestFailure::InvalidJson),
        Some(document) => game_manifest_of(document),
    }
}

/// A path without the `/` at its end, however many there are.
pub open spec fn without_trailing_separators(path: Seq<char>) -> Seq<char>
    decreases path.len(),
{
    if path.len() > 0 && path.last() == '/' {
        without_trailing_separators(path.drop_last())
    } else {
        path
    }
}

/// A path without the name at its end: what is left is empty or ends with a
/// `/`.
pub open spec fn without_last_name(path: Seq<char>) -> Seq<char>
    decreases path.len(),
{
    if path.len() > 0 && path.last() != '/' {
        without_last_name(path.drop_last())
    } else {
        path
    }
}

/// The directory that a path lies in.  A `/` at the end of the path does not
/// count, nor does one at the end of the directory, but for the root, which
/// is `/`.  A path that names nothing, being empty or `/` alone, lies in no
/// directory; a single name lies in the empty directory.  The path is read
/// as it is written: a name `.` or `..` in it is a name like any other.
pub open spec fn folder_of(path: Seq<char>) -> Option<Seq<char>> {
    let named = without_trailing_separators(path);
    let above = without_last_name(named);
    if named.len() == 0 {
        None
    } else if above.len() > 0 && without_trailing_separators(above).len() == 0 {
        Some(seq!['/'])
    } else {
        Some(without_trailing_separators(above))
    }
}

/// Where the script of a game lies: where the manifest says, if that is an
/// absolute path, and else at that path below the directory of the manifest.
/// Where the manifest's path lies in no directory, the script's path stands
/// as it is.
pub open spec fn script_location(manifest_path: Seq<char>, script_path: Seq<char>) -> Seq<char> {
    if script_path.len() > 0 && script_path[0] == '/' {
        script_path
    } else {
        match folder_of(manifest_path) {
            Some(folder) => joined(folder, script_path),
            None => script_path,
        }
    }
}

/// A path of which nothing is left without the `/` at its end holds nothing
/// but `/`.
pub proof fn lemma_only_separators(path: Seq<char>)
    requires
        without_trailing_separators(path).len() == 0,
    ensures
        forall|i: int| 0 <= i < path.len() ==> #[trigger] path[i] == '/',
    decreases path.len(),
{
    if path.len() > 0 {
        lemma_only_separators(path.drop_last());
        assert forall|i: int| 0 <= i < path.len() implies #[trigger] path[i] == '/' by {
            if i < path.len() - 1 {
                assert(path.drop_last()[i] == path[i]);
            }
        }
    }
}

fn trim_separators(path: &Vec<char>, end: usize) -> (trimmed: usize)
    requires
        end <= path@.len(),
    ensures
        trimmed <= end,
        path@.take(trimmed as int) == without_trailing_separators(path@.take(end as int)),
{
    let mut trimmed: usize = end;
    while trimmed > 0 && path[trimmed - 1] == '/'
        invariant
            trimmed <= end <= path@.len(),
            without_trailing_separators(path@.take(trimmed as int)) == without_trailing_separators(
                path@.take(end as int),
            ),
        decreases trimmed,
    {
        assert(path@.take(trimmed as int).drop_last() =~= path@.take(trimmed - 1));
        trimmed -= 1;
    }
    trimmed
}

fn trim_name(path: &Vec<char>, end: usize) -> (trimmed: usize)
    requires
        end <= path@.len(),
    ensures
        trimmed <= end,
        path@.take(trimmed as int) == without_last_name(path@.take(end as int)),
{
    let mut trimmed: usize = end;
    while trimmed > 0 && path[trimmed - 1] != '/'
        invariant
            trimmed <= end <= path@.len(),
            without_last_name(path@.take(trimmed as int)) == without_last_name(path@.take(end as int)),
        decreases trimmed,
    {
        assert(path@.take(trimmed as int).drop_last() =~= path@.take(trimmed - 1));
        trimmed -= 1;
    }
    trimmed
}

fn first_chars(path: &Vec<char>, end: usize) -> (front: Vec<char>)
    requires
        end <= path@.len(),
    ensures
        front@ == path@.take(end as int),
{
    let mut front: Vec<char> = Vec::new();
    let mut i: usize = 0;
    while i < end
        invariant
            i <= end <= path@.len(),
            front@ == path@.take(i as int),
        decreases end - i,
    {
        front.push(path[i]);
        assert(path@.take(i + 1) =~= path@.take(i as int).push(path@[i as int]));
        i += 1;
    }
    front
}

impl GameManifest {
    /// Where the script lies, for a manifest that was read from the file at
    /// `manifest_path`.
    pub fn script_location(&self, manifest_path: &str) -> (location: String)
        ensures
            location@ == script_location(manifest_path@, self.script_path@),
    {
        let script = to_chars(self.script_path.as_str());
        if script.len() > 0 && script[0] == '/' {
            return self.script_path.clone();
        }
        let path = to_chars(manifest_path);
        assert(path@.take(path@.len() as int) =~= path@);
        let named = trim_separators(&path, path.len());
        if named == 0 {
            return self.script_path.clone();
        }
        let above = trim_name(&path, named);
        let folder = trim_separators(&path, above);
        let folder = if above > 0 && folder == 0 {
            assert(path@.take(1) =~= seq!['/']) by {
                assert(path@.take(above as int).last() == '/');
                assert(without_trailing_separators(path@.take(above as int)).len() == 0);
                lemma_only_separators(path@.take(above as int));
                assert(path@.take(above as int)[0] == path@[0]);
            }
            first_chars(&path, 1)
        } else {
            first_chars(&path, folder)
        };
        join_path(from_chars(&folder).as_str(), self.script_path.as_str())
    }

    /// Reads the manifest of a game integration from a document.
    pub fn parse(document: &Json) -> (r: Result<GameManifest, GameManifestError>)
        ensures
            match r {
                Ok(manifest) => game_manifest_of(*document) == Ok::<
                    GameManifestModel,
                    GameManifestFailure,
                >(manifest@),
                Err(e) => game_manifest_of(*document) == Err::<
                    GameManifestModel,
                    GameManifestFailure,
                >(e@),
            },
    {
        match document.get_str("manifest_version") {
            None => {
                return Err(GameManifestError::MissingVersion);
            },
            Some(version) => {
                if !same_text(version, "1") {
                    return Err(GameManifestError::UnknownManifestVersion(String::from_str(version)));
                }
            },
        }
        let game = match document.get("game") {
            Some(game) => game,
            None => {
                return Err(GameManifestError::MissingField(GameField::Game));
            },
        };
        let script = match document.get("script") {
            Some(script) => script,
            None => {
                return Err(GameManifestError::MissingField(GameField::Script));
            },
        };
        let script_path = match script.get_str("path") {
            Some(path) => String::from_str(path),
            None => {
                return Err(GameManifestError::MissingField(GameField::ScriptPath));
            },
        };
        let game_name = match game.get_str("name") {
            Some(name) => String::from_str(name),
            None => {
                return Err(GameManifestError::MissingField(GameField::GameName));
            },
        };
        let game_title = match game.get_str("title") {
            Some(title) => String::from_str(title),
            None => {
                return Err(GameManifestError::MissingField(GameField::GameTitle));
            },
        };
        let game_developer = match game.get_str("developer") {
            Some(developer) => String::from_str(developer),
            None => {
                return Err(GameManifestError::MissingField(GameField::GameDeveloper));
            },
        };
        let script_version = match script.get_str("version") {
            Some(version) => String::from_str(version),
            None => {
                return Err(GameManifestError::MissingField(GameField::ScriptVersion));
            },
        };
        let script_standard = match script.get_str("standard") {
            Some(name) => match IntegrationStandard::from_str(name) {
                Some(standard) => standard,
                None => {
                    return Err(GameManifestError::UnknownStandard(String::from_str(name)));
                },
            },
            None => {
                return Err(GameManifestError::MissingField(GameField::ScriptStandard));
            },
        };
        Ok(
            GameManifest {
                game_name,
                game_title,
                game_developer,
                script_path,
                script_version,
                script_standard,
            },
        )
    }

    /// Reads the manifest of a game integration from the bytes of its file.
    pub fn from_slice(bytes: &[u8]) -> (r: Result<GameManifest, GameManifestError>)
        ensures
            match r {
                Ok(manifest) => game_manifest_in(bytes@) == Ok::<GameManifestModel, GameManifestFailure>(manifest@),
                Err(e) => game_manifest_in(bytes@) == Err::<GameManifestModel, GameManifestFailure>(e@),
            },
    {
        match Json::from_slice(bytes) {
            None => Err(GameManifestError::InvalidJson),
            Some(document) => GameManifest::parse(&document),
        }
    }
}

} // verus!
