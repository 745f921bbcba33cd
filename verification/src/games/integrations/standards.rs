//! The standard of integrations: names, values and their shapes.

use vstd::prelude::*;
use crate::common::json::Json;
use crate::common::text::same_text;

verus! {

/// The versions of the contract between the runtime and a script.
#[derive(Clone, Copy, Debug, PartialEq, Eq, Structural)]
pub enum IntegrationStandard {
    V1,
}

/// The functions that a script defines for the runtime to call.
#[derive(Clone, Copy, Debug, PartialEq, Eq, Structural)]
pub enum EntryPoint {
    VisualGetCardPicture,
    VisualGetBackgroundPicture,
    GameGetEditionsList,
    GameIsInstalled,
    GameGetVersion,
    GameGetDownload,
    GameGetDiff,
    GameGetLaunchOptions,
    AddonsGetList,
    AddonsGetInfo,
    AddonsGetDownload,
    GameDiffTransition,
    GameDiffPostTransition,
    DlcDiffTransition,
    DlcDiffPostTransition,
}

/// The functions that the runtime defines for a script to call.
#[derive(Clone, Copy, Debug, PartialEq, Eq, Structural)]
pub enum Capability {
    /// Fetches an address and gives the body of the response as text.
    NetworkHttpGet,
    /// Decodes JSON text into a value of the script's own kind.
    JsonDecode,
}

/// The libraries of the interpreter that a script may use.  The libraries
/// that reach files, processes, modules or the interpreter's own workings
/// are not among them.
#[derive(Clone, Copy, Debug, PartialEq, Eq, Structural)]
pub enum Library {
    Coroutine,
    Table,
    Text,
    Utf8,
    Math,
}

/// The step at which a value that a script returned was found wanting.
#[derive(Clone, Copy, Debug, PartialEq, Eq, Structural)]
pub enum ValueError {
    /// The value cannot be taken out of the interpreter as plain data.
    NotPlain,
    /// A string was expected.
    NotText,
    /// A list was expected.
    NotList,
    MissingName,
    MissingTitle,
    MissingVersion,
    MissingEdition,
    MissingUri,
    MissingSize,
    MissingCurrentVersion,
    MissingLatestVersion,
    MissingStatus,
    UnknownStatus,
    MissingExecutable,
    InvalidOptions,
    InvalidAddons,
}

/// The standard that a manifest names: `1` names the first.
pub open spec fn named_standard(name: Seq<char>) -> Option<IntegrationStandard> {
    if name == "1"@ {
        Some(IntegrationStandard::V1)
    } else {
        None
    }
}

impl IntegrationStandard {
    /// The standard of that name, if there is one.
    pub fn from_str(name: &str) -> (standard: Option<IntegrationStandard>)
        ensures
            standard == named_standard(name@),
    {
        if same_text(name, "1") {
            Some(IntegrationStandard::V1)
        } else {
            None
        }
    }
}

/// The name of the global function that a script defines for an entry point.
pub open spec fn entry_point_text(standard: IntegrationStandard, entry: EntryPoint) -> Seq<char> {
    match standard {
        IntegrationStandard::V1 => match entry {
            EntryPoint::VisualGetCardPicture => "v1_visual_get_card_picture"@,
            EntryPoint::VisualGetBackgroundPicture => "v1_visual_get_background_picture"@,
            EntryPoint::GameGetEditionsList => "v1_game_get_editions_list"@,
            EntryPoint::GameIsInstalled => "v1_game_is_installed"@,
            EntryPoint::GameGetVersion => "v1_game_get_version"@,
            EntryPoint::GameGetDownload => "v1_game_get_download"@,
            EntryPoint::GameGetDiff => "v1_game_get_diff"@,
            EntryPoint::GameGetLaunchOptions => "v1_game_get_launch_options"@,
            EntryPoint::AddonsGetList => "v1_addons_get_list"@,
            EntryPoint::AddonsGetInfo => "v1_addons_get_info"@,
            EntryPoint::AddonsGetDownload => "v1_addons_get_download"@,
            EntryPoint::GameDiffTransition => "v1_game_diff_transition"@,
            EntryPoint::GameDiffPostTransition => "v1_game_diff_post_transition"@,
            EntryPoint::DlcDiffTransition => "v1_dlc_diff_transition"@,
            EntryPoint::DlcDiffPostTransition => "v1_dlc_diff_post_transition"@,
        },
    }
}

/// The name of the global function that the runtime defines for a capability.
pub open spec fn capability_text(standard: IntegrationStandard, capability: Capability) -> Seq<char> {
    match standard {
        IntegrationStandard::V1 => match capability {
            Capability::NetworkHttpGet => "v1_network_http_get"@,
            Capability::JsonDecode => "v1_json_decode"@,
        },
    }
}

/// The libraries that a script of a standard finds in its interpreter,
/// beside the base library.
pub open spec fn libraries_of(standard: IntegrationStandard) -> Seq<Library> {
    match standard {
        IntegrationStandard::V1 => seq![
            Library::Coroutine,
            Library::Table,
            Library::Text,
            Library::Utf8,
            Library::Math,
        ],
    }
}

/// The functions of the base library that a script of a standard does not
/// find in its interpreter: those that read files.
pub open spec fn withheld_of(standard: IntegrationStandard) -> Seq<Seq<char>> {
    match standard {
        IntegrationStandard::V1 => seq!["dofile"@, "loadfile"@],
    }
}

/// The libraries that a script of a standard finds in its interpreter,
/// beside the base library.
pub fn script_libraries(standard: IntegrationStandard) -> (libraries: Vec<Library>)
    ensures
        libraries@ == libraries_of(standard),
{
    match standard {
        IntegrationStandard::V1 => {
            let mut libraries: Vec<Library> = Vec::new();
            libraries.push(Library::Coroutine);
            libraries.push(Library::Table);
            libraries.push(Library::Text);
            libraries.push(Library::Utf8);
            libraries.push(Library::Math);
            assert(libraries@ =~= libraries_of(standard));
            libraries
        },
    }
}

/// The functions of the base library that are taken out of the interpreter
/// of a script of a standard.
pub fn withheld_globals(standard: IntegrationStandard) -> (names: Vec<&'static str>)
    ensures
        names@.len() == withheld_of(standard).len(),
        forall|i: int| 0 <= i < names@.len() ==> (#[trigger] names@[i])@ == withheld_of(standard)[i],
{
    match standard {
        IntegrationStandard::V1 => {
            let mut names: Vec<&'static str> = Vec::new();
            names.push("dofile");
            names.push("loadfile");
            names
        },
    }
}

/// The name of the global function that a script defines for an entry point.
pub fn entry_point_name(standard: IntegrationStandard, entry: EntryPoint) -> (name: &'static str)
    ensures
        name@ == entry_point_text(standard, entry),
{
    match standard {
        IntegrationStandard::V1 => match entry {
            EntryPoint::VisualGetCardPicture => "v1_visual_get_card_picture",
            EntryPoint::VisualGetBackgroundPicture => "v1_visual_get_background_picture",
            EntryPoint::GameGetEditionsList => "v1_game_get_editions_list",
            EntryPoint::GameIsInstalled => "v1_game_is_installed",
            EntryPoint::GameGetVersion => "v1_game_get_version",
            EntryPoint::GameGetDownload => "v1_game_get_download",
            EntryPoint::GameGetDiff => "v1_game_get_diff",
            EntryPoint::GameGetLaunchOptions => "v1_game_get_launch_options",
            EntryPoint::AddonsGetList => "v1_addons_get_list",
            EntryPoint::AddonsGetInfo => "v1_addons_get_info",
            EntryPoint::AddonsGetDownload => "v1_addons_get_download",
            EntryPoint::GameDiffTransition => "v1_game_diff_transition",
            EntryPoint::GameDiffPostTransition => "v1_game_diff_post_transition",
            EntryPoint::DlcDiffTransition => "v1_dlc_diff_transition",
            EntryPoint::DlcDiffPostTransition => "v1_dlc_diff_post_transition",
        },
    }
}

/// The name of the global function that the runtime defines for a capability.
pub fn capability_name(standard: IntegrationStandard, capability: Capability) -> (name:
    &'static str)
    ensures
        name@ == capability_text(standard, capability),
{
    match standard {
        IntegrationStandard::V1 => match capability {
            Capability::NetworkHttpGet => "v1_network_http_get",
            Capability::JsonDecode => "v1_json_decode",
        },
    }
}

/// An edition of a game.
#[derive(Debug, PartialEq, Eq)]
pub struct Edition {
    pub name: String,
    pub title: String,
}

/// Where a version of a game or an addon can be had.
#[derive(Debug, PartialEq, Eq)]
pub struct Download {
    pub version: String,
    pub edition: String,
    pub uri: String,
    pub size: u64,
}

/// How an installed game stands against the latest version.
#[derive(Clone, Copy, Debug, PartialEq, Eq, Structural)]
pub enum DiffStatus {
    Latest,
    Outdated,
    Unavailable,
}

/// What separates an installed game from the latest version.
#[derive(Debug, PartialEq, Eq)]
pub struct Diff {
    pub current_version: String,
    pub latest_version: String,
    pub edition: String,
    pub status: DiffStatus,
}

/// How to start a game.
#[derive(Debug, PartialEq, Eq)]
pub struct LaunchOptions {
    pub executable: String,
    pub options: Vec<String>,
}

/// An addon of a game.
#[derive(Debug, PartialEq, Eq)]
pub struct Addon {
    pub name: String,
    pub title: String,
    pub required: bool,
}

/// A group of addons.
#[derive(Debug, PartialEq, Eq)]
pub struct AddonsGroup {
    pub name: String,
    pub title: String,
    pub addons: Vec<Addon>,
}

/// An edition, with texts in place of strings.
pub ghost struct EditionModel {
    pub name: Seq<char>,
    pub title: Seq<char>,
}

/// A download, with texts in place of strings.
pub ghost struct DownloadModel {
    pub version: Seq<char>,
    pub edition: Seq<char>,
    pub uri: Seq<char>,
    pub size: u64,
}

/// A diff, with texts in place of strings.
pub ghost struct DiffModel {
    pub current_version: Seq<char>,
    pub latest_version: Seq<char>,
    pub edition: Seq<char>,
    pub status: DiffStatus,
}

/// Launch options, with texts in place of strings.
pub ghost struct LaunchOptionsModel {
    pub executable: Seq<char>,
    pub options: Seq<Seq<char>>,
}

/// An addon, with texts in place of strings.
pub ghost struct AddonModel {
    pub name: Seq<char>,
    pub title: Seq<char>,
    pub required: bool,
}

/// A group of addons, with texts in place of strings.
pub ghost struct AddonsGroupModel {
    pub name: Seq<char>,
    pub title: Seq<char>,
    pub addons: Seq<AddonModel>,
}

impl View for Edition {
    type V = EditionModel;

    open spec fn view(&self) -> EditionModel {
        EditionModel { name: self.name@, title: self.title@ }
    }
}

impl View for Download {
    type V = DownloadModel;

    open spec fn view(&self) -> DownloadModel {
        DownloadModel {
            version: self.version@,
            edition: self.edition@,
            uri: self.uri@,
            size: self.size,
        }
    }
}

impl View for Diff {
    type V = DiffModel;

    open spec fn view(&self) -> DiffModel {
        DiffModel {
            current_version: self.current_version@,
            latest_version: self.latest_version@,
            edition: self.edition@,
            status: self.status,
        }
    }
}

impl View for LaunchOptions {
    type V = LaunchOptionsModel;

    open spec fn view(&self) -> LaunchOptionsModel {
        LaunchOptionsModel {
            executable: self.executable@,
            options: Seq::new(self.options@.len(), |i: int| self.options@[i]@),
        }
    }
}

impl View for Addon {
    type V = AddonModel;

    open spec fn view(&self) -> AddonModel {
        AddonModel { name: self.name@, title: self.title@, required: self.required }
    }
}

impl View for AddonsGroup {
    type V = AddonsGroupModel;

    open spec fn view(&self) -> AddonsGroupModel {
        AddonsGroupModel {
            name: self.name@,
            title: self.title@,
            addons: Seq::new(self.addons@.len(), |i: int| self.addons@[i]@),
        }
    }
}

/// The edition that a value describes: an object with the strings `name`
/// and `title`.
pub open spec fn edition_of(value: Json) -> Result<EditionModel, ValueError> {
    match value.text_field("name"@) {
        None => Err(ValueError::MissingName),
        Some(name) => match value.text_field("title"@) {
            None => Err(ValueError::MissingTitle),
            Some(title) => Ok(EditionModel { name, title }),
        },
    }
}

/// The number in member `key` of a value.
pub open spec fn unsigned_field(value: Json, key: Seq<char>) -> Option<u64> {
    match value.field(key) {
        Some(number) => number.unsigned(),
        None => None,
    }
}

/// The download that a value describes: an object with the strings
/// `version`, `edition` and `uri` and the number `size`.
pub open spec fn download_of(value: Json) -> Result<DownloadModel, ValueError> {
    match value.text_field("version"@) {
        None => Err(ValueError::MissingVersion),
        Some(version) => match value.text_field("edition"@) {
            None => Err(ValueError::MissingEdition),
            Some(edition) => match value.text_field("uri"@) {
                None => Err(ValueError::MissingUri),
                Some(uri) => match unsigned_field(value, "size"@) {
                    None => Err(ValueError::MissingSize),
                    Some(size) => Ok(DownloadModel { version, edition, uri, size }),
                },
            },
        },
    }
}

/// The status that a name names.
pub open spec fn named_status(name: Seq<char>) -> Option<DiffStatus> {
    if name == "latest"@ {
        Some(DiffStatus::Latest)
    } else if name == "outdated"@ {
        Some(DiffStatus::Outdated)
    } else if name == "unavailable"@ {
        Some(DiffStatus::Unavailable)
    } else {
        None
    }
}

/// The diff that a value describes: an object with the strings
/// `current_version`, `latest_version`, `edition` and `status`, the last
/// naming a status.
pub open spec fn diff_of(value: Json) -> Result<DiffModel, ValueError> {
    match value.text_field("current_version"@) {
        None => Err(ValueError::MissingCurrentVersion),
        Some(current_version) => match value.text_field("latest_version"@) {
            None => Err(ValueError::MissingLatestVersion),
            Some(latest_version) => match value.text_field("edition"@) {
                None => Err(ValueError::MissingEdition),
                Some(edition) => match value.text_field("status"@) {
                    None => Err(ValueError::MissingStatus),
                    Some(status) => match named_status(status) {
                        None => Err(ValueError::UnknownStatus),
                        Some(status) => Ok(
                            DiffModel { current_version, latest_version, edition, status },
                        ),
                    },
                },
            },
        },
    }
}

/// The texts of a list of items, if every item is a string.
pub open spec fn all_texts(items: Seq<Json>) -> Option<Seq<Seq<char>>>
    decreases items.len(),
{
    if items.len() == 0 {
        Some(Seq::empty())
    } else {
        match all_texts(items.drop_last()) {
            None => None,
            Some(before) => match items.last().text() {
                None => None,
                Some(text) => Some(before.push(text)),
            },
        }
    }
}

/// The items of a list that a script returned inside a value.  A script's
/// empty table has no kind; it arrives as an object without members and
/// stands for the empty list.
pub open spec fn list_items(value: Json) -> Option<Seq<Json>> {
    match value {
        Json::Array(items) => Some(items@),
        Json::Object(members) => if members@.len() == 0 {
            Some(Seq::empty())
        } else {
            None
        },
        _ => None,
    }
}

/// The options in member `options` of a value: none where the member is
/// absent, the strings of the list where it is a list of strings.
pub open spec fn options_of(value: Json) -> Option<Seq<Seq<char>>> {
    match value.field("options"@) {
        None => Some(Seq::empty()),
        Some(list) => match list_items(list) {
            None => None,
            Some(items) => all_texts(items),
        },
    }
}

/// The launch options that a value describes: an object with the string
/// `executable` and, if it has the member `options`, a list of strings
/// there.
pub open spec fn launch_options_of(value: Json) -> Result<LaunchOptionsModel, ValueError> {
    match value.text_field("executable"@) {
        None => Err(ValueError::MissingExecutable),
        Some(executable) => match options_of(value) {
            None => Err(ValueError::InvalidOptions),
            Some(options) => Ok(LaunchOptionsModel { executable, options }),
        },
    }
}

/// The addon that a value describes: an object with the strings `name` and
/// `title`; it is required where the member `required` is the boolean true.
pub open spec fn addon_of(value: Json) -> Option<AddonModel> {
    match value.text_field("name"@) {
        None => None,
        Some(name) => match value.text_field("title"@) {
            None => None,
            Some(title) => Some(
                AddonModel {
                    name,
                    title,
                    required: match value.field("required"@) {
                        Some(flag) => flag.truth() == Some(true),
                        None => false,
                    },
                },
            ),
        },
    }
}

/// The addons that a list of values describes, if every value describes one.
pub open spec fn all_addons(items: Seq<Json>) -> Option<Seq<AddonModel>>
    decreases items.len(),
{
    if items.len() == 0 {
        Some(Seq::empty())
    } else {
        match all_addons(items.drop_last()) {
            None => None,
            Some(before) => match addon_of(items.last()) {
                None => None,
                Some(addon) => Some(before.push(addon)),
            },
        }
    }
}

/// The addons in member `addons` of a value.
pub open spec fn addons_of(value: Json) -> Option<Seq<AddonModel>> {
    match value.field("addons"@) {
        None => None,
        Some(list) => match list_items(list) {
            None => None,
            Some(items) => all_addons(items),
        },
    }
}

/// The group of addons that a value describes: an object with the strings
/// `name` and `title` and the list `addons`, every item of which describes
/// an addon.
pub open spec fn addons_group_of(value: Json) -> Result<AddonsGroupModel, ValueError> {
    match value.text_field("name"@) {
        None => Err(ValueError::MissingName),
        Some(name) => match value.text_field("title"@) {
            None => Err(ValueError::MissingTitle),
            Some(title) => match addons_of(value) {
                None => Err(ValueError::InvalidAddons),
                Some(addons) => Ok(AddonsGroupModel { name, title, addons }),
            },
        },
    }
}

/// The editions among the items of a list that a script returned, in their
/// order.  An item that has no plain form, or describes no edition, is left
/// out.
pub open spec fn editions_among(items: Seq<Option<Json>>) -> Seq<EditionModel>
    decreases items.len(),
{
    if items.len() == 0 {
        Seq::empty()
    } else {
        match items.last() {
            Some(value) => match edition_of(value) {
                Ok(edition) => editions_among(items.drop_last()).push(edition),
                Err(_) => editions_among(items.drop_last()),
            },
            None => editions_among(items.drop_last()),
        }
    }
}

/// The groups of addons among the items of a list that a script returned,
/// in their order, with the others left out.
pub open spec fn addons_groups_among(items: Seq<Option<Json>>) -> Seq<AddonsGroupModel>
    decreases items.len(),
{
    if items.len() == 0 {
        Seq::empty()
    } else {
        match items.last() {
            Some(value) => match addons_group_of(value) {
                Ok(group) => addons_groups_among(items.drop_last()).push(group),
                Err(_) => addons_groups_among(items.drop_last()),
            },
            None => addons_groups_among(items.drop_last()),
        }
    }
}

/// The editions of a list, each as its model.
pub open spec fn edition_models(editions: Seq<Edition>) -> Seq<EditionModel> {
    Seq::new(editions.len(), |i: int| editions[i]@)
}

/// The groups of a list, each as its model.
pub open spec fn addons_group_models(groups: Seq<AddonsGroup>) -> Seq<AddonsGroupModel> {
    Seq::new(groups.len(), |i: int| groups[i]@)
}

} // verus!
