//! What comes back from a call into a script, and what it stands for.

use vstd::prelude::*;
use crate::common::json::Json;
use crate::games::integrations::standards::{
    AddonsGroupModel, Capability, DiffModel, DownloadModel, EditionModel, EntryPoint,
    LaunchOptionsModel, ValueError, addons_groups_among, diff_of, download_of, editions_among,
    launch_options_of,
};

verus! {

/// Why a game could not be loaded.
#[derive(Debug, PartialEq, Eq)]
pub enum LoadError {
    /// The interpreter could not be made as a script is to find it; the
    /// text is its message.
    Interpreter(String),
    /// A capability could not be defined in the interpreter.
    Capability(Capability, String),
    /// The script failed at top level; the text is the interpreter's
    /// message.
    Script(String),
}

/// A `LoadError`, with texts in place of strings.
pub ghost enum LoadFailure {
    Interpreter(Seq<char>),
    Capability(Capability, Seq<char>),
    Script(Seq<char>),
}

impl View for LoadError {
    type V = LoadFailure;

    open spec fn view(&self) -> LoadFailure {
        match self {
            LoadError::Interpreter(message) => LoadFailure::Interpreter(message@),
            LoadError::Capability(capability, message) => LoadFailure::Capability(
                *capability,
                message@,
            ),
            LoadError::Script(message) => LoadFailure::Script(message@),
        }
    }
}

/// What came of preparing an interpreter for a script: of making it with
/// the libraries that a script may use, of taking out of it the functions
/// that a script may not use, of defining the capabilities in it, one after
/// the other, and of running the script at top level after all that.
#[derive(Debug, PartialEq, Eq)]
pub enum Setup {
    /// The interpreter could not be made, or refused to give up a function;
    /// the text is its message.  Nothing was tried after that.
    Unprepared(String),
    /// The interpreter refused to define this capability; the text is its
    /// message.  Nothing was tried after that.
    Refused(Capability, String),
    /// Every capability was defined and the script failed at top level; the
    /// text is the interpreter's message.
    Failed(String),
    /// Every capability was defined and the script ran to its end.
    Ready,
}

/// The failure that a setup stands for, if it stands for one.
pub open spec fn setup_failure(setup: Setup) -> Option<LoadFailure> {
    match setup {
        Setup::Unprepared(message) => Some(LoadFailure::Interpreter(message@)),
        Setup::Refused(capability, message) => Some(LoadFailure::Capability(capability, message@)),
        Setup::Failed(message) => Some(LoadFailure::Script(message@)),
        Setup::Ready => None,
    }
}

/// Whether a script defines an entry point, told from what came of looking
/// its name up among the globals: the truth value that came back, or the
/// failure to look at all, with the interpreter's message.
pub open spec fn defined_in(entry: EntryPoint, found: Result<bool, String>) -> Result<
    bool,
    QueryFailure,
> {
    match found {
        Ok(defined) => Ok(defined),
        Err(message) => Err(QueryFailure::ScriptFailed(entry, message@)),
    }
}

/// Why a question to a script has no answer.
#[derive(Debug, PartialEq, Eq)]
pub enum QueryError {
    /// The script does not define the function.
    MissingEntryPoint(EntryPoint),
    /// The script raised an error; the text is the interpreter's message.
    ScriptFailed(EntryPoint, String),
    /// The script returned something else than the entry point is to
    /// return.
    InvalidValue(EntryPoint, ValueError),
}

/// A `QueryError`, with texts in place of strings.
pub ghost enum QueryFailure {
    MissingEntryPoint(EntryPoint),
    ScriptFailed(EntryPoint, Seq<char>),
    InvalidValue(EntryPoint, ValueError),
}

impl View for QueryError {
    type V = QueryFailure;

    open spec fn view(&self) -> QueryFailure {
        match self {
            QueryError::MissingEntryPoint(entry) => QueryFailure::MissingEntryPoint(*entry),
            QueryError::ScriptFailed(entry, message) => QueryFailure::ScriptFailed(*entry, message@),
            QueryError::InvalidValue(entry, error) => QueryFailure::InvalidValue(*entry, *error),
        }
    }
}

impl QueryFailure {
    /// The entry point that the failure is about.
    pub open spec fn entry(self) -> EntryPoint {
        match self {
            QueryFailure::MissingEntryPoint(entry) => entry,
            QueryFailure::ScriptFailed(entry, _) => entry,
            QueryFailure::InvalidValue(entry, _) => entry,
        }
    }
}

/// What came of calling a function of a script.
#[derive(Debug, PartialEq, Eq)]
pub enum Reply {
    /// The script does not define the function.
    Missing,
    /// The script raised an error.
    Failed(String),
    /// The function returned; the value in its plain form, and nothing
    /// where it has none.
    Returned(Option<Json>),
}

/// What came of calling a function of a script that is to return a list.
#[derive(Debug, PartialEq, Eq)]
pub enum ListReply {
    /// The script does not define the function.
    Missing,
    /// The script raised an error.
    Failed(String),
    /// The function returned something else than a table.
    NotList,
    /// The function returned a table; the values at its places 1, 2 and so
    /// on, each in its plain form, and nothing where it has none.
    Items(Vec<Option<Json>>),
}

/// The failure that a reply stands for, if it stands for one.
pub open spec fn reply_failure(entry: EntryPoint, reply: Reply) -> Option<QueryFailure> {
    match reply {
        Reply::Missing => Some(QueryFailure::MissingEntryPoint(entry)),
        Reply::Failed(message) => Some(QueryFailure::ScriptFailed(entry, message@)),
        Reply::Returned(None) => Some(QueryFailure::InvalidValue(entry, ValueError::NotPlain)),
        Reply::Returned(Some(_)) => None,
    }
}

/// The text that a reply holds: the returned value must be a string.
pub open spec fn text_in(entry: EntryPoint, reply: Reply) -> Result<Seq<char>, QueryFailure> {
    match reply {
        Reply::Returned(Some(value)) => match value.text() {
            Some(text) => Ok(text),
            None => Err(QueryFailure::InvalidValue(entry, ValueError::NotText)),
        },
        _ => Err(reply_failure(entry, reply).unwrap()),
    }
}

/// The truth value that a reply holds, read as a script reads one: nil and
/// false are false, and every other value is true, whatever it is.
pub open spec fn truth_in(entry: EntryPoint, reply: Reply) -> Result<bool, QueryFailure> {
    match reply {
        Reply::Missing => Err(QueryFailure::MissingEntryPoint(entry)),
        Reply::Failed(message) => Err(QueryFailure::ScriptFailed(entry, message@)),
        Reply::Returned(Some(Json::Null)) => Ok(false),
        Reply::Returned(Some(Json::Bool(truth))) => Ok(truth),
        Reply::Returned(_) => Ok(true),
    }
}

/// The reply that a returned value makes.  `plain` is its plain form, and
/// `nil` says whether the value is nil.  Only nil reads as null: a value
/// that is not nil and has null for its plain form, as a function has, is a
/// value without plain form.
pub open spec fn returned(plain: Option<Json>, nil: bool) -> Reply {
    match plain {
        Some(Json::Null) => if nil {
            Reply::Returned(plain)
        } else {
            Reply::Returned(None)
        },
        _ => Reply::Returned(plain),
    }
}

/// The optional text that a reply holds: nil for none, a string for some.
pub open spec fn optional_text_in(entry: EntryPoint, reply: Reply) -> Result<
    Option<Seq<char>>,
    QueryFailure,
> {
    match reply {
        Reply::Returned(Some(Json::Null)) => Ok(None),
        Reply::Returned(Some(value)) => match value.text() {
            Some(text) => Ok(Some(text)),
            None => Err(QueryFailure::InvalidValue(entry, ValueError::NotText)),
        },
        _ => Err(reply_failure(entry, reply).unwrap()),
    }
}

/// The download that a reply holds.
pub open spec fn download_in(entry: EntryPoint, reply: Reply) -> Result<DownloadModel, QueryFailure> {
    match reply {
        Reply::Returned(Some(value)) => match download_of(value) {
            Ok(download) => Ok(download),
            Err(e) => Err(QueryFailure::InvalidValue(entry, e)),
        },
        _ => Err(reply_failure(entry, reply).unwrap()),
    }
}

/// The optional diff that a reply holds: nil where the game is up to date.
pub open spec fn optional_diff_in(entry: EntryPoint, reply: Reply) -> Result<
    Option<DiffModel>,
    QueryFailure,
> {
    match reply {
        Reply::Returned(Some(Json::Null)) => Ok(None),
        Reply::Returned(Some(value)) => match diff_of(value) {
            Ok(diff) => Ok(Some(diff)),
            Err(e) => Err(QueryFailure::InvalidValue(entry, e)),
        },
        _ => Err(reply_failure(entry, reply).unwrap()),
    }
}

/// The launch options that a reply holds.
pub open spec fn launch_options_in(entry: EntryPoint, reply: Reply) -> Result<
    LaunchOptionsModel,
    QueryFailure,
> {
    match reply {
        Reply::Returned(Some(value)) => match launch_options_of(value) {
            Ok(options) => Ok(options),
            Err(e) => Err(QueryFailure::InvalidValue(entry, e)),
        },
        _ => Err(reply_failure(entry, reply).unwrap()),
    }
}

/// Whether a reply reports that a hook ran: the function must be there and
/// must not fail; what it returns is not looked at.
pub open spec fn done_in(entry: EntryPoint, reply: Reply) -> Result<(), QueryFailure> {
    match reply {
        Reply::Missing => Err(QueryFailure::MissingEntryPoint(entry)),
        Reply::Failed(message) => Err(QueryFailure::ScriptFailed(entry, message@)),
        Reply::Returned(_) => Ok(()),
    }
}

/// The failure that a list reply stands for, if it stands for one.
pub open spec fn list_failure(entry: EntryPoint, reply: ListReply) -> Option<QueryFailure> {
    match reply {
        ListReply::Missing => Some(QueryFailure::MissingEntryPoint(entry)),
        ListReply::Failed(message) => Some(QueryFailure::ScriptFailed(entry, message@)),
        ListReply::NotList => Some(QueryFailure::InvalidValue(entry, ValueError::NotList)),
        ListReply::Items(_) => None,
    }
}

/// The editions that a list reply holds: of the items of the list, those
/// that describe an edition.
pub open spec fn editions_reply(entry: EntryPoint, reply: ListReply) -> Result<
    Seq<EditionModel>,
    QueryFailure,
> {
    match reply {
        ListReply::Items(items) => Ok(editions_among(items@)),
        _ => Err(list_failure(entry, reply).unwrap()),
    }
}

/// The groups of addons that a list reply holds.
pub open spec fn addons_reply(entry: EntryPoint, reply: ListReply) -> Result<
    Seq<AddonsGroupModel>,
    QueryFailure,
> {
    match reply {
        ListReply::Items(items) => Ok(addons_groups_among(items@)),
        _ => Err(list_failure(entry, reply).unwrap()),
    }
}

} // verus!
