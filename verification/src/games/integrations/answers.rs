//! From what a script replied to the answer of a question.

use vstd::prelude::*;
use crate::common::json::Json;
use crate::games::integrations::replies::{
    ListReply, QueryError, QueryFailure, Reply, addons_reply, defined_in, done_in, download_in,
    editions_reply, launch_options_in, optional_diff_in, optional_text_in, returned, text_in,
    truth_in,
};
use crate::games::integrations::standards::{
    AddonsGroup, AddonsGroupModel, Diff, DiffModel, Download, DownloadModel, Edition, EditionModel,
    EntryPoint, IntegrationStandard, LaunchOptions, LaunchOptionsModel, ValueError,
    addons_group_models, edition_models,
};
use crate::games::integrations::values::{addons_groups_in, editions_in};
use crate::packages::manifest::text_of;

verus! {

/// `answer` is what `text_answer` makes of `reply`.
pub open spec fn is_text_answer(entry: EntryPoint, reply: Reply, answer: Result<String, QueryError>) -> bool {
    match answer {
        Ok(text) => text_in(entry, reply) == Ok::<Seq<char>, QueryFailure>(text@),
        Err(e) => text_in(entry, reply) == Err::<Seq<char>, QueryFailure>(e@),
    }
}

/// `answer` is what `truth_answer` makes of `reply`.
pub open spec fn is_truth_answer(entry: EntryPoint, reply: Reply, answer: Result<bool, QueryError>) -> bool {
    match answer {
        Ok(truth) => truth_in(entry, reply) == Ok::<bool, QueryFailure>(truth),
        Err(e) => truth_in(entry, reply) == Err::<bool, QueryFailure>(e@),
    }
}

/// `answer` is what `optional_text_answer` makes of `reply`.
pub open spec fn is_optional_text_answer(
    entry: EntryPoint,
    reply: Reply,
    answer: Result<Option<String>, QueryError>,
) -> bool {
    match answer {
        Ok(text) => optional_text_in(entry, reply) == Ok::<Option<Seq<char>>, QueryFailure>(
            text_of(text),
        ),
        Err(e) => optional_text_in(entry, reply) == Err::<Option<Seq<char>>, QueryFailure>(e@),
    }
}

/// `answer` is what `download_answer` makes of `reply`.
pub open spec fn is_download_answer(
    entry: EntryPoint,
    reply: Reply,
    answer: Result<Download, QueryError>,
) -> bool {
    match answer {
        Ok(download) => download_in(entry, reply) == Ok::<DownloadModel, QueryFailure>(download@),
        Err(e) => download_in(entry, reply) == Err::<DownloadModel, QueryFailure>(e@),
    }
}

/// The model of an optional diff.
pub open spec fn diff_model(diff: Option<Diff>) -> Option<DiffModel> {
    match diff {
        Some(diff) => Some(diff@),
        None => None,
    }
}

/// `answer` is what `optional_diff_answer` makes of `reply`.
pub open spec fn is_optional_diff_answer(
    entry: EntryPoint,
    reply: Reply,
    answer: Result<Option<Diff>, QueryError>,
) -> bool {
    match answer {
        Ok(diff) => optional_diff_in(entry, reply) == Ok::<Option<DiffModel>, QueryFailure>(
            diff_model(diff),
        ),
        Err(e) => optional_diff_in(entry, reply) == Err::<Option<DiffModel>, QueryFailure>(e@),
    }
}

/// `answer` is what `launch_options_answer` makes of `reply`.
pub open spec fn is_launch_options_answer(
    entry: EntryPoint,
    reply: Reply,
    answer: Result<LaunchOptions, QueryError>,
) -> bool {
    match answer {
        Ok(options) => launch_options_in(entry, reply) == Ok::<LaunchOptionsModel, QueryFailure>(
            options@,
        ),
        Err(e) => launch_options_in(entry, reply) == Err::<LaunchOptionsModel, QueryFailure>(e@),
    }
}

/// `answer` is what `done_answer` makes of `reply`.
pub open spec fn is_done_answer(entry: EntryPoint, reply: Reply, answer: Result<(), QueryError>) -> bool {
    match answer {
        Ok(()) => done_in(entry, reply) == Ok::<(), QueryFailure>(()),
        Err(e) => done_in(entry, reply) == Err::<(), QueryFailure>(e@),
    }
}

/// `answer` is what `editions_answer` makes of `reply`.
pub open spec fn is_editions_answer(
    entry: EntryPoint,
    reply: ListReply,
    answer: Result<Vec<Edition>, QueryError>,
) -> bool {
    match answer {
        Ok(editions) => editions_reply(entry, reply) == Ok::<Seq<EditionModel>, QueryFailure>(
            edition_models(editions@),
        ),
        Err(e) => editions_reply(entry, reply) == Err::<Seq<EditionModel>, QueryFailure>(e@),
    }
}

/// `answer` is what `addons_answer` makes of `reply`.
pub open spec fn is_addons_answer(
    entry: EntryPoint,
    reply: ListReply,
    answer: Result<Vec<AddonsGroup>, QueryError>,
) -> bool {
    match answer {
        Ok(groups) => addons_reply(entry, reply) == Ok::<Seq<AddonsGroupModel>, QueryFailure>(
            addons_group_models(groups@),
        ),
        Err(e) => addons_reply(entry, reply) == Err::<Seq<AddonsGroupModel>, QueryFailure>(e@),
    }
}

/// `answer` is what `defined_answer` makes of `found`.
pub open spec fn is_defined_answer(
    entry: EntryPoint,
    found: Result<bool, String>,
    answer: Result<bool, QueryError>,
) -> bool {
    match answer {
        Ok(defined) => defined_in(entry, found) == Ok::<bool, QueryFailure>(defined),
        Err(e) => defined_in(entry, found) == Err::<bool, QueryFailure>(e@),
    }
}

/// Whether a script defines an entry point, from what came of looking its
/// name up among the globals.  A global that is there counts, whatever it
/// holds; a lookup that the interpreter refused is an error of the script.
pub fn defined_answer(entry: EntryPoint, found: Result<bool, String>) -> (answer: Result<
    bool,
    QueryError,
>)
    ensures
        is_defined_answer(entry, found, answer),
{
    match found {
        Ok(defined) => Ok(defined),
        Err(message) => Err(QueryError::ScriptFailed(entry, message)),
    }
}

/// The text that a script returned.
pub fn text_answer(entry: EntryPoint, reply: Reply) -> (answer: Result<String, QueryError>)
    ensures
        is_text_answer(entry, reply, answer),
{
    match reply {
        Reply::Missing => Err(QueryError::MissingEntryPoint(entry)),
        Reply::Failed(message) => Err(QueryError::ScriptFailed(entry, message)),
        Reply::Returned(None) => Err(QueryError::InvalidValue(entry, ValueError::NotPlain)),
        Reply::Returned(Some(value)) => match value.as_str() {
            Some(text) => Ok(String::from_str(text)),
            None => Err(QueryError::InvalidValue(entry, ValueError::NotText)),
        },
    }
}

/// The truth value that a script returned, read as a script reads one: nil
/// and false are false, every other value is true.
pub fn truth_answer(entry: EntryPoint, reply: Reply) -> (answer: Result<bool, QueryError>)
    ensures
        is_truth_answer(entry, reply, answer),
{
    match reply {
        Reply::Missing => Err(QueryError::MissingEntryPoint(entry)),
        Reply::Failed(message) => Err(QueryError::ScriptFailed(entry, message)),
        Reply::Returned(Some(Json::Null)) => Ok(false),
        Reply::Returned(Some(Json::Bool(truth))) => Ok(truth),
        Reply::Returned(_) => Ok(true),
    }
}

/// The reply that a returned value makes, from its plain form and from
/// whether it is nil.
pub fn reply_of_value(plain: Option<Json>, nil: bool) -> (reply: Reply)
    ensures
        reply == returned(plain, nil),
{
    match plain {
        Some(Json::Null) => {
            if nil {
                Reply::Returned(Some(Json::Null))
            } else {
                Reply::Returned(None)
            }
        },
        other => Reply::Returned(other),
    }
}

/// The optional text that a script returned: nil stands for none.
pub fn optional_text_answer(entry: EntryPoint, reply: Reply) -> (answer: Result<
    Option<String>,
    QueryError,
>)
    ensures
        is_optional_text_answer(entry, reply, answer),
{
    match reply {
        Reply::Missing => Err(QueryError::MissingEntryPoint(entry)),
        Reply::Failed(message) => Err(QueryError::ScriptFailed(entry, message)),
        Reply::Returned(None) => Err(QueryError::InvalidValue(entry, ValueError::NotPlain)),
        Reply::Returned(Some(value)) => match &value {
            Json::Null => Ok(None),
            _ => match value.as_str() {
                Some(text) => Ok(Some(String::from_str(text))),
                None => Err(QueryError::InvalidValue(entry, ValueError::NotText)),
            },
        },
    }
}

/// The download that a script returned.  Every field is checked.
pub fn download_answer(entry: EntryPoint, reply: Reply, standard: IntegrationStandard) -> (answer:
    Result<Download, QueryError>)
    ensures
        is_download_answer(entry, reply, answer),
{
    match reply {
        Reply::Missing => Err(QueryError::MissingEntryPoint(entry)),
        Reply::Failed(message) => Err(QueryError::ScriptFailed(entry, message)),
        Reply::Returned(None) => Err(QueryError::InvalidValue(entry, ValueError::NotPlain)),
        Reply::Returned(Some(value)) => match Download::from_json(&value, standard) {
            Ok(download) => Ok(download),
            Err(e) => Err(QueryError::InvalidValue(entry, e)),
        },
    }
}

/// The diff that a script returned: nil stands for a game that is up to
/// date, which is no error.
pub fn optional_diff_answer(entry: EntryPoint, reply: Reply, standard: IntegrationStandard) -> (answer:
    Result<Option<Diff>, QueryError>)
    ensures
        is_optional_diff_answer(entry, reply, answer),
{
    match reply {
        Reply::Missing => Err(QueryError::MissingEntryPoint(entry)),
        Reply::Failed(message) => Err(QueryError::ScriptFailed(entry, message)),
        Reply::Returned(None) => Err(QueryError::InvalidValue(entry, ValueError::NotPlain)),
        Reply::Returned(Some(value)) => match &value {
            Json::Null => Ok(None),
            _ => match Diff::from_json(&value, standard) {
                Ok(diff) => Ok(Some(diff)),
                Err(e) => Err(QueryError::InvalidValue(entry, e)),
            },
        },
    }
}

/// The launch options that a script returned.
pub fn launch_options_answer(entry: EntryPoint, reply: Reply, standard: IntegrationStandard) -> (answer:
    Result<LaunchOptions, QueryError>)
    ensures
        is_launch_options_answer(entry, reply, answer),
{
    match reply {
        Reply::Missing => Err(QueryError::MissingEntryPoint(entry)),
        Reply::Failed(message) => Err(QueryError::ScriptFailed(entry, message)),
        Reply::Returned(None) => Err(QueryError::InvalidValue(entry, ValueError::NotPlain)),
        Reply::Returned(Some(value)) => match LaunchOptions::from_json(&value, standard) {
            Ok(options) => Ok(options),
            Err(e) => Err(QueryError::InvalidValue(entry, e)),
        },
    }
}

/// Whether a hook ran.
pub fn done_answer(entry: EntryPoint, reply: Reply) -> (answer: Result<(), QueryError>)
    ensures
        is_done_answer(entry, reply, answer),
{
    match reply {
        Reply::Missing => Err(QueryError::MissingEntryPoint(entry)),
        Reply::Failed(message) => Err(QueryError::ScriptFailed(entry, message)),
        Reply::Returned(_) => Ok(()),
    }
}

/// The editions that a script returned.  An item of the list that
/// describes no edition is left out; it is no error.
pub fn editions_answer(entry: EntryPoint, reply: ListReply, standard: IntegrationStandard) -> (answer:
    Result<Vec<Edition>, QueryError>)
    ensures
        is_editions_answer(entry, reply, answer),
{
    match reply {
        ListReply::Missing => Err(QueryError::MissingEntryPoint(entry)),
        ListReply::Failed(message) => Err(QueryError::ScriptFailed(entry, message)),
        ListReply::NotList => Err(QueryError::InvalidValue(entry, ValueError::NotList)),
        ListReply::Items(items) => Ok(editions_in(&items, standard)),
    }
}

/// The groups of addons that a script returned.  An item of the list that
/// describes no group is left out; it is no error.
pub fn addons_answer(entry: EntryPoint, reply: ListReply, standard: IntegrationStandard) -> (answer:
    Result<Vec<AddonsGroup>, QueryError>)
    ensures
        is_addons_answer(entry, reply, answer),
{
    match reply {
        ListReply::Missing => Err(QueryError::MissingEntryPoint(entry)),
        ListReply::Failed(message) => Err(QueryError::ScriptFailed(entry, message)),
        ListReply::NotList => Err(QueryError::InvalidValue(entry, ValueError::NotList)),
        ListReply::Items(items) => Ok(addons_groups_in(&items, standard)),
    }
}

} // verus!
