//! Readers of the values that scripts return.

use vstd::prelude::*;
use crate::common::json::Json;
use crate::common::text::same_text;
use crate::games::integrations::standards::{
    Addon, AddonModel, AddonsGroup, AddonsGroupModel, Diff, DiffModel, DiffStatus, Download,
    DownloadModel, Edition, EditionModel, IntegrationStandard, LaunchOptions, LaunchOptionsModel,
    ValueError, addon_of, addons_group_models, addons_group_of, addons_groups_among, addons_of,
    all_addons, all_texts, diff_of, download_of, edition_models, edition_of, editions_among,
    launch_options_of, named_status, options_of,
};

verus! {

impl Edition {
    /// Reads an edition from a value that a script returned.
    pub fn from_json(value: &Json, standard: IntegrationStandard) -> (r: Result<Edition, ValueError>)
        ensures
            match r {
                Ok(edition) => edition_of(*value) == Ok::<EditionModel, ValueError>(edition@),
                Err(e) => edition_of(*value) == Err::<EditionModel, ValueError>(e),
            },
    {
        match standard {
            IntegrationStandard::V1 => {
                let name = match value.get_str("name") {
                    Some(name) => String::from_str(name),
                    None => {
                        return Err(ValueError::MissingName);
                    },
                };
                let title = match value.get_str("title") {
                    Some(title) => String::from_str(title),
                    None => {
                        return Err(ValueError::MissingTitle);
                    },
                };
                Ok(Edition { name, title })
            },
        }
    }
}

impl Download {
    /// Reads a download from a value that a script returned.
    pub fn from_json(value: &Json, standard: IntegrationStandard) -> (r: Result<Download, ValueError>)
        ensures
            match r {
                Ok(download) => download_of(*value) == Ok::<DownloadModel, ValueError>(download@),
                Err(e) => download_of(*value) == Err::<DownloadModel, ValueError>(e),
            },
    {
        match standard {
            IntegrationStandard::V1 => {
                let version = match value.get_str("version") {
                    Some(version) => String::from_str(version),
                    None => {
                        return Err(ValueError::MissingVersion);
                    },
                };
                let edition = match value.get_str("edition") {
                    Some(edition) => String::from_str(edition),
                    None => {
                        return Err(ValueError::MissingEdition);
                    },
                };
                let uri = match value.get_str("uri") {
                    Some(uri) => String::from_str(uri),
                    None => {
                        return Err(ValueError::MissingUri);
                    },
                };
                let size = match value.get("size") {
                    Some(number) => match number.as_u64() {
                        Some(size) => size,
                        None => {
                            return Err(ValueError::MissingSize);
                        },
                    },
                    None => {
                        return Err(ValueError::MissingSize);
                    },
                };
                Ok(Download { version, edition, uri, size })
            },
        }
    }
}

impl DiffStatus {
    /// The status of that name, if there is one.
    pub fn from_str(name: &str) -> (status: Option<DiffStatus>)
        ensures
            status == named_status(name@),
    {
        if same_text(name, "latest") {
            Some(DiffStatus::Latest)
        } else if same_text(name, "outdated") {
            Some(DiffStatus::Outdated)
        } else if same_text(name, "unavailable") {
            Some(DiffStatus::Unavailable)
        } else {
            None
        }
    }
}

impl Diff {
    /// Reads a diff from a value that a script returned.
    pub fn from_json(value: &Json, standard: IntegrationStandard) -> (r: Result<Diff, ValueError>)
        ensures
            match r {
                Ok(diff) => diff_of(*value) == Ok::<DiffModel, ValueError>(diff@),
                Err(e) => diff_of(*value) == Err::<DiffModel, ValueError>(e),
            },
    {
        match standard {
            IntegrationStandard::V1 => {
                let current_version = match value.get_str("current_version") {
                    Some(version) => String::from_str(version),
                    None => {
                        return Err(ValueError::MissingCurrentVersion);
                    },
                };
                let latest_version = match value.get_str("latest_version") {
                    Some(version) => String::from_str(version),
                    None => {
                        return Err(ValueError::MissingLatestVersion);
                    },
                };
                let edition = match value.get_str("edition") {
                    Some(edition) => String::from_str(edition),
                    None => {
                        return Err(ValueError::MissingEdition);
                    },
                };
                let status = match value.get_str("status") {
                    Some(name) => match DiffStatus::from_str(name) {
                        Some(status) => status,
                        None => {
                            return Err(ValueError::UnknownStatus);
                        },
                    },
                    None => {
                        return Err(ValueError::MissingStatus);
                    },
                };
                Ok(Diff { current_version, latest_version, edition, status })
            },
        }
    }
}

fn texts_of_all(items: &Vec<Json>) -> (r: Option<Vec<String>>)
    ensures
        match r {
            Some(texts) => all_texts(items@) == Some(crate::packages::manifest::texts(texts@)),
            None => all_texts(items@) is None,
        },
{
    let mut texts: Vec<String> = Vec::new();
    let n: usize = items.len();
    let mut i: usize = 0;
    assert(items@.take(0) =~= Seq::empty());
    assert(crate::packages::manifest::texts(texts@) =~= Seq::empty());
    while i < n
        invariant
            n == items@.len(),
            i <= n,
            all_texts(items@.take(i as int)) == Some(crate::packages::manifest::texts(texts@)),
        decreases n - i,
    {
        proof {
            assert(items@.take(i + 1).drop_last() =~= items@.take(i as int));
            assert(items@.take(i + 1).last() == items@[i as int]);
        }
        match items[i].as_str() {
            Some(text) => {
                let ghost before = texts@;
                texts.push(String::from_str(text));
                assert(crate::packages::manifest::texts(texts@) =~= crate::packages::manifest::texts(before).push(
                    text@,
                ));
            },
            None => {
                proof {
                    lemma_texts_stay_missing(items@, i + 1);
                }
                return None;
            },
        }
        i += 1;
    }
    assert(items@.take(n as int) =~= items@);
    Some(texts)
}

/// Once an item is no string, more items change nothing.
pub proof fn lemma_texts_stay_missing(items: Seq<Json>, k: int)
    requires
        0 <= k <= items.len(),
        all_texts(items.take(k)) is None,
    ensures
        all_texts(items) is None,
    decreases items.len(),
{
    if k == items.len() {
        assert(items.take(k) =~= items);
    } else {
        assert(items.drop_last().take(k) =~= items.take(k));
        lemma_texts_stay_missing(items.drop_last(), k);
    }
}

/// Once an item is no addon, more items change nothing.
pub proof fn lemma_addons_stay_missing(items: Seq<Json>, k: int)
    requires
        0 <= k <= items.len(),
        all_addons(items.take(k)) is None,
    ensures
        all_addons(items) is None,
    decreases items.len(),
{
    if k == items.len() {
        assert(items.take(k) =~= items);
    } else {
        assert(items.drop_last().take(k) =~= items.take(k));
        lemma_addons_stay_missing(items.drop_last(), k);
    }
}

impl LaunchOptions {
    /// Reads launch options from a value that a script returned.
    pub fn from_json(value: &Json, standard: IntegrationStandard) -> (r: Result<
        LaunchOptions,
        ValueError,
    >)
        ensures
            match r {
                Ok(options) => launch_options_of(*value) == Ok::<LaunchOptionsModel, ValueError>(
                    options@,
                ),
                Err(e) => launch_options_of(*value) == Err::<LaunchOptionsModel, ValueError>(e),
            },
    {
        match standard {
            IntegrationStandard::V1 => {
                let executable = match value.get_str("executable") {
                    Some(executable) => String::from_str(executable),
                    None => {
                        return Err(ValueError::MissingExecutable);
                    },
                };
                let options: Vec<String> = match value.get("options") {
                    None => Vec::new(),
                    Some(list) => match list {
                        Json::Array(items) => match texts_of_all(items) {
                            Some(texts) => texts,
                            None => {
                                return Err(ValueError::InvalidOptions);
                            },
                        },
                        Json::Object(members) => {
                            if members.len() == 0 {
                                Vec::new()
                            } else {
                                return Err(ValueError::InvalidOptions);
                            }
                        },
                        _ => {
                            return Err(ValueError::InvalidOptions);
                        },
                    },
                };
                let r = LaunchOptions { executable, options };
                assert(r@.options =~= options_of(*value).unwrap());
                Ok(r)
            },
        }
    }
}

impl Addon {
    /// Reads an addon from a value that a script returned.
    pub fn from_json(value: &Json) -> (r: Option<Addon>)
        ensures
            match r {
                Some(addon) => addon_of(*value) == Some(addon@),
                None => addon_of(*value) is None,
            },
    {
        let name = match value.get_str("name") {
            Some(name) => String::from_str(name),
            None => {
                return None;
            },
        };
        let title = match value.get_str("title") {
            Some(title) => String::from_str(title),
            None => {
                return None;
            },
        };
        let required = match value.get("required") {
            Some(flag) => match flag.as_bool() {
                Some(b) => b,
                None => false,
            },
            None => false,
        };
        Some(Addon { name, title, required })
    }
}

fn addons_of_all(items: &Vec<Json>) -> (r: Option<Vec<Addon>>)
    ensures
        match r {
            Some(addons) => all_addons(items@) == Some(
                Seq::new(addons@.len(), |i: int| addons@[i]@),
            ),
            None => all_addons(items@) is None,
        },
{
    let mut addons: Vec<Addon> = Vec::new();
    let n: usize = items.len();
    let mut i: usize = 0;
    assert(items@.take(0) =~= Seq::empty());
    assert(Seq::new(addons@.len(), |i: int| addons@[i]@) =~= Seq::<AddonModel>::empty());
    while i < n
        invariant
            n == items@.len(),
            i <= n,
            all_addons(items@.take(i as int)) == Some(
                Seq::new(addons@.len(), |i: int| addons@[i]@),
            ),
        decreases n - i,
    {
        proof {
            assert(items@.take(i + 1).drop_last() =~= items@.take(i as int));
            assert(items@.take(i + 1).last() == items@[i as int]);
        }
        match Addon::from_json(&items[i]) {
            Some(addon) => {
                let ghost before = addons@;
                addons.push(addon);
                assert(Seq::new(addons@.len(), |i: int| addons@[i]@) =~= Seq::new(
                    before.len(),
                    |i: int| before[i]@,
                ).push(addon@));
            },
            None => {
                proof {
                    lemma_addons_stay_missing(items@, i + 1);
                }
                return None;
            },
        }
        i += 1;
    }
    assert(items@.take(n as int) =~= items@);
    Some(addons)
}

impl AddonsGroup {
    /// Reads a group of addons from a value that a script returned.
    pub fn from_json(value: &Json, standard: IntegrationStandard) -> (r: Result<
        AddonsGroup,
        ValueError,
    >)
        ensures
            match r {
                Ok(group) => addons_group_of(*value) == Ok::<AddonsGroupModel, ValueError>(group@),
                Err(e) => addons_group_of(*value) == Err::<AddonsGroupModel, ValueError>(e),
            },
    {
        match standard {
            IntegrationStandard::V1 => {
                let name = match value.get_str("name") {
                    Some(name) => String::from_str(name),
                    None => {
                        return Err(ValueError::MissingName);
                    },
                };
                let title = match value.get_str("title") {
                    Some(title) => String::from_str(title),
                    None => {
                        return Err(ValueError::MissingTitle);
                    },
                };
                let addons: Vec<Addon> = match value.get("addons") {
                    None => {
                        return Err(ValueError::InvalidAddons);
                    },
                    Some(list) => match list {
                        Json::Array(items) => match addons_of_all(items) {
                            Some(addons) => addons,
                            None => {
                                return Err(ValueError::InvalidAddons);
                            },
                        },
                        Json::Object(members) => {
                            if members.len() == 0 {
                                Vec::new()
                            } else {
                                return Err(ValueError::InvalidAddons);
                            }
                        },
                        _ => {
                            return Err(ValueError::InvalidAddons);
                        },
                    },
                };
                let r = AddonsGroup { name, title, addons };
                assert(r@.addons =~= addons_of(*value).unwrap());
                Ok(r)
            },
        }
    }
}

/// Keeps, of the items of a list that a script returned, those that
/// describe an edition.
pub fn editions_in(items: &Vec<Option<Json>>, standard: IntegrationStandard) -> (editions: Vec<
    Edition,
>)
    ensures
        edition_models(editions@) == editions_among(items@),
{
    let mut editions: Vec<Edition> = Vec::new();
    let n: usize = items.len();
    let mut i: usize = 0;
    assert(items@.take(0) =~= Seq::empty());
    assert(edition_models(editions@) =~= Seq::empty());
    while i < n
        invariant
            n == items@.len(),
            i <= n,
            edition_models(editions@) == editions_among(items@.take(i as int)),
        decreases n - i,
    {
        proof {
            assert(items@.take(i + 1).drop_last() =~= items@.take(i as int));
            assert(items@.take(i + 1).last() == items@[i as int]);
        }
        match &items[i] {
            Some(value) => match Edition::from_json(value, standard) {
                Ok(edition) => {
                    let ghost before = editions@;
                    editions.push(edition);
                    assert(edition_models(editions@) =~= edition_models(before).push(edition@));
                },
                Err(_) => {},
            },
            None => {},
        }
        i += 1;
    }
    assert(items@.take(n as int) =~= items@);
    editions
}

/// Keeps, of the items of a list that a script returned, those that
/// describe a group of addons.
pub fn addons_groups_in(items: &Vec<Option<Json>>, standard: IntegrationStandard) -> (groups: Vec<
    AddonsGroup,
>)
    ensures
        addons_group_models(groups@) == addons_groups_among(items@),
{
    let mut groups: Vec<AddonsGroup> = Vec::new();
    let n: usize = items.len();
    let mut i: usize = 0;
    assert(items@.take(0) =~= Seq::empty());
    assert(addons_group_models(groups@) =~= Seq::empty());
    while i < n
        invariant
            n == items@.len(),
            i <= n,
            addons_group_models(groups@) == addons_groups_among(items@.take(i as int)),
        decreases n - i,
    {
        proof {
            assert(items@.take(i + 1).drop_last() =~= items@.take(i as int));
            assert(items@.take(i + 1).last() == items@[i as int]);
        }
        match &items[i] {
            Some(value) => match AddonsGroup::from_json(value, standard) {
                Ok(group) => {
                    let ghost before = groups@;
                    groups.push(group);
                    assert(addons_group_models(groups@) =~= addons_group_models(before).push(
                        group@,
                    ));
                },
                Err(_) => {},
            },
            None => {},
        }
        i += 1;
    }
    assert(items@.take(n as int) =~= items@);
    groups
}

/// The editions among a list are those among its front and then those among
/// its back.
pub proof fn lemma_editions_among_parts(front: Seq<Option<Json>>, back: Seq<Option<Json>>)
    ensures
        editions_among(front + back) == editions_among(front) + editions_among(back),
    decreases back.len(),
{
    if back.len() == 0 {
        assert(front + back =~= front);
        assert(editions_among(front) + editions_among(back) =~= editions_among(front));
    } else {
        lemma_editions_among_parts(front, back.drop_last());
        assert((front + back).drop_last() =~= front + back.drop_last());
        assert((front + back).last() == back.last());
        match back.last() {
            Some(value) => match edition_of(value) {
                Ok(edition) => {
                    assert((editions_among(front) + editions_among(back.drop_last())).push(edition)
                        =~= editions_among(front) + editions_among(back.drop_last()).push(edition));
                },
                Err(_) => {},
            },
            None => {},
        }
    }
}

/// Filtering a list of editions is lenient item by item: an item that
/// describes no edition is left out and changes nothing else, and an item
/// that describes one is kept at its place.
pub proof fn law_editions_are_filtered_item_by_item(
    front: Seq<Option<Json>>,
    item: Option<Json>,
    back: Seq<Option<Json>>,
)
    ensures
        editions_among(front.push(item) + back) == match item {
            Some(value) => match edition_of(value) {
                Ok(edition) => editions_among(front).push(edition) + editions_among(back),
                Err(_) => editions_among(front) + editions_among(back),
            },
            None => editions_among(front) + editions_among(back),
        },
{
    lemma_editions_among_parts(front.push(item), back);
    assert(front.push(item).drop_last() =~= front);
}

} // verus!
