//! Installation into a store, one step at a time.

use vstd::prelude::*;
use crate::packages::manifest::ManifestInputFormat;
use crate::packages::resolver::{Dependency, DependencyModel, dependency_models};
use crate::packages::storage::{Storage, entry_name, joined, listed, stored_at};

verus! {

/// Where an installation stands.  The number is the place of a dependency
/// in the resolved list.
#[derive(Clone, Copy, Debug, PartialEq, Eq, Structural)]
pub enum InstallState {
    /// The dependency at this place comes next; behind the last one, the end.
    Ready(usize),
    /// The dependency was reported; the listing of the store is awaited.
    Announced(usize),
    /// The content of the dependency was asked for; the response is awaited.
    Fetching(usize),
    /// The content of the dependency is being written.
    Writing(usize),
    /// Every dependency was dealt with.
    Finished,
    /// A dependency could not be fetched; the rest was not tried.
    Failed,
}

/// What happened outside since the last step.
#[derive(Debug, PartialEq, Eq)]
pub enum InstallEvent {
    /// The last action was carried out and asked for nothing back.
    Continue,
    /// The file names in the store's directory.
    Listed(Vec<String>),
    /// The status code of the response to a fetch.
    Responded(u16),
    /// The body of the response was written to the path asked for.
    Written,
}

/// Why an installation failed.
#[derive(Debug, PartialEq, Eq)]
pub enum InstallError {
    /// The content of a dependency that is no package root was refused by
    /// its server.
    FetchFailed { name: String, uri: String, status: u16 },
}

/// What to do outside before the next step.
#[derive(Debug, PartialEq, Eq)]
pub enum InstallAction {
    /// Tell the caller that this dependency is about to be installed, list
    /// the store's directory, and come back with `Listed`.
    Report { installed: usize, total: usize, name: String },
    /// Fetch this address and come back with `Responded`.
    Fetch { uri: String },
    /// Write the body of the response to this path and come back with
    /// `Written`.
    Write { path: String },
    /// Nothing; come back with `Continue`.
    Proceed,
    /// The installation is complete.
    Finish,
    /// The installation ends here, with what was written so far left in
    /// place.
    Fail(InstallError),
    /// The event does not answer the last action; the state is unchanged.
    Refuse,
}

/// An `InstallEvent`, with texts in place of strings.
pub ghost enum EventModel {
    Continue,
    Listed(Seq<Seq<char>>),
    Responded(u16),
    Written,
}

/// An `InstallAction`, with texts in place of strings.
pub ghost enum ActionModel {
    Report { installed: usize, total: usize, name: Seq<char> },
    Fetch { uri: Seq<char> },
    Write { path: Seq<char> },
    Proceed,
    Finish,
    FailFetch { name: Seq<char>, uri: Seq<char>, status: u16 },
    Refuse,
}

impl View for InstallEvent {
    type V = EventModel;

    open spec fn view(&self) -> EventModel {
        match self {
            InstallEvent::Continue => EventModel::Continue,
            InstallEvent::Listed(entries) => EventModel::Listed(listed(entries@)),
            InstallEvent::Responded(status) => EventModel::Responded(*status),
            InstallEvent::Written => EventModel::Written,
        }
    }
}

impl View for InstallAction {
    type V = ActionModel;

    open spec fn view(&self) -> ActionModel {
        match self {
            InstallAction::Report { installed, total, name } => ActionModel::Report {
                installed: *installed,
                total: *total,
                name: name@,
            },
            InstallAction::Fetch { uri } => ActionModel::Fetch { uri: uri@ },
            InstallAction::Write { path } => ActionModel::Write { path: path@ },
            InstallAction::Proceed => ActionModel::Proceed,
            InstallAction::Finish => ActionModel::Finish,
            InstallAction::Fail(InstallError::FetchFailed { name, uri, status }) => ActionModel::FailFetch {
                name: name@,
                uri: uri@,
                status: *status,
            },
            InstallAction::Refuse => ActionModel::Refuse,
        }
    }
}

/// A status code that reports success: from 200 to 299.
pub open spec fn is_success(status: u16) -> bool {
    200 <= status < 300
}

/// An input that is the root of another package: there is nothing to
/// download for it, and nothing is written.
pub open spec fn is_package_input(dependency: DependencyModel) -> bool {
    dependency matches DependencyModel::Input { input, .. } && input.format
        == ManifestInputFormat::Package
}

/// The path at which the content of a dependency is stored.
pub open spec fn install_path(folder: Seq<char>, dependency: DependencyModel) -> Seq<char> {
    joined(folder, entry_name(dependency.name(), dependency.hash()))
}

/// One step of an installation into the store at `folder`: the state after
/// `event`, and what to do next.
///
/// Each dependency is reported before anything is tried for it.  One whose
/// hash the store lists is passed over without a fetch.  A response that
/// reports no success ends the installation, unless the dependency is a
/// package root: for that one nothing is written, whatever the response.
pub open spec fn install_step(
    folder: Seq<char>,
    dependencies: Seq<DependencyModel>,
    state: InstallState,
    event: EventModel,
) -> (InstallState, ActionModel) {
    match (state, event) {
        (InstallState::Ready(i), EventModel::Continue) => if i < dependencies.len() {
            (
                InstallState::Announced(i),
                ActionModel::Report {
                    installed: i,
                    total: dependencies.len() as usize,
                    name: dependencies[i as int].name(),
                },
            )
        } else {
            (InstallState::Finished, ActionModel::Finish)
        },
        (InstallState::Announced(i), EventModel::Listed(names)) => if i >= dependencies.len() {
            (state, ActionModel::Refuse)
        } else if stored_at(folder, names, dependencies[i as int].hash()) is Some {
            (InstallState::Ready((i + 1) as usize), ActionModel::Proceed)
        } else {
            (InstallState::Fetching(i), ActionModel::Fetch { uri: dependencies[i as int].uri() })
        },
        (InstallState::Fetching(i), EventModel::Responded(status)) => if i >= dependencies.len() {
            (state, ActionModel::Refuse)
        } else if is_package_input(dependencies[i as int]) {
            (InstallState::Ready((i + 1) as usize), ActionModel::Proceed)
        } else if is_success(status) {
            (
                InstallState::Writing(i),
                ActionModel::Write { path: install_path(folder, dependencies[i as int]) },
            )
        } else {
            (
                InstallState::Failed,
                ActionModel::FailFetch {
                    name: dependencies[i as int].name(),
                    uri: dependencies[i as int].uri(),
                    status,
                },
            )
        },
        (InstallState::Writing(i), EventModel::Written) => if i >= dependencies.len() {
            (state, ActionModel::Refuse)
        } else {
            (InstallState::Ready((i + 1) as usize), ActionModel::Proceed)
        },
        _ => (state, ActionModel::Refuse),
    }
}

impl Dependency {
    /// Whether the dependency is the root of another package.
    pub fn is_package_input(&self) -> (r: bool)
        ensures
            r == is_package_input(self@),
    {
        match self {
            Dependency::Input { input, .. } => match input.format {
                ManifestInputFormat::Package => true,
                ManifestInputFormat::File => false,
            },
            Dependency::Output { .. } => false,
        }
    }

    /// Looks for the content of the dependency in a store, given the
    /// listing of its directory: the path of the entry, if it is there.
    pub fn resolve(&self, storage: &Storage, entries: &Vec<String>) -> (found: Option<String>)
        ensures
            crate::packages::storage::text_of_path(found) == stored_at(
                storage@,
                listed(entries@),
                self@.hash(),
            ),
    {
        storage.search_hash(entries, self.hash())
    }
}

impl Storage {
    /// One step of installing `dependencies`, the resolved list of a
    /// package, into this store.  The caller starts in `Ready(0)` with
    /// `Continue`, carries out each action and comes back with the event
    /// that the action names, until the action is `Finish` or `Fail`.
    pub fn install(
        &self,
        dependencies: &Vec<Dependency>,
        state: InstallState,
        event: &InstallEvent,
    ) -> (next: (InstallState, InstallAction))
        ensures
            (next.0, next.1@) == install_step(self@, dependency_models(dependencies@), state, event@),
    {
        let total: usize = dependencies.len();
        match (state, event) {
            (InstallState::Ready(i), InstallEvent::Continue) => {
                if i < total {
                    let name = String::from_str(dependencies[i].name());
                    (InstallState::Announced(i), InstallAction::Report { installed: i, total, name })
                } else {
                    (InstallState::Finished, InstallAction::Finish)
                }
            },
            (InstallState::Announced(i), InstallEvent::Listed(entries)) => {
                if i >= total {
                    (state, InstallAction::Refuse)
                } else if dependencies[i].resolve(self, entries).is_some() {
                    (InstallState::Ready(i + 1), InstallAction::Proceed)
                } else {
                    (InstallState::Fetching(i), InstallAction::Fetch { uri: dependencies[i].uri() })
                }
            },
            (InstallState::Fetching(i), InstallEvent::Responded(status)) => {
                if i >= total {
                    (state, InstallAction::Refuse)
                } else if dependencies[i].is_package_input() {
                    (InstallState::Ready(i + 1), InstallAction::Proceed)
                } else if 200 <= *status && *status < 300 {
                    let path = self.build_path(dependencies[i].name(), dependencies[i].hash());
                    (InstallState::Writing(i), InstallAction::Write { path })
                } else {
                    let name = String::from_str(dependencies[i].name());
                    let uri = dependencies[i].uri();
                    (
                        InstallState::Failed,
                        InstallAction::Fail(InstallError::FetchFailed { name, uri, status: *status }),
                    )
                }
            },
            (InstallState::Writing(i), InstallEvent::Written) => {
                if i >= total {
                    (state, InstallAction::Refuse)
                } else {
                    (InstallState::Ready(i + 1), InstallAction::Proceed)
                }
            },
            _ => (state, InstallAction::Refuse),
        }
    }
}

/// What an installation has done so far.
pub ghost struct Progress {
    pub state: InstallState,
    /// The file names in the store's directory.
    pub store: Seq<Seq<char>>,
    /// The addresses fetched, in their order.
    pub fetched: Seq<Seq<char>>,
    /// What was reported to the caller, in its order: how many dependencies
    /// were dealt with, how many there are, and the name of the next.
    pub reported: Seq<(usize, usize, Seq<char>)>,
}

/// An installation carried out for at most `steps` steps by a caller that
/// does what each action asks: it lists the store as it stands, gets the
/// status `status(uri)` for a fetch of `uri`, and writes a file under the
/// entry name of the dependency.
pub open spec fn carried_out(
    folder: Seq<char>,
    dependencies: Seq<DependencyModel>,
    status: spec_fn(Seq<char>) -> u16,
    progress: Progress,
    event: EventModel,
    steps: nat,
) -> Progress
    decreases steps,
{
    if steps == 0 {
        progress
    } else {
        let (state, action) = install_step(folder, dependencies, progress.state, event);
        let left = (steps - 1) as nat;
        match action {
            ActionModel::Report { installed, total, name } => carried_out(
                folder,
                dependencies,
                status,
                Progress { state, reported: progress.reported.push((installed, total, name)), ..progress },
                EventModel::Listed(progress.store),
                left,
            ),
            ActionModel::Fetch { uri } => carried_out(
                folder,
                dependencies,
                status,
                Progress { state, fetched: progress.fetched.push(uri), ..progress },
                EventModel::Responded(status(uri)),
                left,
            ),
            ActionModel::Write { path } => carried_out(
                folder,
                dependencies,
                status,
                Progress {
                    state,
                    store: match state {
                        InstallState::Writing(i) => progress.store.push(
                            entry_name(dependencies[i as int].name(), dependencies[i as int].hash()),
                        ),
                        _ => progress.store,
                    },
                    ..progress
                },
                EventModel::Written,
                left,
            ),
            ActionModel::Proceed => carried_out(
                folder,
                dependencies,
                status,
                Progress { state, ..progress },
                EventModel::Continue,
                left,
            ),
            _ => Progress { state, ..progress },
        }
    }
}

/// From the dependency at place `i` on, an installation into a store that
/// lists every dependency reports each and finishes, with nothing fetched
/// and the store as it was.
pub proof fn lemma_rest_of_complete_store(
    folder: Seq<char>,
    dependencies: Seq<DependencyModel>,
    status: spec_fn(Seq<char>) -> u16,
    progress: Progress,
    i: usize,
    steps: nat,
)
    requires
        dependencies.len() <= usize::MAX,
        i <= dependencies.len(),
        progress.state == InstallState::Ready(i),
        steps >= 2 * (dependencies.len() - i) + 1,
        forall|k: int|
            0 <= k < dependencies.len() ==> stored_at(
                folder,
                progress.store,
                (#[trigger] dependencies[k]).hash(),
            ) is Some,
    ensures
        ({
            let end = carried_out(folder, dependencies, status, progress, EventModel::Continue, steps);
            &&& end.state == InstallState::Finished
            &&& end.store == progress.store
            &&& end.fetched == progress.fetched
            &&& end.reported.len() == progress.reported.len() + dependencies.len() - i
        }),
    decreases dependencies.len() - i,
{
    if i < dependencies.len() {
        let reported = Progress {
            state: InstallState::Announced(i),
            reported: progress.reported.push(
                (i, dependencies.len() as usize, dependencies[i as int].name()),
            ),
            ..progress
        };
        let next = Progress { state: InstallState::Ready((i + 1) as usize), ..reported };
        assert(carried_out(folder, dependencies, status, progress, EventModel::Continue, steps)
            == carried_out(
            folder,
            dependencies,
            status,
            reported,
            EventModel::Listed(progress.store),
            (steps - 1) as nat,
        ));
        assert(carried_out(
            folder,
            dependencies,
            status,
            reported,
            EventModel::Listed(progress.store),
            (steps - 1) as nat,
        ) == carried_out(folder, dependencies, status, next, EventModel::Continue, (steps - 2) as nat));
        lemma_rest_of_complete_store(
            folder,
            dependencies,
            status,
            next,
            (i + 1) as usize,
            (steps - 2) as nat,
        );
    }
}

/// Installing a package twice: an installation into a store that lists
/// every dependency runs to its end, reports every dependency, fetches
/// nothing and leaves the store as it was, whatever the servers would
/// answer.
pub proof fn law_complete_store_is_left_alone(
    folder: Seq<char>,
    dependencies: Seq<DependencyModel>,
    status: spec_fn(Seq<char>) -> u16,
    store: Seq<Seq<char>>,
    steps: nat,
)
    requires
        dependencies.len() <= usize::MAX,
        steps >= 2 * dependencies.len() + 1,
        forall|k: int|
            0 <= k < dependencies.len() ==> stored_at(folder, store, (#[trigger] dependencies[k]).hash())
                is Some,
    ensures
        ({
            let start = Progress {
                state: InstallState::Ready(0),
                store,
                fetched: Seq::empty(),
                reported: Seq::empty(),
            };
            let end = carried_out(folder, dependencies, status, start, EventModel::Continue, steps);
            &&& end.state == InstallState::Finished
            &&& end.store == store
            &&& end.fetched.len() == 0
            &&& end.reported.len() == dependencies.len()
        }),
{
    let start = Progress {
        state: InstallState::Ready(0),
        store,
        fetched: Seq::empty(),
        reported: Seq::empty(),
    };
    lemma_rest_of_complete_store(folder, dependencies, status, start, 0, steps);
}

/// The entry names of the dependencies, in their order.
pub open spec fn entries_of(dependencies: Seq<DependencyModel>) -> Seq<Seq<char>> {
    Seq::new(
        dependencies.len(),
        |i: int| entry_name(dependencies[i].name(), dependencies[i].hash()),
    )
}

/// The addresses of the dependencies, in their order.
pub open spec fn addresses_of(dependencies: Seq<DependencyModel>) -> Seq<Seq<char>> {
    Seq::new(dependencies.len(), |i: int| dependencies[i].uri())
}

/// What an installation reports when it deals with every dependency.
pub open spec fn reports_of(dependencies: Seq<DependencyModel>) -> Seq<(usize, usize, Seq<char>)> {
    Seq::new(
        dependencies.len(),
        |i: int| (i as usize, dependencies.len() as usize, dependencies[i].name()),
    )
}

/// A list of dependencies each of which is fetched and written when the
/// store is empty: every hash is the text of a hash, none is a package root,
/// and no hash begins with the hash of a dependency further down the list,
/// so that no entry written for one is taken for another.
pub open spec fn installs_in_full(dependencies: Seq<DependencyModel>) -> bool {
    &&& forall|k: int|
        0 <= k < dependencies.len() ==> crate::packages::hash::is_hash_text(
            (#[trigger] dependencies[k]).hash(),
        ) && !is_package_input(dependencies[k])
    &&& forall|a: int, b: int|
        0 <= a < b < dependencies.len() ==> !(#[trigger] dependencies[b]).hash().is_prefix_of(
            (#[trigger] dependencies[a]).hash(),
        )
}

/// A store that holds the entries of the dependencies before the `i`th, and
/// nothing else, does not hold the `i`th.
pub proof fn lemma_next_is_not_stored(folder: Seq<char>, dependencies: Seq<DependencyModel>, i: int)
    requires
        0 <= i < dependencies.len(),
        installs_in_full(dependencies),
    ensures
        stored_at(folder, entries_of(dependencies).take(i), dependencies[i].hash()) is None,
{
    let names = entries_of(dependencies).take(i);
    let hash = dependencies[i].hash();
    if exists|k: int| crate::packages::storage::is_first_with_hash(names, hash, k) {
        let k = choose|k: int| crate::packages::storage::is_first_with_hash(names, hash, k);
        let other = dependencies[k].hash();
        let entry = entry_name(dependencies[k].name(), other);
        assert(names[k] == entry);
        assert(hash =~= entry.subrange(0, hash.len() as int));
        if hash.len() <= other.len() {
            assert(hash =~= other.subrange(0, hash.len() as int)) by {
                assert forall|j: int| 0 <= j < hash.len() implies hash[j] == other[j] by {
                    assert(hash[j] == entry.subrange(0, hash.len() as int)[j]);
                }
            }
            assert(hash.is_prefix_of(other));
        } else {
            assert(hash[other.len() as int] == entry.subrange(0, hash.len() as int)[other.len() as int]);
            assert(entry[other.len() as int] == '-');
        }
        assert(false);
    }
}

/// From the dependency at place `i` on, an installation into a store that
/// holds the entries of the dependencies before it fetches and writes each
/// of the rest.
pub proof fn lemma_rest_of_fresh_store(
    folder: Seq<char>,
    dependencies: Seq<DependencyModel>,
    status: spec_fn(Seq<char>) -> u16,
    progress: Progress,
    i: usize,
    steps: nat,
)
    requires
        dependencies.len() <= usize::MAX,
        i <= dependencies.len(),
        installs_in_full(dependencies),
        forall|k: int| 0 <= k < dependencies.len() ==> is_success(status((#[trigger] dependencies[k]).uri())),
        progress.state == InstallState::Ready(i),
        progress.store == entries_of(dependencies).take(i as int),
        progress.fetched == addresses_of(dependencies).take(i as int),
        progress.reported == reports_of(dependencies).take(i as int),
        steps >= 4 * (dependencies.len() - i) + 1,
    ensures
        ({
            let end = carried_out(folder, dependencies, status, progress, EventModel::Continue, steps);
            &&& end.state == InstallState::Finished
            &&& end.store == entries_of(dependencies)
            &&& end.fetched == addresses_of(dependencies)
            &&& end.reported == reports_of(dependencies)
        }),
    decreases dependencies.len() - i,
{
    let n = dependencies.len();
    if i < n {
        let own = dependencies[i as int];
        lemma_next_is_not_stored(folder, dependencies, i as int);
        let reported = Progress {
            state: InstallState::Announced(i),
            reported: progress.reported.push((i, n as usize, own.name())),
            ..progress
        };
        let fetching = Progress {
            state: InstallState::Fetching(i),
            fetched: progress.fetched.push(own.uri()),
            ..reported
        };
        let writing = Progress {
            state: InstallState::Writing(i),
            store: progress.store.push(entry_name(own.name(), own.hash())),
            ..fetching
        };
        let next = Progress { state: InstallState::Ready((i + 1) as usize), ..writing };
        assert(carried_out(folder, dependencies, status, progress, EventModel::Continue, steps)
            == carried_out(
            folder,
            dependencies,
            status,
            reported,
            EventModel::Listed(progress.store),
            (steps - 1) as nat,
        ));
        assert(carried_out(
            folder,
            dependencies,
            status,
            reported,
            EventModel::Listed(progress.store),
            (steps - 1) as nat,
        ) == carried_out(
            folder,
            dependencies,
            status,
            fetching,
            EventModel::Responded(status(own.uri())),
            (steps - 2) as nat,
        ));
        assert(carried_out(
            folder,
            dependencies,
            status,
            fetching,
            EventModel::Responded(status(own.uri())),
            (steps - 2) as nat,
        ) == carried_out(folder, dependencies, status, writing, EventModel::Written, (steps - 3) as nat));
        assert(carried_out(folder, dependencies, status, writing, EventModel::Written, (steps - 3) as nat)
            == carried_out(folder, dependencies, status, next, EventModel::Continue, (steps - 4) as nat));
        assert(next.store =~= entries_of(dependencies).take(i + 1));
        assert(next.fetched =~= addresses_of(dependencies).take(i + 1));
        assert(next.reported =~= reports_of(dependencies).take(i + 1));
        lemma_rest_of_fresh_store(
            folder,
            dependencies,
            status,
            next,
            (i + 1) as usize,
            (steps - 4) as nat,
        );
    } else {
        assert(entries_of(dependencies).take(i as int) =~= entries_of(dependencies));
        assert(addresses_of(dependencies).take(i as int) =~= addresses_of(dependencies));
        assert(reports_of(dependencies).take(i as int) =~= reports_of(dependencies));
    }
}

/// Installing into an empty store, from servers that answer every fetch
/// with success: every dependency is reported with its place and the total,
/// fetched from its address and written under its entry name, each once and
/// in the order of the list.
pub proof fn law_empty_store_takes_everything(
    folder: Seq<char>,
    dependencies: Seq<DependencyModel>,
    status: spec_fn(Seq<char>) -> u16,
    steps: nat,
)
    requires
        dependencies.len() <= usize::MAX,
        installs_in_full(dependencies),
        forall|k: int| 0 <= k < dependencies.len() ==> is_success(status((#[trigger] dependencies[k]).uri())),
        steps >= 4 * dependencies.len() + 1,
    ensures
        ({
            let start = Progress {
                state: InstallState::Ready(0),
                store: Seq::empty(),
                fetched: Seq::empty(),
                reported: Seq::empty(),
            };
            let end = carried_out(folder, dependencies, status, start, EventModel::Continue, steps);
            &&& end.state == InstallState::Finished
            &&& end.store == entries_of(dependencies)
            &&& end.fetched == addresses_of(dependencies)
            &&& end.reported == reports_of(dependencies)
        }),
{
    let start = Progress {
        state: InstallState::Ready(0),
        store: Seq::empty(),
        fetched: Seq::empty(),
        reported: Seq::empty(),
    };
    assert(start.store =~= entries_of(dependencies).take(0));
    assert(start.fetched =~= addresses_of(dependencies).take(0));
    assert(start.reported =~= reports_of(dependencies).take(0));
    lemma_rest_of_fresh_store(folder, dependencies, status, start, 0, steps);
}

/// One dependency at a time, in a store that lists every dependency: each
/// is reported and passed over, and behind the last one the installation
/// finishes.
pub proof fn law_install_in_complete_store(
    folder: Seq<char>,
    dependencies: Seq<DependencyModel>,
    names: Seq<Seq<char>>,
)
    requires
        dependencies.len() <= usize::MAX,
        forall|i: int|
            0 <= i < dependencies.len() ==> stored_at(folder, names, (#[trigger] dependencies[i]).hash())
                is Some,
    ensures
        forall|i: usize|
            i < dependencies.len() ==> #[trigger] install_step(
                folder,
                dependencies,
                InstallState::Ready(i),
                EventModel::Continue,
            ) == (
                InstallState::Announced(i),
                ActionModel::Report {
                    installed: i,
                    total: dependencies.len() as usize,
                    name: dependencies[i as int].name(),
                },
            ),
        forall|i: usize|
            i < dependencies.len() ==> #[trigger] install_step(
                folder,
                dependencies,
                InstallState::Announced(i),
                EventModel::Listed(names),
            ) == (InstallState::Ready((i + 1) as usize), ActionModel::Proceed),
        install_step(
            folder,
            dependencies,
            InstallState::Ready(dependencies.len() as usize),
            EventModel::Continue,
        ) == (InstallState::Finished, ActionModel::Finish),
{
}

/// No step asks for a fetch but the one that answers a listing without the
/// hash, and none asks for a write but the one that answers a successful
/// response for a dependency that is no package root.
pub proof fn law_fetch_and_write_only_when_due(
    folder: Seq<char>,
    dependencies: Seq<DependencyModel>,
    state: InstallState,
    event: EventModel,
)
    ensures
        install_step(folder, dependencies, state, event).1 is Fetch ==> (state matches InstallState::Announced(
            i,
        ) && event matches EventModel::Listed(names) && i < dependencies.len() && stored_at(
            folder,
            names,
            dependencies[i as int].hash(),
        ) is None),
        install_step(folder, dependencies, state, event).1 is Write ==> (state matches InstallState::Fetching(
            i,
        ) && event matches EventModel::Responded(status) && i < dependencies.len() && is_success(
            status,
        ) && !is_package_input(dependencies[i as int])),
{
}

} // verus!
