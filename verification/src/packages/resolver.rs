//! From a package to the list of what it needs.

use vstd::prelude::*;
use crate::common::text::same_text;
use crate::games::manifest::package::Package;
use crate::packages::manifest::{
    InputModel, Manifest, ManifestInput, ManifestModel, ManifestOutput, ManifestOutputFormat,
    ManifestOutputMetadata, OutputModel, input_models, output_models,
};
use crate::packages::storage::{join_path, joined};

verus! {

/// One thing to install: an input or an output of a package, with the
/// package that lists it.
#[derive(Debug, PartialEq, Eq)]
pub enum Dependency {
    Input { name: String, input: ManifestInput, package: Package },
    Output { name: String, output: ManifestOutput, package: Package },
}

/// A dependency, with texts in place of strings.
pub ghost enum DependencyModel {
    Input { name: Seq<char>, input: InputModel, package: Seq<char> },
    Output { name: Seq<char>, output: OutputModel, package: Seq<char> },
}

impl DependencyModel {
    /// The name under which the manifest lists the dependency.
    pub open spec fn name(self) -> Seq<char> {
        match self {
            DependencyModel::Input { name, .. } => name,
            DependencyModel::Output { name, .. } => name,
        }
    }

    /// The hash of the content.
    pub open spec fn hash(self) -> Seq<char> {
        match self {
            DependencyModel::Input { input, .. } => input.hash,
            DependencyModel::Output { output, .. } => output.hash,
        }
    }

    /// Where the content is fetched from: the address of an input, and
    /// for an output its path below the address of its package.
    pub open spec fn uri(self) -> Seq<char> {
        match self {
            DependencyModel::Input { input, .. } => input.uri,
            DependencyModel::Output { output, package, .. } => joined(package, output.path),
        }
    }
}

impl View for Dependency {
    type V = DependencyModel;

    open spec fn view(&self) -> DependencyModel {
        match self {
            Dependency::Input { name, input, package } => DependencyModel::Input {
                name: name@,
                input: input@,
                package: package@,
            },
            Dependency::Output { name, output, package } => DependencyModel::Output {
                name: name@,
                output: output@,
                package: package@,
            },
        }
    }
}

/// The dependencies of a list, each as its model.
pub open spec fn dependency_models(found: Seq<Dependency>) -> Seq<DependencyModel> {
    Seq::new(found.len(), |i: int| found[i]@)
}

/// Why the dependencies of a package cannot be listed.
#[derive(Debug, PartialEq, Eq)]
pub enum ResolveError {
    /// A package lists, directly or through other packages, an output that
    /// is the package itself.  The address is that of the package.
    Cycle(String),
    /// The manifest of the package at this address is not among those
    /// given.
    MissingManifest(String),
}

/// A `ResolveError`, with texts in place of strings.
pub ghost enum ResolveFailure {
    Cycle(Seq<char>),
    MissingManifest(Seq<char>),
}

impl View for ResolveError {
    type V = ResolveFailure;

    open spec fn view(&self) -> ResolveFailure {
        match self {
            ResolveError::Cycle(url) => ResolveFailure::Cycle(url@),
            ResolveError::MissingManifest(url) => ResolveFailure::MissingManifest(url@),
        }
    }
}

/// The manifests known so far, each with the address of its package.
pub open spec fn table_model(table: Seq<(Package, Manifest)>) -> Seq<(Seq<char>, ManifestModel)> {
    Seq::new(table.len(), |i: int| (table[i].0@, table[i].1@))
}

/// Whether a dependency with that hash is among `found`.
pub open spec fn has_hash(found: Seq<DependencyModel>, hash: Seq<char>) -> bool {
    exists|i: int| 0 <= i < found.len() && (#[trigger] found[i]).hash() == hash
}

/// `found` with `dependency` behind it, unless its hash is there already.
pub open spec fn add_once(found: Seq<DependencyModel>, dependency: DependencyModel) -> Seq<
    DependencyModel,
> {
    if has_hash(found, dependency.hash()) {
        found
    } else {
        found.push(dependency)
    }
}

/// `found` with the inputs of a package behind it, in the manifest's order,
/// each unless its hash is there already.
pub open spec fn with_inputs(
    package: Seq<char>,
    inputs: Seq<(Seq<char>, InputModel)>,
    found: Seq<DependencyModel>,
) -> Seq<DependencyModel>
    decreases inputs.len(),
{
    if inputs.len() == 0 {
        found
    } else {
        add_once(
            with_inputs(package, inputs.drop_last(), found),
            DependencyModel::Input { name: inputs.last().0, input: inputs.last().1, package },
        )
    }
}

/// `i` is the place of the first manifest of `table` for the address `url`.
pub open spec fn is_first_manifest(
    table: Seq<(Seq<char>, ManifestModel)>,
    url: Seq<char>,
    i: int,
) -> bool {
    &&& 0 <= i < table.len()
    &&& table[i].0 == url
    &&& forall|j: int| 0 <= j < i ==> (#[trigger] table[j]).0 != url
}

/// The place of the first manifest of `table` for the address `url`.
pub open spec fn find_manifest(table: Seq<(Seq<char>, ManifestModel)>, url: Seq<char>) -> Option<
    int,
> {
    if exists|i: int| is_first_manifest(table, url, i) {
        Some(choose|i: int| is_first_manifest(table, url, i))
    } else {
        None
    }
}

/// How many of the flags are not set.
pub open spec fn idle(busy: Seq<bool>) -> nat
    decreases busy.len(),
{
    if busy.len() == 0 {
        0
    } else {
        idle(busy.drop_last()) + if busy.last() {
            0nat
        } else {
            1nat
        }
    }
}

/// Setting a flag that was not set leaves one idle place fewer.
pub proof fn lemma_idle_after_set(busy: Seq<bool>, i: int)
    requires
        0 <= i < busy.len(),
        !busy[i],
    ensures
        idle(busy.update(i, true)) + 1 == idle(busy),
    decreases busy.len(),
{
    let after = busy.update(i, true);
    if i == busy.len() - 1 {
        assert(after.drop_last() =~= busy.drop_last());
    } else {
        assert(after.drop_last() =~= busy.drop_last().update(i, true));
        lemma_idle_after_set(busy.drop_last(), i);
    }
}

/// What is left to count down while the outputs of a manifest are walked.
pub open spec fn outputs_left(table: Seq<(Seq<char>, ManifestModel)>, idx: int, k: int) -> nat {
    if 0 <= idx < table.len() && 0 <= k <= table[idx].1.outputs.len() {
        (table[idx].1.outputs.len() - k) as nat
    } else {
        0
    }
}

/// The dependencies of the package at place `idx` of `table`, behind those
/// already `found`: its inputs, then its outputs.  `busy` marks the packages
/// that are being expanded around this one.
pub open spec fn expand_package(
    table: Seq<(Seq<char>, ManifestModel)>,
    idx: int,
    busy: Seq<bool>,
    found: Seq<DependencyModel>,
) -> Result<Seq<DependencyModel>, ResolveFailure>
    decreases idle(busy), 0nat, 0nat,
    when 0 <= idx < table.len() && busy.len() == table.len() && !busy[idx]
{
    proof {
        lemma_idle_after_set(busy, idx);
    }
    expand_outputs(
        table,
        idx,
        busy.update(idx, true),
        0,
        with_inputs(table[idx].0, table[idx].1.inputs, found),
    )
}

/// The outputs of the package at place `idx`, from the `k`th on, behind
/// those already `found`.  An output whose hash is there already is passed
/// over.  An output that is a package manifest has the dependencies of that
/// package before itself; where that package is being expanded already, the
/// result is a cycle.
pub open spec fn expand_outputs(
    table: Seq<(Seq<char>, ManifestModel)>,
    idx: int,
    busy: Seq<bool>,
    k: int,
    found: Seq<DependencyModel>,
) -> Result<Seq<DependencyModel>, ResolveFailure>
    decreases idle(busy), 1nat, outputs_left(table, idx, k),
    when 0 <= idx < table.len() && busy.len() == table.len() && 0 <= k
{
    let outputs = table[idx].1.outputs;
    if k >= outputs.len() {
        Ok(found)
    } else {
        let own = DependencyModel::Output {
            name: outputs[k].0,
            output: outputs[k].1,
            package: table[idx].0,
        };
        if has_hash(found, own.hash()) {
            expand_outputs(table, idx, busy, k + 1, found)
        } else if outputs[k].1.format == ManifestOutputFormat::Package {
            let url = own.uri();
            match find_manifest(table, url) {
                None => Err(ResolveFailure::MissingManifest(url)),
                Some(j) => if busy[j] {
                    Err(ResolveFailure::Cycle(url))
                } else {
                    match expand_package(table, j, busy, found) {
                        Err(e) => Err(e),
                        Ok(inner) => expand_outputs(table, idx, busy, k + 1, add_once(inner, own)),
                    }
                },
            }
        } else {
            expand_outputs(table, idx, busy, k + 1, found.push(own))
        }
    }
}

/// The dependencies of the package at the address `url`, in an order in
/// which they can be installed one after the other.
pub open spec fn resolved(table: Seq<(Seq<char>, ManifestModel)>, url: Seq<char>) -> Result<
    Seq<DependencyModel>,
    ResolveFailure,
> {
    match find_manifest(table, url) {
        None => Err(ResolveFailure::MissingManifest(url)),
        Some(idx) => expand_package(
            table,
            idx,
            Seq::new(table.len(), |i: int| false),
            Seq::empty(),
        ),
    }
}

/// A copy of an input.
pub fn copy_input(input: &ManifestInput) -> (copy: ManifestInput)
    ensures
        copy@ == input@,
{
    ManifestInput { uri: input.uri.clone(), format: input.format, hash: input.hash.duplicate() }
}

/// A copy of an output.
pub fn copy_output(output: &ManifestOutput) -> (copy: ManifestOutput)
    ensures
        copy@ == output@,
{
    let title = match &output.metadata.title {
        Some(title) => Some(title.clone()),
        None => None,
    };
    ManifestOutput {
        format: output.format,
        hash: output.hash.duplicate(),
        path: output.path.clone(),
        metadata: ManifestOutputMetadata { title, standard: output.metadata.standard },
    }
}

impl Dependency {
    /// The name under which the manifest lists the dependency.
    pub fn name(&self) -> (name: &str)
        ensures
            name@ == self@.name(),
    {
        match self {
            Dependency::Input { name, .. } => name.as_str(),
            Dependency::Output { name, .. } => name.as_str(),
        }
    }

    /// Where the content is fetched from.
    pub fn uri(&self) -> (uri: String)
        ensures
            uri@ == self@.uri(),
    {
        match self {
            Dependency::Input { input, .. } => input.uri.clone(),
            Dependency::Output { output, package, .. } => join_path(
                package.url.as_str(),
                output.path.as_str(),
            ),
        }
    }

    /// The hash of the content.
    pub fn hash(&self) -> (hash: &crate::packages::hash::Hash)
        ensures
            hash@ == self@.hash(),
    {
        match self {
            Dependency::Input { input, .. } => &input.hash,
            Dependency::Output { output, .. } => &output.hash,
        }
    }
}

fn hash_known(found: &Vec<Dependency>, hash: &crate::packages::hash::Hash) -> (r: bool)
    ensures
        r == has_hash(dependency_models(found@), hash@),
{
    let n: usize = found.len();
    let mut i: usize = 0;
    while i < n
        invariant
            n == found@.len(),
            i <= n,
            forall|j: int| 0 <= j < i ==> (#[trigger] dependency_models(found@)[j]).hash() != hash@,
        decreases n - i,
    {
        if found[i].hash().same_as(hash) {
            assert(dependency_models(found@)[i as int].hash() == hash@);
            return true;
        }
        i += 1;
    }
    false
}

fn find(table: &Vec<(Package, Manifest)>, url: &str) -> (r: Option<usize>)
    ensures
        match r {
            Some(i) => i < table@.len() && find_manifest(table_model(table@), url@) == Some(i as int),
            None => find_manifest(table_model(table@), url@) is None,
        },
{
    let n: usize = table.len();
    let mut i: usize = 0;
    while i < n
        invariant
            n == table@.len(),
            i <= n,
            forall|j: int| 0 <= j < i ==> (#[trigger] table_model(table@)[j]).0 != url@,
        decreases n - i,
    {
        if same_text(table[i].0.url.as_str(), url) {
            assert(is_first_manifest(table_model(table@), url@, i as int));
            return Some(i);
        }
        i += 1;
    }
    None
}

fn add_inputs(package: &Package, inputs: &Vec<(String, ManifestInput)>, found: &mut Vec<Dependency>)
    ensures
        dependency_models(final(found)@) == with_inputs(
            package@,
            input_models(inputs@),
            dependency_models(old(found)@),
        ),
{
    let n: usize = inputs.len();
    let mut i: usize = 0;
    let ghost models = input_models(inputs@);
    assert(models.take(0) =~= Seq::empty());
    while i < n
        invariant
            n == inputs@.len(),
            i <= n,
            models == input_models(inputs@),
            dependency_models(found@) == with_inputs(
                package@,
                models.take(i as int),
                dependency_models(old(found)@),
            ),
        decreases n - i,
    {
        proof {
            assert(models.take(i + 1).drop_last() =~= models.take(i as int));
            assert(models.take(i + 1).last() == models[i as int]);
        }
        if !hash_known(found, &inputs[i].1.hash) {
            let ghost before = found@;
            let dependency = Dependency::Input {
                name: inputs[i].0.clone(),
                input: copy_input(&inputs[i].1),
                package: package.duplicate(),
            };
            found.push(dependency);
            assert(dependency_models(found@) =~= dependency_models(before).push(dependency@));
        }
        i += 1;
    }
    assert(models.take(n as int) =~= models);
}

fn expand(
    table: &Vec<(Package, Manifest)>,
    idx: usize,
    busy: &mut Vec<bool>,
    found: &mut Vec<Dependency>,
) -> (r: Result<(), ResolveError>)
    requires
        idx < table@.len(),
        old(busy)@.len() == table@.len(),
        !old(busy)@[idx as int],
    ensures
        final(busy)@ == old(busy)@,
        match r {
            Ok(()) => expand_package(
                table_model(table@),
                idx as int,
                old(busy)@,
                dependency_models(old(found)@),
            ) == Ok::<Seq<DependencyModel>, ResolveFailure>(dependency_models(final(found)@)),
            Err(e) => expand_package(
                table_model(table@),
                idx as int,
                old(busy)@,
                dependency_models(old(found)@),
            ) == Err::<Seq<DependencyModel>, ResolveFailure>(e@),
        },
    decreases idle(old(busy)@),
{
    let ghost tm = table_model(table@);
    let ghost target = expand_package(tm, idx as int, busy@, dependency_models(found@));
    let package = &table[idx].0;
    let manifest = &table[idx].1;
    add_inputs(package, &manifest.inputs, found);
    busy.set(idx, true);
    proof {
        lemma_idle_after_set(old(busy)@, idx as int);
        assert(tm[idx as int].1.inputs == input_models(manifest.inputs@));
    }
    let n: usize = manifest.outputs.len();
    let mut k: usize = 0;
    while k < n
        invariant
            idx < table@.len(),
            tm == table_model(table@),
            *package == table@[idx as int].0,
            *manifest == table@[idx as int].1,
            n == manifest.outputs@.len(),
            k <= n,
            old(busy)@.len() == table@.len(),
            !old(busy)@[idx as int],
            busy@ == old(busy)@.update(idx as int, true),
            target == expand_package(
                tm,
                idx as int,
                old(busy)@,
                dependency_models(old(found)@),
            ),
            idle(busy@) < idle(old(busy)@),
            expand_outputs(tm, idx as int, busy@, k as int, dependency_models(found@)) == target,
        decreases n - k,
    {
        let output = &manifest.outputs[k].1;
        let ghost own = DependencyModel::Output {
            name: manifest.outputs@[k as int].0@,
            output: output@,
            package: package@,
        };
        proof {
            assert(tm[idx as int].1.outputs == output_models(manifest.outputs@));
            assert(tm[idx as int].1.outputs[k as int] == (manifest.outputs@[k as int].0@, output@));
            assert(tm[idx as int].0 == package@);
        }
        if hash_known(found, &output.hash) {
        } else {
            match output.format {
                ManifestOutputFormat::Package => {
                    let url = join_path(package.url.as_str(), output.path.as_str());
                    match find(table, url.as_str()) {
                        None => {
                            busy.set(idx, false);
                            assert(busy@ =~= old(busy)@);
                            return Err(ResolveError::MissingManifest(url));
                        },
                        Some(j) => {
                            if busy[j] {
                                busy.set(idx, false);
                                assert(busy@ =~= old(busy)@);
                                return Err(ResolveError::Cycle(url));
                            }
                            match expand(table, j, busy, found) {
                                Err(e) => {
                                    busy.set(idx, false);
                                    assert(busy@ =~= old(busy)@);
                                    return Err(e);
                                },
                                Ok(()) => {},
                            }
                            if !hash_known(found, &output.hash) {
                                let ghost before = found@;
                                let dependency = Dependency::Output {
                                    name: manifest.outputs[k].0.clone(),
                                    output: copy_output(output),
                                    package: package.duplicate(),
                                };
                                found.push(dependency);
                                assert(dependency_models(found@) =~= dependency_models(before).push(
                                    own,
                                ));
                            }
                        },
                    }
                },
                ManifestOutputFormat::Module => {
                    let ghost before = found@;
                    let dependency = Dependency::Output {
                        name: manifest.outputs[k].0.clone(),
                        output: copy_output(output),
                        package: package.duplicate(),
                    };
                    found.push(dependency);
                    assert(dependency_models(found@) =~= dependency_models(before).push(own));
                },
            }
        }
        k += 1;
    }
    busy.set(idx, false);
    assert(busy@ =~= old(busy)@);
    Ok(())
}

/// Lists what installing a package takes.
pub struct Resolver {}

impl Resolver {
    /// The dependencies of `package`, in an order in which they can be
    /// installed one after the other: the inputs of a package before its
    /// outputs, and what an output that is itself a package lists before
    /// that output.  No two of them have the same hash.  `manifests` holds
    /// the manifests fetched so far; where one is needed that is not among
    /// them, the error names its address.
    pub fn resolve_dependencies(package: &Package, manifests: &Vec<(Package, Manifest)>) -> (r:
        Result<Vec<Dependency>, ResolveError>)
        ensures
            match r {
                Ok(found) => resolved(table_model(manifests@), package@) == Ok::<
                    Seq<DependencyModel>,
                    ResolveFailure,
                >(dependency_models(found@)),
                Err(e) => resolved(table_model(manifests@), package@) == Err::<
                    Seq<DependencyModel>,
                    ResolveFailure,
                >(e@),
            },
    {
        match find(manifests, package.url.as_str()) {
            None => Err(ResolveError::MissingManifest(package.url.clone())),
            Some(idx) => {
                let mut busy: Vec<bool> = Vec::new();
                let n: usize = manifests.len();
                let mut i: usize = 0;
                while i < n
                    invariant
                        i <= n,
                        busy@.len() == i,
                        forall|j: int| 0 <= j < i ==> !busy@[j],
                    decreases n - i,
                {
                    busy.push(false);
                    i += 1;
                }
                assert(busy@ =~= Seq::new(manifests@.len(), |i: int| false));
                let mut found: Vec<Dependency> = Vec::new();
                assert(dependency_models(found@) =~= Seq::empty());
                match expand(manifests, idx, &mut busy, &mut found) {
                    Ok(()) => Ok(found),
                    Err(e) => Err(e),
                }
            },
        }
    }
}

/// The inputs of a manifest as dependencies of its package.
pub open spec fn input_dependencies(package: Seq<char>, inputs: Seq<(Seq<char>, InputModel)>) -> Seq<
    DependencyModel,
> {
    Seq::new(
        inputs.len(),
        |i: int| DependencyModel::Input { name: inputs[i].0, input: inputs[i].1, package },
    )
}

/// The outputs of a manifest as dependencies of its package.
pub open spec fn output_dependencies(
    package: Seq<char>,
    outputs: Seq<(Seq<char>, OutputModel)>,
) -> Seq<DependencyModel> {
    Seq::new(
        outputs.len(),
        |i: int| DependencyModel::Output { name: outputs[i].0, output: outputs[i].1, package },
    )
}

/// No two entries of the manifest, inputs and outputs taken together, have
/// the same hash.
pub open spec fn distinct_hashes(manifest: ManifestModel) -> bool {
    &&& forall|i: int, j: int|
        0 <= i < j < manifest.inputs.len() ==> (#[trigger] manifest.inputs[i]).1.hash != (
        #[trigger] manifest.inputs[j]).1.hash
    &&& forall|i: int, j: int|
        0 <= i < j < manifest.outputs.len() ==> (#[trigger] manifest.outputs[i]).1.hash != (
        #[trigger] manifest.outputs[j]).1.hash
    &&& forall|i: int, j: int|
        0 <= i < manifest.inputs.len() && 0 <= j < manifest.outputs.len() ==> (
        #[trigger] manifest.inputs[i]).1.hash != (#[trigger] manifest.outputs[j]).1.hash
}

/// No output of the manifest before the `k`th is itself a package.
pub open spec fn plain_outputs_before(manifest: ManifestModel, k: int) -> bool {
    forall|i: int|
        0 <= i < k && i < manifest.outputs.len() ==> (#[trigger] manifest.outputs[i]).1.format
            != ManifestOutputFormat::Package
}

/// Inputs with distinct hashes, added to nothing, are all there.
pub proof fn lemma_inputs_all_added(package: Seq<char>, inputs: Seq<(Seq<char>, InputModel)>)
    requires
        forall|i: int, j: int|
            0 <= i < j < inputs.len() ==> (#[trigger] inputs[i]).1.hash != (#[trigger] inputs[j]).1.hash,
    ensures
        with_inputs(package, inputs, Seq::empty()) == input_dependencies(package, inputs),
{
    lemma_new_inputs_all_added(package, inputs, Seq::empty());
    assert(Seq::<DependencyModel>::empty() + input_dependencies(package, inputs)
        =~= input_dependencies(package, inputs));
}

/// While the outputs from `from` up to `to` are no packages and their hashes
/// are new, walking them adds each of them.
pub proof fn lemma_plain_outputs_added(
    table: Seq<(Seq<char>, ManifestModel)>,
    idx: int,
    busy: Seq<bool>,
    from: int,
    to: int,
    found: Seq<DependencyModel>,
)
    requires
        0 <= idx < table.len(),
        busy.len() == table.len(),
        0 <= from <= to <= table[idx].1.outputs.len(),
        plain_outputs_before(table[idx].1, to),
        forall|i: int|
            from <= i < to ==> !has_hash(found, (#[trigger] table[idx].1.outputs[i]).1.hash),
        forall|i: int, j: int|
            0 <= i < j < table[idx].1.outputs.len() ==> (#[trigger] table[idx].1.outputs[i]).1.hash
                != (#[trigger] table[idx].1.outputs[j]).1.hash,
    ensures
        expand_outputs(table, idx, busy, from, found) == expand_outputs(
            table,
            idx,
            busy,
            to,
            found + output_dependencies(table[idx].0, table[idx].1.outputs).subrange(from, to),
        ),
    decreases to - from,
{
    let outputs = table[idx].1.outputs;
    let all = output_dependencies(table[idx].0, outputs);
    if from == to {
        assert(found + all.subrange(from, to) =~= found);
    } else {
        let own = all[from];
        assert(outputs[from].1.format != ManifestOutputFormat::Package);
        assert(!has_hash(found, outputs[from].1.hash));
        let next = found.push(own);
        assert forall|i: int| from + 1 <= i < to implies !has_hash(
            next,
            (#[trigger] outputs[i]).1.hash,
        ) by {
            if has_hash(next, outputs[i].1.hash) {
                let w = choose|w: int| 0 <= w < next.len() && (#[trigger] next[w]).hash() == outputs[i].1.hash;
                if w < found.len() {
                    assert(found[w] == next[w]);
                    assert(has_hash(found, outputs[i].1.hash));
                } else {
                    assert(outputs[from].1.hash == outputs[i].1.hash);
                }
                assert(false);
            }
        }
        lemma_plain_outputs_added(table, idx, busy, from + 1, to, next);
        assert(next + all.subrange(from + 1, to) =~= found + all.subrange(from, to));
    }
}

/// The dependencies of a package none of whose outputs is itself a package,
/// and no two of whose entries share a hash: every input and then every
/// output, each once, in the manifest's order.  With N inputs and M outputs
/// there are N + M of them.
pub proof fn law_flat_package_lists_every_entry(
    table: Seq<(Seq<char>, ManifestModel)>,
    url: Seq<char>,
    idx: int,
)
    requires
        is_first_manifest(table, url, idx),
        plain_outputs_before(table[idx].1, table[idx].1.outputs.len() as int),
        distinct_hashes(table[idx].1),
    ensures
        resolved(table, url) == Ok::<Seq<DependencyModel>, ResolveFailure>(
            input_dependencies(url, table[idx].1.inputs) + output_dependencies(
                url,
                table[idx].1.outputs,
            ),
        ),
        resolved(table, url) matches Ok(found) && found.len() == table[idx].1.inputs.len()
            + table[idx].1.outputs.len(),
{
    let manifest = table[idx].1;
    let idle_all = Seq::new(table.len(), |i: int| false);
    let busy = idle_all.update(idx, true);
    let ins = input_dependencies(url, manifest.inputs);
    let outs = output_dependencies(url, manifest.outputs);
    lemma_first_manifest_is_found(table, url, idx);
    lemma_inputs_all_added(url, manifest.inputs);
    assert forall|i: int| 0 <= i < manifest.outputs.len() implies !has_hash(
        ins,
        (#[trigger] manifest.outputs[i]).1.hash,
    ) by {
        if has_hash(ins, manifest.outputs[i].1.hash) {
            let w = choose|w: int| 0 <= w < ins.len() && (#[trigger] ins[w]).hash() == manifest.outputs[i].1.hash;
            assert(manifest.inputs[w].1.hash == manifest.outputs[i].1.hash);
            assert(false);
        }
    }
    lemma_plain_outputs_added(table, idx, busy, 0, manifest.outputs.len() as int, ins);
    assert(outs.subrange(0, manifest.outputs.len() as int) =~= outs);
}

/// The first manifest for an address is the one that `find_manifest` gives.
pub proof fn lemma_first_manifest_is_found(
    table: Seq<(Seq<char>, ManifestModel)>,
    url: Seq<char>,
    idx: int,
)
    requires
        is_first_manifest(table, url, idx),
    ensures
        find_manifest(table, url) == Some(idx),
{
    let found = choose|i: int| is_first_manifest(table, url, i);
    assert(is_first_manifest(table, url, found));
    if found < idx {
        assert(table[found].0 != url);
    }
    if idx < found {
        assert(table[idx].0 != url);
    }
}

/// Inputs with distinct hashes, none of which was found before, are all
/// added behind what was found.
pub proof fn lemma_new_inputs_all_added(
    package: Seq<char>,
    inputs: Seq<(Seq<char>, InputModel)>,
    found: Seq<DependencyModel>,
)
    requires
        forall|i: int, j: int|
            0 <= i < j < inputs.len() ==> (#[trigger] inputs[i]).1.hash != (#[trigger] inputs[j]).1.hash,
        forall|i: int| 0 <= i < inputs.len() ==> !has_hash(found, (#[trigger] inputs[i]).1.hash),
    ensures
        with_inputs(package, inputs, found) == found + input_dependencies(package, inputs),
    decreases inputs.len(),
{
    if inputs.len() == 0 {
        assert(found + input_dependencies(package, inputs) =~= found);
    } else {
        let shorter = inputs.drop_last();
        assert forall|i: int, j: int| 0 <= i < j < shorter.len() implies (#[trigger] shorter[i]).1.hash
            != (#[trigger] shorter[j]).1.hash by {
            assert(shorter[i] == inputs[i] && shorter[j] == inputs[j]);
        }
        assert forall|i: int| 0 <= i < shorter.len() implies !has_hash(
            found,
            (#[trigger] shorter[i]).1.hash,
        ) by {
            assert(shorter[i] == inputs[i]);
        }
        lemma_new_inputs_all_added(package, shorter, found);
        let before = found + input_dependencies(package, shorter);
        let last = DependencyModel::Input { name: inputs.last().0, input: inputs.last().1, package };
        if has_hash(before, last.hash()) {
            let w = choose|w: int| 0 <= w < before.len() && (#[trigger] before[w]).hash() == last.hash();
            if w < found.len() {
                assert(before[w] == found[w]);
                assert(has_hash(found, inputs[inputs.len() - 1].1.hash));
            } else {
                assert(inputs[w - found.len()].1.hash == inputs[inputs.len() - 1].1.hash);
            }
            assert(false);
        }
        assert(before.push(last) =~= found + input_dependencies(package, inputs));
    }
}

/// A package one of whose outputs is the package itself ends the walk with
/// a cycle, wherever in the walk it is entered.  The output is the `k`th, is
/// marked as a package and has the address of its own package.  That the
/// walk reaches it is asked for in three parts: no output before it is a
/// package, no two entries of the manifest share a hash, and no hash of the
/// manifest was found before the package was entered.
pub proof fn law_self_reference_is_a_cycle_at_any_depth(
    table: Seq<(Seq<char>, ManifestModel)>,
    idx: int,
    busy: Seq<bool>,
    found: Seq<DependencyModel>,
    k: int,
)
    requires
        0 <= idx < table.len(),
        busy.len() == table.len(),
        !busy[idx],
        is_first_manifest(table, table[idx].0, idx),
        0 <= k < table[idx].1.outputs.len(),
        plain_outputs_before(table[idx].1, k),
        distinct_hashes(table[idx].1),
        table[idx].1.outputs[k].1.format == ManifestOutputFormat::Package,
        joined(table[idx].0, table[idx].1.outputs[k].1.path) == table[idx].0,
        forall|i: int|
            0 <= i < table[idx].1.inputs.len() ==> !has_hash(
                found,
                (#[trigger] table[idx].1.inputs[i]).1.hash,
            ),
        forall|i: int|
            0 <= i <= k ==> !has_hash(found, (#[trigger] table[idx].1.outputs[i]).1.hash),
    ensures
        expand_package(table, idx, busy, found) == Err::<Seq<DependencyModel>, ResolveFailure>(
            ResolveFailure::Cycle(table[idx].0),
        ),
{
    let url = table[idx].0;
    let manifest = table[idx].1;
    let entered = busy.update(idx, true);
    let ins = found + input_dependencies(url, manifest.inputs);
    let outs = output_dependencies(url, manifest.outputs);
    lemma_first_manifest_is_found(table, url, idx);
    lemma_new_inputs_all_added(url, manifest.inputs, found);
    assert forall|i: int| 0 <= i <= k implies !has_hash(ins, (#[trigger] manifest.outputs[i]).1.hash) by {
        if has_hash(ins, manifest.outputs[i].1.hash) {
            let w = choose|w: int| 0 <= w < ins.len() && (#[trigger] ins[w]).hash() == manifest.outputs[i].1.hash;
            if w < found.len() {
                assert(ins[w] == found[w]);
                assert(has_hash(found, manifest.outputs[i].1.hash));
            } else {
                assert(manifest.inputs[w - found.len()].1.hash == manifest.outputs[i].1.hash);
            }
            assert(false);
        }
    }
    lemma_plain_outputs_added(table, idx, entered, 0, k, ins);
    let reached = ins + outs.subrange(0, k);
    if has_hash(reached, manifest.outputs[k].1.hash) {
        let w = choose|w: int| 0 <= w < reached.len() && (#[trigger] reached[w]).hash() == manifest.outputs[k].1.hash;
        if w < ins.len() {
            assert(reached[w] == ins[w]);
            assert(has_hash(ins, manifest.outputs[k].1.hash));
        } else {
            assert(reached[w] == outs[w - ins.len()]);
            assert(manifest.outputs[w - ins.len()].1.hash == manifest.outputs[k].1.hash);
        }
        assert(false);
    }
    assert(entered[idx]);
}

/// A package one of whose outputs is the package itself has no list of
/// dependencies: resolving it ends with a cycle.  The output is the `k`th,
/// is marked as a package and has the address of its own package; no output
/// before it is a package, and no two entries share a hash, so that the
/// walk reaches it.
pub proof fn law_self_reference_is_a_cycle(
    table: Seq<(Seq<char>, ManifestModel)>,
    url: Seq<char>,
    idx: int,
    k: int,
)
    requires
        is_first_manifest(table, url, idx),
        0 <= k < table[idx].1.outputs.len(),
        plain_outputs_before(table[idx].1, k),
        distinct_hashes(table[idx].1),
        table[idx].1.outputs[k].1.format == ManifestOutputFormat::Package,
        joined(url, table[idx].1.outputs[k].1.path) == url,
    ensures
        resolved(table, url) == Err::<Seq<DependencyModel>, ResolveFailure>(
            ResolveFailure::Cycle(url),
        ),
{
    lemma_first_manifest_is_found(table, url, idx);
    law_self_reference_is_a_cycle_at_any_depth(
        table,
        idx,
        Seq::new(table.len(), |i: int| false),
        Seq::empty(),
        k,
    );
}

/// The failure of a package that an output brings in is the failure of the
/// walk that brought it in: a cycle found anywhere below a package is what
/// resolving that package comes to.
pub proof fn law_failures_pass_up(
    table: Seq<(Seq<char>, ManifestModel)>,
    idx: int,
    busy: Seq<bool>,
    k: int,
    found: Seq<DependencyModel>,
    inner: int,
)
    requires
        0 <= idx < table.len(),
        busy.len() == table.len(),
        0 <= k < table[idx].1.outputs.len(),
        table[idx].1.outputs[k].1.format == ManifestOutputFormat::Package,
        !has_hash(found, table[idx].1.outputs[k].1.hash),
        is_first_manifest(table, joined(table[idx].0, table[idx].1.outputs[k].1.path), inner),
        !busy[inner],
        expand_package(table, inner, busy, found) is Err,
    ensures
        expand_outputs(table, idx, busy, k, found) == expand_package(table, inner, busy, found),
{
    lemma_first_manifest_is_found(
        table,
        joined(table[idx].0, table[idx].1.outputs[k].1.path),
        inner,
    );
}

/// Placing an entry in a directory never gives a shorter text, and gives the
/// directory itself only for an empty entry.  So an output can have the
/// address of a package that is being expanded only by having the address of
/// its own package: every cycle is a self-reference.
pub proof fn law_addresses_only_grow(package: Seq<char>, path: Seq<char>)
    ensures
        joined(package, path).len() >= package.len(),
        joined(package, path).len() == package.len() ==> joined(package, path) == package,
        joined(package, path) == package ==> path.len() == 0,
{
    if joined(package, path).len() == package.len() {
        assert(joined(package, path) =~= package);
    }
}

/// No two dependencies of the list have the same hash.
pub open spec fn listed_once(found: Seq<DependencyModel>) -> bool {
    forall|i: int, j: int|
        0 <= i < j < found.len() ==> (#[trigger] found[i]).hash() != (#[trigger] found[j]).hash()
}

/// `add_once` keeps a list free of repeated hashes.
pub proof fn lemma_add_once_keeps_listed_once(found: Seq<DependencyModel>, dependency: DependencyModel)
    requires
        listed_once(found),
    ensures
        listed_once(add_once(found, dependency)),
{
    if !has_hash(found, dependency.hash()) {
        let after = found.push(dependency);
        assert forall|i: int, j: int| 0 <= i < j < after.len() implies (#[trigger] after[i]).hash() != (
        #[trigger] after[j]).hash() by {
            if j == found.len() {
                assert(found[i] == after[i]);
            } else {
                assert(found[i] == after[i] && found[j] == after[j]);
            }
        }
    }
}

/// Adding the inputs of a package keeps a list free of repeated hashes.
pub proof fn lemma_inputs_keep_listed_once(
    package: Seq<char>,
    inputs: Seq<(Seq<char>, InputModel)>,
    found: Seq<DependencyModel>,
)
    requires
        listed_once(found),
    ensures
        listed_once(with_inputs(package, inputs, found)),
    decreases inputs.len(),
{
    if inputs.len() > 0 {
        lemma_inputs_keep_listed_once(package, inputs.drop_last(), found);
        lemma_add_once_keeps_listed_once(
            with_inputs(package, inputs.drop_last(), found),
            DependencyModel::Input { name: inputs.last().0, input: inputs.last().1, package },
        );
    }
}

/// Expanding a package keeps a list free of repeated hashes.
pub proof fn lemma_package_keeps_listed_once(
    table: Seq<(Seq<char>, ManifestModel)>,
    idx: int,
    busy: Seq<bool>,
    found: Seq<DependencyModel>,
)
    requires
        0 <= idx < table.len(),
        busy.len() == table.len(),
        !busy[idx],
        listed_once(found),
    ensures
        expand_package(table, idx, busy, found) matches Ok(all) ==> listed_once(all),
    decreases idle(busy), 0nat, 0nat,
{
    lemma_idle_after_set(busy, idx);
    lemma_inputs_keep_listed_once(table[idx].0, table[idx].1.inputs, found);
    lemma_outputs_keep_listed_once(
        table,
        idx,
        busy.update(idx, true),
        0,
        with_inputs(table[idx].0, table[idx].1.inputs, found),
    );
}

/// Walking the outputs of a package keeps a list free of repeated hashes.
pub proof fn lemma_outputs_keep_listed_once(
    table: Seq<(Seq<char>, ManifestModel)>,
    idx: int,
    busy: Seq<bool>,
    k: int,
    found: Seq<DependencyModel>,
)
    requires
        0 <= idx < table.len(),
        busy.len() == table.len(),
        0 <= k,
        listed_once(found),
    ensures
        expand_outputs(table, idx, busy, k, found) matches Ok(all) ==> listed_once(all),
    decreases idle(busy), 1nat, outputs_left(table, idx, k),
{
    let outputs = table[idx].1.outputs;
    if k < outputs.len() {
        let own = DependencyModel::Output {
            name: outputs[k].0,
            output: outputs[k].1,
            package: table[idx].0,
        };
        if has_hash(found, own.hash()) {
            lemma_outputs_keep_listed_once(table, idx, busy, k + 1, found);
        } else if outputs[k].1.format == ManifestOutputFormat::Package {
            let url = own.uri();
            match find_manifest(table, url) {
                None => {},
                Some(j) => {
                    assert(is_first_manifest(table, url, j));
                    if !busy[j] {
                        lemma_package_keeps_listed_once(table, j, busy, found);
                        match expand_package(table, j, busy, found) {
                            Err(_) => {},
                            Ok(inner) => {
                                lemma_add_once_keeps_listed_once(inner, own);
                                lemma_outputs_keep_listed_once(
                                    table,
                                    idx,
                                    busy,
                                    k + 1,
                                    add_once(inner, own),
                                );
                            },
                        }
                    }
                },
            }
        } else {
            lemma_add_once_keeps_listed_once(found, own);
            lemma_outputs_keep_listed_once(table, idx, busy, k + 1, found.push(own));
        }
    }
}

/// No two dependencies of a resolved list have the same hash: content that
/// appears more than once among the inputs and outputs is installed once.
pub proof fn law_resolved_lists_each_hash_once(table: Seq<(Seq<char>, ManifestModel)>, url: Seq<char>)
    ensures
        resolved(table, url) matches Ok(all) ==> listed_once(all),
{
    match find_manifest(table, url) {
        None => {},
        Some(idx) => {
            assert(is_first_manifest(table, url, idx));
            lemma_package_keeps_listed_once(
                table,
                idx,
                Seq::new(table.len(), |i: int| false),
                Seq::empty(),
            );
        },
    }
}

/// Being the front of a list carries over: the front of a front is a front.
pub proof fn lemma_front_of_front(a: Seq<DependencyModel>, b: Seq<DependencyModel>, c: Seq<DependencyModel>)
    requires
        a.is_prefix_of(b),
        b.is_prefix_of(c),
    ensures
        a.is_prefix_of(c),
{
    assert(a =~= c.subrange(0, a.len() as int)) by {
        assert forall|i: int| 0 <= i < a.len() implies a[i] == c[i] by {
            assert(a[i] == b.subrange(0, a.len() as int)[i]);
            assert(b[i] == c.subrange(0, b.len() as int)[i]);
        }
    }
}

/// Adding the inputs of a package leaves what was found at the front.
pub proof fn lemma_inputs_are_added_behind(
    package: Seq<char>,
    inputs: Seq<(Seq<char>, InputModel)>,
    found: Seq<DependencyModel>,
)
    ensures
        found.is_prefix_of(with_inputs(package, inputs, found)),
    decreases inputs.len(),
{
    if inputs.len() == 0 {
        assert(found =~= found.subrange(0, found.len() as int));
    } else {
        let before = with_inputs(package, inputs.drop_last(), found);
        let after = with_inputs(package, inputs, found);
        lemma_inputs_are_added_behind(package, inputs.drop_last(), found);
        assert(before =~= after.subrange(0, before.len() as int));
        lemma_front_of_front(found, before, after);
    }
}

/// Expanding a package leaves what was found at the front.
pub proof fn lemma_package_is_added_behind(
    table: Seq<(Seq<char>, ManifestModel)>,
    idx: int,
    busy: Seq<bool>,
    found: Seq<DependencyModel>,
)
    requires
        0 <= idx < table.len(),
        busy.len() == table.len(),
        !busy[idx],
    ensures
        expand_package(table, idx, busy, found) matches Ok(all) ==> with_inputs(
            table[idx].0,
            table[idx].1.inputs,
            found,
        ).is_prefix_of(all) && found.is_prefix_of(all),
    decreases idle(busy), 0nat, 0nat,
{
    let inputs = with_inputs(table[idx].0, table[idx].1.inputs, found);
    lemma_idle_after_set(busy, idx);
    lemma_inputs_are_added_behind(table[idx].0, table[idx].1.inputs, found);
    lemma_outputs_are_added_behind(table, idx, busy.update(idx, true), 0, inputs);
    match expand_package(table, idx, busy, found) {
        Ok(all) => {
            lemma_front_of_front(found, inputs, all);
        },
        Err(_) => {},
    }
}

/// Walking the outputs of a package leaves what was found at the front.
pub proof fn lemma_outputs_are_added_behind(
    table: Seq<(Seq<char>, ManifestModel)>,
    idx: int,
    busy: Seq<bool>,
    k: int,
    found: Seq<DependencyModel>,
)
    requires
        0 <= idx < table.len(),
        busy.len() == table.len(),
        0 <= k,
    ensures
        expand_outputs(table, idx, busy, k, found) matches Ok(all) ==> found.is_prefix_of(all),
    decreases idle(busy), 1nat, outputs_left(table, idx, k),
{
    let outputs = table[idx].1.outputs;
    if k >= outputs.len() {
        assert(found =~= found.subrange(0, found.len() as int));
    } else {
        let own = DependencyModel::Output {
            name: outputs[k].0,
            output: outputs[k].1,
            package: table[idx].0,
        };
        if has_hash(found, own.hash()) {
            lemma_outputs_are_added_behind(table, idx, busy, k + 1, found);
        } else if outputs[k].1.format == ManifestOutputFormat::Package {
            let url = own.uri();
            match find_manifest(table, url) {
                None => {},
                Some(j) => {
                    assert(is_first_manifest(table, url, j));
                    if !busy[j] {
                        lemma_package_is_added_behind(table, j, busy, found);
                        match expand_package(table, j, busy, found) {
                            Err(_) => {},
                            Ok(inner) => {
                                let next = add_once(inner, own);
                                assert(inner =~= next.subrange(0, inner.len() as int));
                                lemma_front_of_front(found, inner, next);
                                lemma_outputs_are_added_behind(table, idx, busy, k + 1, next);
                                match expand_outputs(table, idx, busy, k + 1, next) {
                                    Ok(all) => {
                                        lemma_front_of_front(found, next, all);
                                    },
                                    Err(_) => {},
                                }
                            },
                        }
                    }
                },
            }
        } else {
            let next = found.push(own);
            assert(found =~= next.subrange(0, found.len() as int));
            lemma_outputs_are_added_behind(table, idx, busy, k + 1, next);
            match expand_outputs(table, idx, busy, k + 1, next) {
                Ok(all) => {
                    lemma_front_of_front(found, next, all);
                },
                Err(_) => {},
            }
        }
    }
}

/// The order of a resolved list: the inputs of the package come first, in
/// the manifest's order and each hash once, before any of its outputs and
/// before anything that an output brings with it.
pub proof fn law_inputs_come_first(table: Seq<(Seq<char>, ManifestModel)>, url: Seq<char>, idx: int)
    requires
        is_first_manifest(table, url, idx),
    ensures
        resolved(table, url) matches Ok(all) ==> with_inputs(
            url,
            table[idx].1.inputs,
            Seq::empty(),
        ).is_prefix_of(all),
{
    lemma_first_manifest_is_found(table, url, idx);
    lemma_package_is_added_behind(table, idx, Seq::new(table.len(), |i: int| false), Seq::empty());
}

} // verus!
