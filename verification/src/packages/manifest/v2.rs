//! The reader of package manifests of version 2.

use vstd::prelude::*;
use crate::common::json::Json;
use crate::common::text::{same_text, to_chars};
use crate::packages::manifest::{
    InputModel, Manifest, ManifestError, ManifestField, ManifestInput, ManifestInputFormat,
    ManifestMetadata, ManifestModel, ManifestOutput, ManifestOutputFormat, ManifestOutputMetadata,
    OutputModel, declared_input_format, declared_output_format, distinct_names, has_extension,
    has_name, hash_field, inferred_input_format, input_models, input_of, inputs_of, maintainers_of,
    manifest_of, manifest_v2_of, named_input_format, named_output_format, object_field,
    optional_text, optional_texts, optional_unsigned, output_models, output_of, outputs_of,
    strings_among, text_of, texts,
};

verus! {

impl ManifestInputFormat {
    /// The input format of that name, if there is one.
    pub fn from_str(name: &str) -> (format: Option<ManifestInputFormat>)
        ensures
            format == named_input_format(name@),
    {
        if same_text(name, "file") {
            Some(ManifestInputFormat::File)
        } else if same_text(name, "package") {
            Some(ManifestInputFormat::Package)
        } else {
            None
        }
    }

    /// The format of an input that declares none, told from its address.
    pub fn from_uri(uri: &str) -> (format: ManifestInputFormat)
        ensures
            format == inferred_input_format(uri@),
    {
        let chars = to_chars(uri);
        let n: usize = chars.len();
        let mut i: usize = n;
        while i > 0
            invariant
                n == chars@.len(),
                chars@ == uri@,
                i <= n,
                forall|j: int| i <= j < n ==> chars@[j] != '/' && chars@[j] != '.',
            decreases i,
        {
            i -= 1;
            let c = chars[i];
            if c == '.' {
                assert(has_extension(uri@)) by {
                    assert(uri@[i as int] == '.');
                }
                return ManifestInputFormat::File;
            }
            if c == '/' {
                assert(!has_extension(uri@)) by {
                    if has_extension(uri@) {
                        let k = choose|k: int|
                            0 <= k < uri@.len() && #[trigger] uri@[k] == '.' && forall|j: int|
                                k < j < uri@.len() ==> uri@[j] != '/';
                        assert(k < i);
                        assert(uri@[i as int] == '/');
                    }
                }
                return ManifestInputFormat::Package;
            }
        }
        ManifestInputFormat::Package
    }
}

impl ManifestOutputFormat {
    /// The output format of that name, if there is one.
    pub fn from_str(name: &str) -> (format: Option<ManifestOutputFormat>)
        ensures
            format == named_output_format(name@),
    {
        if same_text(name, "module") {
            Some(ManifestOutputFormat::Module)
        } else if same_text(name, "package") {
            Some(ManifestOutputFormat::Package)
        } else {
            None
        }
    }
}

fn input_format_field(value: &Json) -> (r: Result<Option<ManifestInputFormat>, ManifestError>)
    ensures
        r == declared_input_format(*value),
{
    match value.get("format") {
        None => Ok(None),
        Some(format) => match format.as_str() {
            None => Err(ManifestError::UnknownFormat),
            Some(name) => match ManifestInputFormat::from_str(name) {
                None => Err(ManifestError::UnknownFormat),
                Some(format) => Ok(Some(format)),
            },
        },
    }
}

fn output_format_field(value: &Json) -> (r: Result<Option<ManifestOutputFormat>, ManifestError>)
    ensures
        r == declared_output_format(*value),
{
    match value.get("format") {
        None => Ok(None),
        Some(format) => match format.as_str() {
            None => Err(ManifestError::UnknownFormat),
            Some(name) => match ManifestOutputFormat::from_str(name) {
                None => Err(ManifestError::UnknownFormat),
                Some(format) => Ok(Some(format)),
            },
        },
    }
}

fn parse_hash(value: &Json, missing: ManifestField) -> (r: Result<crate::packages::hash::Hash, ManifestError>)
    ensures
        match r {
            Ok(hash) => hash_field(*value, missing) == Ok::<Seq<char>, ManifestError>(hash@),
            Err(e) => hash_field(*value, missing) == Err::<Seq<char>, ManifestError>(e),
        },
{
    match value.get_str("hash") {
        None => Err(ManifestError::MissingField(missing)),
        Some(text) => match crate::packages::hash::Hash::parse(text) {
            None => Err(ManifestError::MalformedHash),
            Some(hash) => Ok(hash),
        },
    }
}

/// Reads one input of a package manifest.
pub fn parse_input(value: &Json) -> (r: Result<ManifestInput, ManifestError>)
    ensures
        match r {
            Ok(input) => input_of(*value) == Ok::<InputModel, ManifestError>(input@),
            Err(e) => input_of(*value) == Err::<InputModel, ManifestError>(e),
        },
{
    let uri = match value.get_str("uri") {
        None => {
            return Err(ManifestError::MissingField(ManifestField::InputUri));
        },
        Some(uri) => uri,
    };
    let format = match input_format_field(value) {
        Err(e) => {
            return Err(e);
        },
        Ok(Some(format)) => format,
        Ok(None) => ManifestInputFormat::from_uri(uri),
    };
    let hash = match parse_hash(value, ManifestField::InputHash) {
        Err(e) => {
            return Err(e);
        },
        Ok(hash) => hash,
    };
    Ok(ManifestInput { uri: String::from_str(uri), format, hash })
}

fn optional_string(value: Option<&Json>, key: &str) -> (r: Option<String>)
    ensures
        text_of(r) == optional_text(
            match value {
                Some(v) => Some(*v),
                None => None,
            },
            key@,
        ),
{
    match value {
        Some(value) => match value.get_str(key) {
            Some(text) => Some(String::from_str(text)),
            None => None,
        },
        None => None,
    }
}

fn optional_number(value: Option<&Json>, key: &str) -> (r: Option<u64>)
    ensures
        r == optional_unsigned(
            match value {
                Some(v) => Some(*v),
                None => None,
            },
            key@,
        ),
{
    match value {
        Some(value) => match value.get(key) {
            Some(number) => number.as_u64(),
            None => None,
        },
        None => None,
    }
}

/// Reads one output of a package manifest.
pub fn parse_output(value: &Json) -> (r: Result<ManifestOutput, ManifestError>)
    ensures
        match r {
            Ok(output) => output_of(*value) == Ok::<OutputModel, ManifestError>(output@),
            Err(e) => output_of(*value) == Err::<OutputModel, ManifestError>(e),
        },
{
    let format = match output_format_field(value) {
        Err(e) => {
            return Err(e);
        },
        Ok(Some(format)) => format,
        Ok(None) => ManifestOutputFormat::Module,
    };
    let hash = match parse_hash(value, ManifestField::OutputHash) {
        Err(e) => {
            return Err(e);
        },
        Ok(hash) => hash,
    };
    let path = match value.get_str("path") {
        None => {
            return Err(ManifestError::MissingField(ManifestField::OutputPath));
        },
        Some(path) => String::from_str(path),
    };
    let metadata = value.get("metadata");
    let title = optional_string(metadata, "title");
    let standard = optional_number(metadata, "standard");
    Ok(ManifestOutput { format, hash, path, metadata: ManifestOutputMetadata { title, standard } })
}

/// Once the members read so far give an error, more members change nothing.
pub proof fn lemma_input_error_stays(members: Seq<(String, Json)>, k: int)
    requires
        0 <= k <= members.len(),
        inputs_of(members.take(k)) is Err,
    ensures
        inputs_of(members) == inputs_of(members.take(k)),
    decreases members.len(),
{
    if k == members.len() {
        assert(members.take(k) =~= members);
    } else {
        assert(members.drop_last().take(k) =~= members.take(k));
        lemma_input_error_stays(members.drop_last(), k);
    }
}

/// Once the members read so far give an error, more members change nothing.
pub proof fn lemma_output_error_stays(members: Seq<(String, Json)>, k: int)
    requires
        0 <= k <= members.len(),
        outputs_of(members.take(k)) is Err,
    ensures
        outputs_of(members) == outputs_of(members.take(k)),
    decreases members.len(),
{
    if k == members.len() {
        assert(members.take(k) =~= members);
    } else {
        assert(members.drop_last().take(k) =~= members.take(k));
        lemma_output_error_stays(members.drop_last(), k);
    }
}

fn names_input(entries: &Vec<(String, ManifestInput)>, name: &str) -> (r: bool)
    ensures
        r == has_name(input_models(entries@), name@),
{
    let n: usize = entries.len();
    let mut i: usize = 0;
    while i < n
        invariant
            n == entries@.len(),
            i <= n,
            forall|j: int| 0 <= j < i ==> (#[trigger] input_models(entries@)[j]).0 != name@,
        decreases n - i,
    {
        if same_text(entries[i].0.as_str(), name) {
            assert(input_models(entries@)[i as int].0 == name@);
            return true;
        }
        i += 1;
    }
    false
}

fn names_output(entries: &Vec<(String, ManifestOutput)>, name: &str) -> (r: bool)
    ensures
        r == has_name(output_models(entries@), name@),
{
    let n: usize = entries.len();
    let mut i: usize = 0;
    while i < n
        invariant
            n == entries@.len(),
            i <= n,
            forall|j: int| 0 <= j < i ==> (#[trigger] output_models(entries@)[j]).0 != name@,
        decreases n - i,
    {
        if same_text(entries[i].0.as_str(), name) {
            assert(output_models(entries@)[i as int].0 == name@);
            return true;
        }
        i += 1;
    }
    false
}

/// Reads the inputs of a package manifest from the members of its `inputs`
/// object.
pub fn parse_inputs(members: &Vec<(String, Json)>) -> (r: Result<
    Vec<(String, ManifestInput)>,
    ManifestError,
>)
    ensures
        match r {
            Ok(inputs) => inputs_of(members@) == Ok::<Seq<(Seq<char>, InputModel)>, ManifestError>(
                input_models(inputs@),
            ),
            Err(e) => inputs_of(members@) == Err::<Seq<(Seq<char>, InputModel)>, ManifestError>(e),
        },
{
    let mut inputs: Vec<(String, ManifestInput)> = Vec::new();
    let n: usize = members.len();
    let mut i: usize = 0;
    assert(input_models(inputs@) =~= Seq::empty());
    while i < n
        invariant
            n == members@.len(),
            i <= n,
            inputs_of(members@.take(i as int)) == Ok::<Seq<(Seq<char>, InputModel)>, ManifestError>(
                input_models(inputs@),
            ),
        decreases n - i,
    {
        proof {
            assert(members@.take(i + 1).drop_last() =~= members@.take(i as int));
            assert(members@.take(i + 1).last() == members@[i as int]);
        }
        let name = members[i].0.as_str();
        if !names_input(&inputs, name) {
            match parse_input(&members[i].1) {
                Ok(input) => {
                    let ghost before = inputs@;
                    inputs.push((String::from_str(name), input));
                    assert(input_models(inputs@) =~= input_models(before).push(
                        (name@, input@),
                    ));
                },
                Err(e) => {
                    proof {
                        lemma_input_error_stays(members@, i + 1);
                    }
                    return Err(e);
                },
            }
        }
        i += 1;
    }
    assert(members@.take(n as int) =~= members@);
    Ok(inputs)
}

/// Reads the outputs of a package manifest from the members of its `outputs`
/// object.
pub fn parse_outputs(members: &Vec<(String, Json)>) -> (r: Result<
    Vec<(String, ManifestOutput)>,
    ManifestError,
>)
    ensures
        match r {
            Ok(outputs) => outputs_of(members@) == Ok::<
                Seq<(Seq<char>, OutputModel)>,
                ManifestError,
            >(output_models(outputs@)),
            Err(e) => outputs_of(members@) == Err::<Seq<(Seq<char>, OutputModel)>, ManifestError>(
                e,
            ),
        },
{
    let mut outputs: Vec<(String, ManifestOutput)> = Vec::new();
    let n: usize = members.len();
    let mut i: usize = 0;
    assert(output_models(outputs@) =~= Seq::empty());
    while i < n
        invariant
            n == members@.len(),
            i <= n,
            outputs_of(members@.take(i as int)) == Ok::<
                Seq<(Seq<char>, OutputModel)>,
                ManifestError,
            >(output_models(outputs@)),
        decreases n - i,
    {
        proof {
            assert(members@.take(i + 1).drop_last() =~= members@.take(i as int));
            assert(members@.take(i + 1).last() == members@[i as int]);
        }
        let name = members[i].0.as_str();
        if !names_output(&outputs, name) {
            match parse_output(&members[i].1) {
                Ok(output) => {
                    let ghost before = outputs@;
                    outputs.push((String::from_str(name), output));
                    assert(output_models(outputs@) =~= output_models(before).push(
                        (name@, output@),
                    ));
                },
                Err(e) => {
                    proof {
                        lemma_output_error_stays(members@, i + 1);
                    }
                    return Err(e);
                },
            }
        }
        i += 1;
    }
    assert(members@.take(n as int) =~= members@);
    Ok(outputs)
}

fn parse_maintainers(document: &Json) -> (names: Option<Vec<String>>)
    ensures
        optional_texts(names) == maintainers_of(*document),
{
    let items = match document.get("metadata") {
        Some(metadata) => match metadata.get("maintainers") {
            Some(list) => match list.as_array() {
                Some(items) => items,
                None => {
                    return None;
                },
            },
            None => {
                return None;
            },
        },
        None => {
            return None;
        },
    };
    let mut names: Vec<String> = Vec::new();
    assert(texts(names@) =~= Seq::empty());
    let n: usize = items.len();
    let mut i: usize = 0;
    assert(items@.take(0) =~= Seq::empty());
    while i < n
        invariant
            n == items@.len(),
            i <= n,
            texts(names@) == strings_among(items@.take(i as int)),
        decreases n - i,
    {
        proof {
            assert(items@.take(i + 1).drop_last() =~= items@.take(i as int));
            assert(items@.take(i + 1).last() == items@[i as int]);
        }
        match items[i].as_str() {
            Some(text) => {
                let ghost before = names@;
                names.push(String::from_str(text));
                assert(texts(names@) =~= texts(before).push(text@));
            },
            None => {},
        }
        i += 1;
    }
    assert(items@.take(n as int) =~= items@);
    Some(names)
}

/// The digits that a hash decodes to are the text of a hash.
pub proof fn lemma_decoded_hash_is_hash_text(text: Seq<char>)
    requires
        crate::packages::hash::decoded_hash(text) is Some,
    ensures
        crate::packages::hash::is_hash_text(crate::packages::hash::decoded_hash(text).unwrap()),
{
    let digits = crate::packages::hash::decoded_hash(text).unwrap();
    assert forall|i: int| 0 <= i < digits.len() implies crate::packages::hash::is_hex_digit(
        #[trigger] digits[i],
    ) by {
        assert(crate::packages::hash::hex_digit_of(text[i]) is Some);
    }
}

/// The inputs read from an object hold no name twice, and every hash among
/// them is the text of a hash.
pub proof fn lemma_inputs_well_formed(members: Seq<(String, Json)>)
    requires
        inputs_of(members) is Ok,
    ensures
        distinct_names(inputs_of(members).unwrap()),
        forall|i: int|
            0 <= i < inputs_of(members).unwrap().len() ==> crate::packages::hash::is_hash_text(
                (#[trigger] inputs_of(members).unwrap()[i]).1.hash,
            ),
    decreases members.len(),
{
    if members.len() > 0 {
        lemma_inputs_well_formed(members.drop_last());
        let before = inputs_of(members.drop_last()).unwrap();
        if !has_name(before, members.last().0@) {
            let value = members.last().1;
            lemma_decoded_hash_is_hash_text(value.text_field("hash"@).unwrap());
        }
    }
}

/// The outputs read from an object hold no name twice, and every hash among
/// them is the text of a hash.
pub proof fn lemma_outputs_well_formed(members: Seq<(String, Json)>)
    requires
        outputs_of(members) is Ok,
    ensures
        distinct_names(outputs_of(members).unwrap()),
        forall|i: int|
            0 <= i < outputs_of(members).unwrap().len() ==> crate::packages::hash::is_hash_text(
                (#[trigger] outputs_of(members).unwrap()[i]).1.hash,
            ),
    decreases members.len(),
{
    if members.len() > 0 {
        lemma_outputs_well_formed(members.drop_last());
        let before = outputs_of(members.drop_last()).unwrap();
        if !has_name(before, members.last().0@) {
            let value = members.last().1;
            lemma_decoded_hash_is_hash_text(value.text_field("hash"@).unwrap());
        }
    }
}

/// A manifest read from a document keeps the invariant of manifests.
pub proof fn law_parsed_manifest_is_well_formed(document: Json)
    requires
        manifest_v2_of(document) is Ok,
    ensures
        manifest_v2_of(document).unwrap().well_formed(),
{
    lemma_inputs_well_formed(object_field(document, "inputs"@).unwrap());
    lemma_outputs_well_formed(object_field(document, "outputs"@).unwrap());
}

/// Reads a package manifest of version 2.  The member `manifest_version` is
/// not looked at: `parse_manifest` does that.
pub fn parse_v2(manifest: &Json) -> (r: Result<Manifest, ManifestError>)
    ensures
        match r {
            Ok(m) => manifest_v2_of(*manifest) == Ok::<ManifestModel, ManifestError>(m@)
                && m@.well_formed(),
            Err(e) => manifest_v2_of(*manifest) == Err::<ManifestModel, ManifestError>(e),
        },
{
    let input_members = match manifest.get("inputs") {
        Some(value) => match value.as_object() {
            Some(members) => members,
            None => {
                return Err(ManifestError::MissingField(ManifestField::Inputs));
            },
        },
        None => {
            return Err(ManifestError::MissingField(ManifestField::Inputs));
        },
    };
    let output_members = match manifest.get("outputs") {
        Some(value) => match value.as_object() {
            Some(members) => members,
            None => {
                return Err(ManifestError::MissingField(ManifestField::Outputs));
            },
        },
        None => {
            return Err(ManifestError::MissingField(ManifestField::Outputs));
        },
    };
    let inputs = match parse_inputs(input_members) {
        Ok(inputs) => inputs,
        Err(e) => {
            return Err(e);
        },
    };
    let outputs = match parse_outputs(output_members) {
        Ok(outputs) => outputs,
        Err(e) => {
            return Err(e);
        },
    };
    let homepage = optional_string(manifest.get("metadata"), "homepage");
    let maintainers = parse_maintainers(manifest);
    proof {
        law_parsed_manifest_is_well_formed(*manifest);
    }
    Ok(
        Manifest {
            manifest_version: 2,
            metadata: ManifestMetadata { homepage, maintainers },
            inputs,
            outputs,
        },
    )
}

/// Reads a package manifest, of the version that `manifest_version` names.
/// A document without that member, and one that names a version other than
/// `2`, are refused with an error of their own each.
pub fn parse_manifest(document: &Json) -> (r: Result<Manifest, ManifestError>)
    ensures
        match r {
            Ok(m) => manifest_of(*document) == Ok::<ManifestModel, ManifestError>(m@)
                && m@.well_formed(),
            Err(e) => manifest_of(*document) == Err::<ManifestModel, ManifestError>(e),
        },
{
    match document.get_str("manifest_version") {
        None => Err(ManifestError::MissingVersion),
        Some(version) => if same_text(version, "2") {
            parse_v2(document)
        } else {
            Err(ManifestError::UnknownVersion)
        },
    }
}

} // verus!
