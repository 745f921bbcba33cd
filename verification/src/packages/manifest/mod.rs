//! The model of a package manifest, and what a document says as one.

pub mod v2;

use vstd::prelude::*;
use crate::common::json::Json;

verus! {

/// How the content behind an input is packed.
#[derive(Clone, Copy, Debug, PartialEq, Eq, Structural)]
pub enum ManifestInputFormat {
    /// A single file, fetched and stored as it is.
    File,
    /// The root of another package; nothing can be downloaded from it.
    Package,
}

/// What an output of a package is.
#[derive(Clone, Copy, Debug, PartialEq, Eq, Structural)]
pub enum ManifestOutputFormat {
    /// A script for the integration runtime.  The format of an output that
    /// names none.
    Module,
    /// The manifest of another package, whose inputs and outputs belong to
    /// the dependencies of this one.
    Package,
}

/// A field that a package manifest must have.
#[derive(Clone, Copy, Debug, PartialEq, Eq, Structural)]
pub enum ManifestField {
    Inputs,
    Outputs,
    InputUri,
    InputHash,
    OutputHash,
    OutputPath,
}

/// Why a document is no package manifest.
#[derive(Clone, Copy, Debug, PartialEq, Eq, Structural)]
pub enum ManifestError {
    /// `manifest_version` is absent or no string.
    MissingVersion,
    /// `manifest_version` names a version that this library does not read.
    UnknownVersion,
    /// A required field is absent or of the wrong kind.
    MissingField(ManifestField),
    /// A `hash` field is no non-empty run of hexadecimal digits.
    MalformedHash,
    /// A `format` field is present and names no known format.
    UnknownFormat,
}

/// The name of a field, as error messages give it.
pub open spec fn field_text(field: ManifestField) -> Seq<char> {
    match field {
        ManifestField::Inputs => "inputs"@,
        ManifestField::Outputs => "outputs"@,
        ManifestField::InputUri => "inputs[].uri"@,
        ManifestField::InputHash => "inputs[].hash"@,
        ManifestField::OutputHash => "outputs[].hash"@,
        ManifestField::OutputPath => "outputs[].path"@,
    }
}

/// The message of an error.
pub open spec fn error_text(error: ManifestError) -> Seq<char> {
    match error {
        ManifestError::MissingVersion => {
            "Incorrect manifest file format: `manifest_version` field is missing"@
        },
        ManifestError::UnknownVersion => "Unknown manifest version"@,
        ManifestError::MissingField(ManifestField::Inputs) => {
            "Incorrect manifest v2 file format: `inputs` field is missing"@
        },
        ManifestError::MissingField(ManifestField::Outputs) => {
            "Incorrect manifest v2 file format: `outputs` field is missing"@
        },
        ManifestError::MissingField(ManifestField::InputUri) => {
            "Incorrect manifest v2 file format: `inputs[].uri` field is missing"@
        },
        ManifestError::MissingField(ManifestField::InputHash) => {
            "Incorrect manifest v2 file format: `inputs[].hash` field is missing"@
        },
        ManifestError::MissingField(ManifestField::OutputHash) => {
            "Incorrect manifest v2 file format: `outputs[].hash` field is missing"@
        },
        ManifestError::MissingField(ManifestField::OutputPath) => {
            "Incorrect manifest v2 file format: `outputs[].path` field is missing"@
        },
        ManifestError::MalformedHash => {
            "Incorrect manifest v2 file format: `hash` field is not a hash"@
        },
        ManifestError::UnknownFormat => {
            "Incorrect manifest v2 file format: `format` field names no known format"@
        },
    }
}

impl ManifestField {
    /// The name of the field, as error messages give it.
    pub fn name(&self) -> (name: &'static str)
        ensures
            name@ == field_text(*self),
    {
        match self {
            ManifestField::Inputs => "inputs",
            ManifestField::Outputs => "outputs",
            ManifestField::InputUri => "inputs[].uri",
            ManifestField::InputHash => "inputs[].hash",
            ManifestField::OutputHash => "outputs[].hash",
            ManifestField::OutputPath => "outputs[].path",
        }
    }
}

impl ManifestError {
    /// The message of the error.
    pub fn message(&self) -> (message: &'static str)
        ensures
            message@ == error_text(*self),
    {
        match self {
            ManifestError::MissingVersion => {
                "Incorrect manifest file format: `manifest_version` field is missing"
            },
            ManifestError::UnknownVersion => "Unknown manifest version",
            ManifestError::MissingField(ManifestField::Inputs) => {
                "Incorrect manifest v2 file format: `inputs` field is missing"
            },
            ManifestError::MissingField(ManifestField::Outputs) => {
                "Incorrect manifest v2 file format: `outputs` field is missing"
            },
            ManifestError::MissingField(ManifestField::InputUri) => {
                "Incorrect manifest v2 file format: `inputs[].uri` field is missing"
            },
            ManifestError::MissingField(ManifestField::InputHash) => {
                "Incorrect manifest v2 file format: `inputs[].hash` field is missing"
            },
            ManifestError::MissingField(ManifestField::OutputHash) => {
                "Incorrect manifest v2 file format: `outputs[].hash` field is missing"
            },
            ManifestError::MissingField(ManifestField::OutputPath) => {
                "Incorrect manifest v2 file format: `outputs[].path` field is missing"
            },
            ManifestError::MalformedHash => {
                "Incorrect manifest v2 file format: `hash` field is not a hash"
            },
            ManifestError::UnknownFormat => {
                "Incorrect manifest v2 file format: `format` field names no known format"
            },
        }
    }
}

/// Something that a package is made from: where it is fetched from, how it
/// is packed, and the hash of its content.
#[derive(Debug, PartialEq, Eq)]
pub struct ManifestInput {
    pub uri: String,
    pub format: ManifestInputFormat,
    pub hash: crate::packages::hash::Hash,
}

/// What a manifest may say of an output beyond what installing it takes.
#[derive(Debug, PartialEq, Eq)]
pub struct ManifestOutputMetadata {
    pub title: Option<String>,
    pub standard: Option<u64>,
}

/// Something that a package provides: what it is, the hash of its content,
/// and its path below the address of the package.
#[derive(Debug, PartialEq, Eq)]
pub struct ManifestOutput {
    pub format: ManifestOutputFormat,
    pub hash: crate::packages::hash::Hash,
    pub path: String,
    pub metadata: ManifestOutputMetadata,
}

/// What a manifest may say of its package as a whole.
#[derive(Debug, PartialEq, Eq)]
pub struct ManifestMetadata {
    pub homepage: Option<String>,
    /// The maintainers, in the order of the document; nothing where the
    /// document names none.
    pub maintainers: Option<Vec<String>>,
}

/// A package manifest.  `inputs` and `outputs` pair each logical name with
/// its entry, in the order of the document; a manifest that `parse_v2`
/// returned holds no name twice in either.
#[derive(Debug, PartialEq, Eq)]
pub struct Manifest {
    pub manifest_version: u64,
    pub metadata: ManifestMetadata,
    pub inputs: Vec<(String, ManifestInput)>,
    pub outputs: Vec<(String, ManifestOutput)>,
}

/// An input, with texts in place of strings.
pub ghost struct InputModel {
    pub uri: Seq<char>,
    pub format: ManifestInputFormat,
    pub hash: Seq<char>,
}

/// An output, with texts in place of strings.
pub ghost struct OutputModel {
    pub format: ManifestOutputFormat,
    pub hash: Seq<char>,
    pub path: Seq<char>,
    pub title: Option<Seq<char>>,
    pub standard: Option<u64>,
}

/// A package manifest, with texts in place of strings.
pub ghost struct ManifestModel {
    pub manifest_version: u64,
    pub homepage: Option<Seq<char>>,
    pub maintainers: Option<Seq<Seq<char>>>,
    pub inputs: Seq<(Seq<char>, InputModel)>,
    pub outputs: Seq<(Seq<char>, OutputModel)>,
}

/// The text of an optional string.
pub open spec fn text_of(s: Option<String>) -> Option<Seq<char>> {
    match s {
        Some(s) => Some(s@),
        None => None,
    }
}

impl View for ManifestInput {
    type V = InputModel;

    open spec fn view(&self) -> InputModel {
        InputModel { uri: self.uri@, format: self.format, hash: self.hash@ }
    }
}

impl View for ManifestOutput {
    type V = OutputModel;

    open spec fn view(&self) -> OutputModel {
        OutputModel {
            format: self.format,
            hash: self.hash@,
            path: self.path@,
            title: text_of(self.metadata.title),
            standard: self.metadata.standard,
        }
    }
}

/// The entries of a list of inputs, each as its model.
pub open spec fn input_models(entries: Seq<(String, ManifestInput)>) -> Seq<(Seq<char>, InputModel)> {
    Seq::new(entries.len(), |i: int| (entries[i].0@, entries[i].1@))
}

/// The entries of a list of outputs, each as its model.
pub open spec fn output_models(entries: Seq<(String, ManifestOutput)>) -> Seq<
    (Seq<char>, OutputModel),
> {
    Seq::new(entries.len(), |i: int| (entries[i].0@, entries[i].1@))
}

/// The texts of a list of strings.
pub open spec fn texts(items: Seq<String>) -> Seq<Seq<char>> {
    Seq::new(items.len(), |i: int| items[i]@)
}

/// The texts of an optional list of strings.
pub open spec fn optional_texts(items: Option<Vec<String>>) -> Option<Seq<Seq<char>>> {
    match items {
        Some(items) => Some(texts(items@)),
        None => None,
    }
}

impl View for Manifest {
    type V = ManifestModel;

    open spec fn view(&self) -> ManifestModel {
        ManifestModel {
            manifest_version: self.manifest_version,
            homepage: text_of(self.metadata.homepage),
            maintainers: optional_texts(self.metadata.maintainers),
            inputs: input_models(self.inputs@),
            outputs: output_models(self.outputs@),
        }
    }
}

/// Whether some entry of `entries` has the name `name`.
pub open spec fn has_name<T>(entries: Seq<(Seq<char>, T)>, name: Seq<char>) -> bool {
    exists|i: int| 0 <= i < entries.len() && (#[trigger] entries[i]).0 == name
}

/// No name occurs twice in `entries`.
pub open spec fn distinct_names<T>(entries: Seq<(Seq<char>, T)>) -> bool {
    forall|i: int, j: int|
        0 <= i < j < entries.len() ==> (#[trigger] entries[i]).0 != (#[trigger] entries[j]).0
}

impl ManifestModel {
    /// The invariant of a manifest: no input name and no output name occurs
    /// twice, and every hash is the text of a hash.
    pub open spec fn well_formed(self) -> bool {
        &&& distinct_names(self.inputs)
        &&& distinct_names(self.outputs)
        &&& forall|i: int|
            0 <= i < self.inputs.len() ==> crate::packages::hash::is_hash_text((#[trigger] self.inputs[i]).1.hash)
        &&& forall|i: int|
            0 <= i < self.outputs.len() ==> crate::packages::hash::is_hash_text(
                (#[trigger] self.outputs[i]).1.hash,
            )
    }
}

/// The input format that `name` names: `file` or `package`.
pub open spec fn named_input_format(name: Seq<char>) -> Option<ManifestInputFormat> {
    if name == "file"@ {
        Some(ManifestInputFormat::File)
    } else if name == "package"@ {
        Some(ManifestInputFormat::Package)
    } else {
        None
    }
}

/// The output format that `name` names: `module` or `package`.
pub open spec fn named_output_format(name: Seq<char>) -> Option<ManifestOutputFormat> {
    if name == "module"@ {
        Some(ManifestOutputFormat::Module)
    } else if name == "package"@ {
        Some(ManifestOutputFormat::Package)
    } else {
        None
    }
}

/// The last segment of `uri`, the part behind its last `/`, holds a `.`:
/// the address ends in a file name with an extension.
pub open spec fn has_extension(uri: Seq<char>) -> bool {
    exists|i: int|
        0 <= i < uri.len() && #[trigger] uri[i] == '.' && forall|j: int|
            i < j < uri.len() ==> uri[j] != '/'
}

/// The format of an input that names none: a file where the address ends in
/// a file name with an extension, a package root otherwise.
pub open spec fn inferred_input_format(uri: Seq<char>) -> ManifestInputFormat {
    if has_extension(uri) {
        ManifestInputFormat::File
    } else {
        ManifestInputFormat::Package
    }
}

/// The format that an input declares.  No `format` member: none declared.
/// A `format` member that is no string, or names no input format, is an
/// error.
pub open spec fn declared_input_format(value: Json) -> Result<
    Option<ManifestInputFormat>,
    ManifestError,
> {
    match value.field("format"@) {
        None => Ok(None),
        Some(format) => match format.text() {
            None => Err(ManifestError::UnknownFormat),
            Some(name) => match named_input_format(name) {
                None => Err(ManifestError::UnknownFormat),
                Some(format) => Ok(Some(format)),
            },
        },
    }
}

/// The format that an output declares, as for an input.
pub open spec fn declared_output_format(value: Json) -> Result<
    Option<ManifestOutputFormat>,
    ManifestError,
> {
    match value.field("format"@) {
        None => Ok(None),
        Some(format) => match format.text() {
            None => Err(ManifestError::UnknownFormat),
            Some(name) => match named_output_format(name) {
                None => Err(ManifestError::UnknownFormat),
                Some(format) => Ok(Some(format)),
            },
        },
    }
}

/// The hash in member `hash` of `value`; `missing` where there is no such
/// string.
pub open spec fn hash_field(value: Json, missing: ManifestField) -> Result<Seq<char>, ManifestError> {
    match value.text_field("hash"@) {
        None => Err(ManifestError::MissingField(missing)),
        Some(text) => match crate::packages::hash::decoded_hash(text) {
            None => Err(ManifestError::MalformedHash),
            Some(digits) => Ok(digits),
        },
    }
}

/// The input that `value` describes.  The checks come in this order: `uri`,
/// `format`, `hash`; the first that fails gives the error.
pub open spec fn input_of(value: Json) -> Result<InputModel, ManifestError> {
    match value.text_field("uri"@) {
        None => Err(ManifestError::MissingField(ManifestField::InputUri)),
        Some(uri) => match declared_input_format(value) {
            Err(e) => Err(e),
            Ok(declared) => match hash_field(value, ManifestField::InputHash) {
                Err(e) => Err(e),
                Ok(hash) => Ok(
                    InputModel {
                        uri,
                        format: match declared {
                            Some(format) => format,
                            None => inferred_input_format(uri),
                        },
                        hash,
                    },
                ),
            },
        },
    }
}

/// The optional text of member `key` of an optional value.
pub open spec fn optional_text(value: Option<Json>, key: Seq<char>) -> Option<Seq<char>> {
    match value {
        Some(value) => value.text_field(key),
        None => None,
    }
}

/// The optional number of member `key` of an optional value.
pub open spec fn optional_unsigned(value: Option<Json>, key: Seq<char>) -> Option<u64> {
    match value {
        Some(value) => match value.field(key) {
            Some(number) => number.unsigned(),
            None => None,
        },
        None => None,
    }
}

/// The output that `value` describes.  The checks come in this order:
/// `format`, `hash`, `path`; the first that fails gives the error.  The
/// metadata is optional, member by member.
pub open spec fn output_of(value: Json) -> Result<OutputModel, ManifestError> {
    match declared_output_format(value) {
        Err(e) => Err(e),
        Ok(declared) => match hash_field(value, ManifestField::OutputHash) {
            Err(e) => Err(e),
            Ok(hash) => match value.text_field("path"@) {
                None => Err(ManifestError::MissingField(ManifestField::OutputPath)),
                Some(path) => Ok(
                    OutputModel {
                        format: match declared {
                            Some(format) => format,
                            None => ManifestOutputFormat::Module,
                        },
                        hash,
                        path,
                        title: optional_text(value.field("metadata"@), "title"@),
                        standard: optional_unsigned(value.field("metadata"@), "standard"@),
                    },
                ),
            },
        },
    }
}

/// The inputs that the members of an object describe, in their order.  A
/// member whose name came before is passed over, unread; the first member
/// that is read and is no input gives the error.
pub open spec fn inputs_of(members: Seq<(String, Json)>) -> Result<
    Seq<(Seq<char>, InputModel)>,
    ManifestError,
>
    decreases members.len(),
{
    if members.len() == 0 {
        Ok(Seq::empty())
    } else {
        match inputs_of(members.drop_last()) {
            Err(e) => Err(e),
            Ok(before) => if has_name(before, members.last().0@) {
                Ok(before)
            } else {
                match input_of(members.last().1) {
                    Err(e) => Err(e),
                    Ok(input) => Ok(before.push((members.last().0@, input))),
                }
            },
        }
    }
}

/// The outputs that the members of an object describe, as for the inputs.
pub open spec fn outputs_of(members: Seq<(String, Json)>) -> Result<
    Seq<(Seq<char>, OutputModel)>,
    ManifestError,
>
    decreases members.len(),
{
    if members.len() == 0 {
        Ok(Seq::empty())
    } else {
        match outputs_of(members.drop_last()) {
            Err(e) => Err(e),
            Ok(before) => if has_name(before, members.last().0@) {
                Ok(before)
            } else {
                match output_of(members.last().1) {
                    Err(e) => Err(e),
                    Ok(output) => Ok(before.push((members.last().0@, output))),
                }
            },
        }
    }
}

/// The texts of those items that are strings, in their order.
pub open spec fn strings_among(items: Seq<Json>) -> Seq<Seq<char>>
    decreases items.len(),
{
    if items.len() == 0 {
        Seq::empty()
    } else {
        match items.last().text() {
            Some(text) => strings_among(items.drop_last()).push(text),
            None => strings_among(items.drop_last()),
        }
    }
}

/// The maintainers that a manifest names: the strings of the array
/// `metadata.maintainers`, and nothing where there is no such array.
pub open spec fn maintainers_of(document: Json) -> Option<Seq<Seq<char>>> {
    match document.field("metadata"@) {
        Some(metadata) => match metadata.field("maintainers"@) {
            Some(list) => match list.items() {
                Some(items) => Some(strings_among(items)),
                None => None,
            },
            None => None,
        },
        None => None,
    }
}

/// The members of the object in member `key` of `document`.
pub open spec fn object_field(document: Json, key: Seq<char>) -> Option<Seq<(String, Json)>> {
    match document.field(key) {
        Some(value) => value.members(),
        None => None,
    }
}

/// The package manifest that a document of version 2 describes.  `inputs`
/// is checked first, then `outputs`, then the inputs one by one, then the
/// outputs one by one; the first check that fails gives the error.
pub open spec fn manifest_v2_of(document: Json) -> Result<ManifestModel, ManifestError> {
    match object_field(document, "inputs"@) {
        None => Err(ManifestError::MissingField(ManifestField::Inputs)),
        Some(inputs) => match object_field(document, "outputs"@) {
            None => Err(ManifestError::MissingField(ManifestField::Outputs)),
            Some(outputs) => match inputs_of(inputs) {
                Err(e) => Err(e),
                Ok(inputs) => match outputs_of(outputs) {
                    Err(e) => Err(e),
                    Ok(outputs) => Ok(
                        ManifestModel {
                            manifest_version: 2,
                            homepage: optional_text(document.field("metadata"@), "homepage"@),
                            maintainers: maintainers_of(document),
                            inputs,
                            outputs,
                        },
                    ),
                },
            },
        },
    }
}

/// The package manifest that a document describes: that of version 2 where
/// `manifest_version` is the string `2`.
pub open spec fn manifest_of(document: Json) -> Result<ManifestModel, ManifestError> {
    match document.text_field("manifest_version"@) {
        None => Err(ManifestError::MissingVersion),
        Some(version) => if version == "2"@ {
            manifest_v2_of(document)
        } else {
            Err(ManifestError::UnknownVersion)
        },
    }
}

} // verus!
