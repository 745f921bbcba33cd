//! The identity of a package.

use vstd::prelude::*;
use crate::common::json::Json;

verus! {

/// What a user asks to install: a package, known by the address of its
/// manifest.
#[derive(Debug, PartialEq, Eq, Hash)]
pub struct Package {
    pub url: String,
}

/// Why a document does not describe a value.  Each error names the field
/// that it is about.
#[derive(Clone, Copy, Debug, PartialEq, Eq)]
pub enum AsJsonError {
    /// The document lacks the field.
    FieldNotFound(&'static str),
    /// The field holds a value of the wrong kind.
    InvalidFieldValue(&'static str),
}

/// The address in the document of a package: the string in its member `url`.
pub open spec fn package_url_of(document: Json) -> Result<Seq<char>, AsJsonError> {
    match document.field("url"@) {
        None => Err(AsJsonError::FieldNotFound("package.url")),
        Some(value) => match value.text() {
            None => Err(AsJsonError::InvalidFieldValue("package.url")),
            Some(url) => Ok(url),
        },
    }
}

impl View for Package {
    type V = Seq<char>;

    /// The address of the package.
    open spec fn view(&self) -> Seq<char> {
        self.url@
    }
}

impl Package {
    /// The package at that address.
    pub fn new(url: String) -> (package: Package)
        ensures
            package@ == url@,
    {
        Package { url }
    }

    /// A copy of the package.
    pub fn duplicate(&self) -> (package: Package)
        ensures
            package@ == self@,
    {
        Package { url: self.url.clone() }
    }

    /// The document of the package: an object with the one member `url`.
    pub fn to_json(&self) -> (r: Result<Json, AsJsonError>)
        ensures
            r is Ok,
            r.unwrap().members() is Some,
            r.unwrap().members().unwrap().len() == 1,
            package_url_of(r.unwrap()) == Ok::<Seq<char>, AsJsonError>(self@),
    {
        let mut members: Vec<(String, Json)> = Vec::new();
        members.push((String::from_str("url"), Json::Text(self.url.clone())));
        let doc = Json::Object(members);
        assert(crate::common::json::lookup(doc.members().unwrap(), "url"@) == Some(
            doc.members().unwrap()[0].1,
        ));
        Ok(doc)
    }

    /// The package that a document describes.
    pub fn from_json(json: &Json) -> (r: Result<Package, AsJsonError>)
        ensures
            match r {
                Ok(package) => package_url_of(*json) == Ok::<Seq<char>, AsJsonError>(package@),
                Err(e) => package_url_of(*json) == Err::<Seq<char>, AsJsonError>(e),
            },
    {
        match json.get("url") {
            None => Err(AsJsonError::FieldNotFound("package.url")),
            Some(value) => match value.as_str() {
                None => Err(AsJsonError::InvalidFieldValue("package.url")),
                Some(url) => Ok(Package { url: String::from_str(url) }),
            },
        }
    }
}

} // verus!
