use launcher_core::common::json::Json;
use launcher_core::games::manifest::package::AsJsonError;
use launcher_core::games::manifest::package::Package;

#[test]
fn a_package_goes_to_json_and_back() {
    let package = Package::new(String::from("https://x/pkg"));
    let document = package.to_json().expect("a document");
    assert_eq!(
        document,
        Json::Object(vec![(String::from("url"), Json::Text(String::from("https://x/pkg")))])
    );
    assert_eq!(Package::from_json(&document), Ok(Package { url: String::from("https://x/pkg") }));
    assert_eq!(package.duplicate(), package);
}

#[test]
fn a_document_without_url_is_no_package() {
    let document = Json::Object(Vec::new());
    assert_eq!(Package::from_json(&document), Err(AsJsonError::FieldNotFound("package.url")));
    assert_eq!(Package::from_json(&Json::Null), Err(AsJsonError::FieldNotFound("package.url")));
}

#[test]
fn a_url_that_is_no_string_is_invalid() {
    let document = Json::Object(vec![(String::from("url"), Json::Unsigned(1))]);
    assert_eq!(Package::from_json(&document), Err(AsJsonError::InvalidFieldValue("package.url")));
}
