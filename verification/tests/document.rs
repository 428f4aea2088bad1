use serde_json::Value;
use spdx_update::document::{
    as_document, as_element, find_bool, find_text, get, get_list, get_text,
};
use spdx_update::error::{Fault, Key, Place, SchemaError};

fn parse(text: &str) -> Value {
    serde_json::from_str(text).unwrap()
}

#[test]
fn key_names_are_those_of_the_documents() {
    assert_eq!(Key::LicenseListVersion.name(), "licenseListVersion");
    assert_eq!(Key::Licenses.name(), "licenses");
    assert_eq!(Key::Exceptions.name(), "exceptions");
    assert_eq!(Key::LicenseId.name(), "licenseId");
    assert_eq!(Key::LicenseExceptionId.name(), "licenseExceptionId");
    assert_eq!(Key::Name.name(), "name");
    assert_eq!(Key::IsDeprecatedLicenseId.name(), "isDeprecatedLicenseId");
    assert_eq!(Key::IsOsiApproved.name(), "isOsiApproved");
    assert_eq!(Key::IsFsfLibre.name(), "isFsfLibre");
}

#[test]
fn document_must_be_an_object() {
    let object = parse(r#"{"licenses": []}"#);
    assert_eq!(as_document(&object).unwrap().len(), 1);
    for text in ["[]", "null", "true", "3", "\"text\""] {
        let payload = parse(text);
        assert_eq!(
            as_document(&payload),
            Err(SchemaError { place: Place::Document, fault: Fault::NotAnObject })
        );
    }
}

#[test]
fn element_must_be_an_object() {
    let object = parse(r#"{"licenseId": "MIT"}"#);
    assert!(as_element(&object, 7).is_ok());
    let other = parse(r#"["licenseId", "MIT"]"#);
    assert_eq!(
        as_element(&other, 7),
        Err(SchemaError { place: Place::Element(7), fault: Fault::NotAnObject })
    );
}

#[test]
fn get_hands_out_the_value_under_the_key() {
    let payload = parse(r#"{"licenseId": "MIT", "name": 5, "licenses": [1, 2]}"#);
    let object = as_document(&payload).unwrap();
    assert_eq!(get(object, Place::Document, Key::LicenseId), Ok(&Value::from("MIT")));
    assert_eq!(get(object, Place::Document, Key::Name), Ok(&Value::from(5)));
    assert_eq!(
        get(object, Place::Element(2), Key::Exceptions),
        Err(SchemaError { place: Place::Element(2), fault: Fault::Missing(Key::Exceptions) })
    );
}

#[test]
fn get_text_asks_for_a_string() {
    let payload = parse(r#"{"licenseId": "MIT", "name": 5, "isOsiApproved": null}"#);
    let object = as_document(&payload).unwrap();
    assert_eq!(get_text(object, Place::Element(0), Key::LicenseId), Ok("MIT"));
    assert_eq!(
        get_text(object, Place::Element(0), Key::Name),
        Err(SchemaError { place: Place::Element(0), fault: Fault::Mistyped(Key::Name) })
    );
    assert_eq!(
        get_text(object, Place::Element(0), Key::IsOsiApproved),
        Err(SchemaError { place: Place::Element(0), fault: Fault::Mistyped(Key::IsOsiApproved) })
    );
    assert_eq!(
        get_text(object, Place::Document, Key::LicenseListVersion),
        Err(SchemaError { place: Place::Document, fault: Fault::Missing(Key::LicenseListVersion) })
    );
}

#[test]
fn get_list_asks_for_an_array() {
    let payload = parse(r#"{"licenses": [1, "two"], "exceptions": {"a": []}}"#);
    let object = as_document(&payload).unwrap();
    let list = get_list(object, Place::Document, Key::Licenses).unwrap();
    assert_eq!(list, &vec![Value::from(1), Value::from("two")]);
    assert_eq!(
        get_list(object, Place::Document, Key::Exceptions),
        Err(SchemaError { place: Place::Document, fault: Fault::Mistyped(Key::Exceptions) })
    );
    assert_eq!(
        get_list(object, Place::Document, Key::Name),
        Err(SchemaError { place: Place::Document, fault: Fault::Missing(Key::Name) })
    );
}

#[test]
fn optional_fields_are_absent_when_missing_or_mistyped() {
    let payload = parse(
        r#"{"name": "The Name", "isOsiApproved": true, "isFsfLibre": false,
            "isDeprecatedLicenseId": "true", "licenseId": 1}"#,
    );
    let object = as_document(&payload).unwrap();
    assert_eq!(find_text(object, Key::Name), Some("The Name"));
    assert_eq!(find_text(object, Key::LicenseId), None);
    assert_eq!(find_text(object, Key::LicenseExceptionId), None);
    assert_eq!(find_bool(object, Key::IsOsiApproved), Some(true));
    assert_eq!(find_bool(object, Key::IsFsfLibre), Some(false));
    assert_eq!(find_bool(object, Key::IsDeprecatedLicenseId), None);
    assert_eq!(find_bool(object, Key::Licenses), None);
}
