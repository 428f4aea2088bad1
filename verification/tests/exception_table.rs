use serde_json::Value;
use spdx_update::error::{Fault, Key, Place, SchemaError};
use spdx_update::exception::{
    build_exception_table, compile_exceptions, exception_record, read_exception,
    read_exception_list, read_exceptions, ExceptionEntry, ExceptionRecord,
};
use spdx_update::flags::{Flags, IS_COPYLEFT, IS_GNU};

fn parse(text: &str) -> Value {
    serde_json::from_str(text).unwrap()
}

fn entry(id: &str, deprecated: Option<bool>) -> ExceptionEntry {
    ExceptionEntry { id: id.to_string(), deprecated }
}

fn record(id: &str, bits: u8) -> ExceptionRecord {
    ExceptionRecord { id: id.to_string(), flags: Flags::from_bits(bits).unwrap() }
}

#[test]
fn exception_record_carries_the_deprecated_bit_or_nothing() {
    assert_eq!(exception_record(&entry("Nokia-Qt-exception-1.1", Some(true))), record("Nokia-Qt-exception-1.1", 0x4));
    assert_eq!(exception_record(&entry("LLVM-exception", Some(false))), record("LLVM-exception", 0));
    assert_eq!(exception_record(&entry("GPL-CC-1.0", None)), record("GPL-CC-1.0", 0));
}

#[test]
fn exceptions_never_carry_copyleft_or_gnu() {
    let table = build_exception_table(&vec![
        entry("GPL-3.0-linking-exception", Some(true)),
        entry("LGPL-3.0-linking-exception", None),
        entry("GPL-CC-1.0", Some(false)),
        entry("AGPL-exception", Some(true)),
    ]);
    assert_eq!(table.len(), 4);
    for record in &table {
        let bits = record.flags.bits();
        assert!(bits == 0 || bits == 0x4);
        assert_eq!(bits & (IS_COPYLEFT | IS_GNU), 0);
    }
}

#[test]
fn exception_table_is_sorted_without_additions() {
    let table = build_exception_table(&vec![
        entry("u-boot-exception-2.0", None),
        entry("Classpath-exception-2.0", None),
        entry("Nokia-Qt-exception-1.1", Some(true)),
        entry("389-exception", Some(false)),
    ]);
    assert_eq!(
        table,
        vec![
            record("389-exception", 0),
            record("Classpath-exception-2.0", 0),
            record("Nokia-Qt-exception-1.1", 0x4),
            record("u-boot-exception-2.0", 0),
        ]
    );
    assert!(build_exception_table(&vec![]).is_empty());
}

#[test]
fn read_exception_takes_the_identifier_and_the_deprecated_word() {
    let element = parse(
        r#"{"licenseExceptionId": "GCC-exception-2.0", "isDeprecatedLicenseId": false,
            "name": "GCC Runtime Library exception 2.0"}"#,
    );
    assert_eq!(read_exception(&element, 0), Ok(entry("GCC-exception-2.0", Some(false))));
    let bare = parse(r#"{"licenseExceptionId": "GCC-exception-2.0", "isDeprecatedLicenseId": 1}"#);
    assert_eq!(read_exception(&bare, 0), Ok(entry("GCC-exception-2.0", None)));
}

#[test]
fn exception_without_identifier_is_a_fault() {
    assert_eq!(
        read_exception(&parse(r#"{"licenseId": "MIT"}"#), 2),
        Err(SchemaError { place: Place::Element(2), fault: Fault::Missing(Key::LicenseExceptionId) })
    );
    assert_eq!(
        read_exception(&parse(r#"{"licenseExceptionId": false}"#), 3),
        Err(SchemaError { place: Place::Element(3), fault: Fault::Mistyped(Key::LicenseExceptionId) })
    );
    assert_eq!(
        read_exception(&parse("[]"), 9),
        Err(SchemaError { place: Place::Element(9), fault: Fault::NotAnObject })
    );
}

#[test]
fn first_faulty_exception_decides() {
    let elements = parse(r#"[{"licenseExceptionId": "a"}, 1, {"licenseExceptionId": 2}]"#);
    assert_eq!(
        read_exceptions(elements.as_array().unwrap()),
        Err(SchemaError { place: Place::Element(1), fault: Fault::NotAnObject })
    );
}

#[test]
fn exception_document_faults_come_in_order() {
    let fault = |text: &str| read_exception_list(&parse(text)).unwrap_err();
    assert_eq!(fault("7"), SchemaError { place: Place::Document, fault: Fault::NotAnObject });
    assert_eq!(
        fault(r#"{"licenses": []}"#),
        SchemaError { place: Place::Document, fault: Fault::Missing(Key::Exceptions) }
    );
    assert_eq!(
        fault(r#"{"exceptions": "none"}"#),
        SchemaError { place: Place::Document, fault: Fault::Mistyped(Key::Exceptions) }
    );
    assert_eq!(
        fault(r#"{"exceptions": [{"licenseExceptionId": "a"}, {}]}"#),
        SchemaError { place: Place::Element(1), fault: Fault::Missing(Key::LicenseExceptionId) }
    );
}

#[test]
fn exception_document_compiles_to_a_sorted_table() {
    let payload = parse(
        r#"{"licenseListVersion": "3.8", "exceptions": [
            {"licenseExceptionId": "eCos-exception-2.0", "isDeprecatedLicenseId": false},
            {"licenseExceptionId": "Nokia-Qt-exception-1.1", "isDeprecatedLicenseId": true},
            {"licenseExceptionId": "Autoconf-exception-2.0"}]}"#,
    );
    assert_eq!(
        compile_exceptions(&payload),
        Ok(vec![
            record("Autoconf-exception-2.0", 0),
            record("Nokia-Qt-exception-1.1", 0x4),
            record("eCos-exception-2.0", 0),
        ])
    );
}
