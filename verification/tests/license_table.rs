use serde_json::Value;
use spdx_update::error::{Fault, Key, Place, SchemaError};
use spdx_update::flags::Flags;
use spdx_update::license::{
    build_license_table, collect_records, compile_licenses, needs_invariants_variant,
    push_records, read_license, read_license_list, read_licenses, sentinel, LicenseEntry,
    LicenseList, LicenseRecord,
};

fn parse(text: &str) -> Value {
    serde_json::from_str(text).unwrap()
}

fn entry(id: &str, name: Option<&str>) -> LicenseEntry {
    LicenseEntry {
        id: id.to_string(),
        name: name.map(|n| n.to_string()),
        deprecated: None,
        osi_approved: None,
        fsf_libre: None,
    }
}

fn record(id: &str, name: &str, bits: u8) -> LicenseRecord {
    LicenseRecord {
        id: id.to_string(),
        display_name: name.to_string(),
        flags: Flags::from_bits(bits).unwrap(),
    }
}

fn ids(records: &[LicenseRecord]) -> Vec<&str> {
    records.iter().map(|r| r.id.as_str()).collect()
}

#[test]
fn sentinel_is_noassertion_without_flags() {
    assert_eq!(sentinel(), record("NOASSERTION", "NOASSERTION", 0x0));
}

#[test]
fn bare_gfdl_version_gets_an_invariants_record_first() {
    let gfdl = entry("GFDL-1.3", Some("GNU Free Documentation License v1.3"));
    let mut records = Vec::new();
    push_records(&mut records, &gfdl);
    assert_eq!(
        records,
        vec![
            record("GFDL-1.3-invariants", "GNU Free Documentation License v1.3", 0x18),
            record("GFDL-1.3", "GNU Free Documentation License v1.3", 0x18),
        ]
    );
}

#[test]
fn bare_gfdl_version_is_sorted_with_its_variant() {
    let payload = parse(
        r#"{"licenseListVersion": "3.8", "licenses": [
            {"licenseId": "GFDL-1.3", "name": "GNU Free Documentation License v1.3"}]}"#,
    );
    let table = compile_licenses(&payload).unwrap();
    assert_eq!(
        table.records,
        vec![
            record("GFDL-1.3", "GNU Free Documentation License v1.3", 0x18),
            record("GFDL-1.3-invariants", "GNU Free Documentation License v1.3", 0x18),
            record("NOASSERTION", "NOASSERTION", 0x0),
        ]
    );
}

#[test]
fn qualified_gfdl_variant_gets_no_invariants_record() {
    let mut records = Vec::new();
    push_records(&mut records, &entry("GFDL-1.3-or-later", None));
    assert_eq!(records, vec![record("GFDL-1.3-or-later", "GFDL-1.3-or-later", 0x18)]);
}

#[test]
fn invariants_rule_is_a_prefix_and_a_length() {
    assert!(needs_invariants_variant("GFDL-1.1"));
    assert!(needs_invariants_variant("GFDL-1.3"));
    assert!(needs_invariants_variant("GFDL-"));
    assert!(needs_invariants_variant("GFDL-12"));
    assert!(needs_invariants_variant("GFDL-\u{e9}\u{e9}\u{e9}"));
    assert!(!needs_invariants_variant("GFDL-\u{e9}\u{e9}\u{e9}\u{e9}"));
    assert!(!needs_invariants_variant("GFDL-1.30"));
    assert!(!needs_invariants_variant("GFDL-1.3-only"));
    assert!(!needs_invariants_variant("GFDL"));
    assert!(!needs_invariants_variant("GPL-1.0"));
    assert!(!needs_invariants_variant("LGPL-2.1"));
    assert!(!needs_invariants_variant(""));
}

#[test]
fn push_records_adds_behind_what_is_there() {
    let mut records = vec![record("first", "First", 0x1)];
    push_records(
        &mut records,
        &LicenseEntry {
            id: "MPL-2.0".to_string(),
            name: None,
            deprecated: Some(false),
            osi_approved: Some(true),
            fsf_libre: Some(true),
        },
    );
    assert_eq!(records, vec![record("first", "First", 0x1), record("MPL-2.0", "MPL-2.0", 0xb)]);
}

#[test]
fn collect_records_keeps_upstream_order_and_ends_with_the_sentinel() {
    let entries = vec![
        entry("Zlib", Some("zlib License")),
        entry("GFDL-1.1", Some("GNU FDL 1.1")),
        entry("Apache-2.0", None),
    ];
    assert_eq!(
        collect_records(&entries),
        vec![
            record("Zlib", "zlib License", 0x0),
            record("GFDL-1.1-invariants", "GNU FDL 1.1", 0x18),
            record("GFDL-1.1", "GNU FDL 1.1", 0x18),
            record("Apache-2.0", "Apache-2.0", 0x0),
            record("NOASSERTION", "NOASSERTION", 0x0),
        ]
    );
}

#[test]
fn table_of_no_license_is_the_sentinel_alone() {
    let table = build_license_table(LicenseList { version: "1.0".to_string(), entries: vec![] });
    assert_eq!(table.version, "1.0");
    assert_eq!(table.records, vec![record("NOASSERTION", "NOASSERTION", 0x0)]);
}

#[test]
fn table_is_sorted_by_the_bytes_of_the_identifier() {
    let list = LicenseList {
        version: "3.8".to_string(),
        entries: vec![
            entry("bzip2-1.0.6", None),
            entry("Zlib", None),
            entry("MIT", None),
            entry("0BSD", None),
            entry("xinetd", None),
            entry("GPL-2.0", None),
            entry("GPL-2.0+", None),
            entry("Apache-2.0", None),
        ],
    };
    let table = build_license_table(list);
    assert_eq!(
        ids(&table.records),
        vec![
            "0BSD",
            "Apache-2.0",
            "GPL-2.0",
            "GPL-2.0+",
            "MIT",
            "NOASSERTION",
            "Zlib",
            "bzip2-1.0.6",
            "xinetd",
        ]
    );
    assert!(table.records.windows(2).all(|w| w[0].id.as_bytes() <= w[1].id.as_bytes()));
    assert_eq!(table.records[8], record("xinetd", "xinetd", 0x8));
}

#[test]
fn sentinel_is_in_every_table() {
    for text in [
        r#"{"licenseListVersion": "1", "licenses": []}"#,
        r#"{"licenseListVersion": "1", "licenses": [{"licenseId": "MIT"}]}"#,
        r#"{"licenseListVersion": "1", "licenses": [{"licenseId": "Zlib"}, {"licenseId": "ZPL-2.1"}]}"#,
    ] {
        let table = compile_licenses(&parse(text)).unwrap();
        assert!(table.records.contains(&record("NOASSERTION", "NOASSERTION", 0x0)));
        assert!(!table.records.is_empty());
    }
}

#[test]
fn duplicate_identifiers_stay_in_upstream_order() {
    let list = LicenseList {
        version: "1".to_string(),
        entries: vec![
            entry("MIT", Some("second name")),
            entry("Apache-2.0", None),
            entry("MIT", Some("first name")),
        ],
    };
    let table = build_license_table(list);
    assert_eq!(
        table.records,
        vec![
            record("Apache-2.0", "Apache-2.0", 0x0),
            record("MIT", "second name", 0x0),
            record("MIT", "first name", 0x0),
            record("NOASSERTION", "NOASSERTION", 0x0),
        ]
    );
}

#[test]
fn read_license_takes_what_upstream_gives() {
    let element = parse(
        r#"{"licenseId": "GPL-2.0", "name": "GNU General Public License v2.0 only",
            "isDeprecatedLicenseId": true, "isOsiApproved": true, "isFsfLibre": false,
            "reference": "./GPL-2.0.html"}"#,
    );
    assert_eq!(
        read_license(&element, 3),
        Ok(LicenseEntry {
            id: "GPL-2.0".to_string(),
            name: Some("GNU General Public License v2.0 only".to_string()),
            deprecated: Some(true),
            osi_approved: Some(true),
            fsf_libre: Some(false),
        })
    );
}

#[test]
fn read_license_leaves_out_what_is_absent_or_mistyped() {
    let element = parse(r#"{"licenseId": "MIT", "name": 12, "isOsiApproved": "yes"}"#);
    assert_eq!(read_license(&element, 0), Ok(entry("MIT", None)));
}

#[test]
fn license_without_identifier_is_a_fault() {
    assert_eq!(
        read_license(&parse(r#"{"name": "No Id"}"#), 4),
        Err(SchemaError { place: Place::Element(4), fault: Fault::Missing(Key::LicenseId) })
    );
    assert_eq!(
        read_license(&parse(r#"{"licenseId": 17}"#), 5),
        Err(SchemaError { place: Place::Element(5), fault: Fault::Mistyped(Key::LicenseId) })
    );
    assert_eq!(
        read_license(&parse(r#""MIT""#), 6),
        Err(SchemaError { place: Place::Element(6), fault: Fault::NotAnObject })
    );
}

#[test]
fn first_faulty_license_decides() {
    let elements = parse(
        r#"[{"licenseId": "MIT"}, {"licenseId": null}, {"name": "x"}, {"licenseId": "Zlib"}]"#,
    );
    assert_eq!(
        read_licenses(elements.as_array().unwrap()),
        Err(SchemaError { place: Place::Element(1), fault: Fault::Mistyped(Key::LicenseId) })
    );
    let sound = parse(r#"[{"licenseId": "MIT"}, {"licenseId": "Zlib", "name": "zlib License"}]"#);
    assert_eq!(
        read_licenses(sound.as_array().unwrap()),
        Ok(vec![entry("MIT", None), entry("Zlib", Some("zlib License"))])
    );
}

#[test]
fn malformed_license_fails_the_whole_run() {
    let missing = parse(
        r#"{"licenseListVersion": "3.8", "licenses": [{"licenseId": "MIT"}, {"name": "No Id"}]}"#,
    );
    assert_eq!(
        compile_licenses(&missing),
        Err(SchemaError { place: Place::Element(1), fault: Fault::Missing(Key::LicenseId) })
    );
    let mistyped = parse(
        r#"{"licenseListVersion": "3.8", "licenses": [{"licenseId": ["MIT"]}, {"licenseId": "MIT"}]}"#,
    );
    assert_eq!(
        compile_licenses(&mistyped),
        Err(SchemaError { place: Place::Element(0), fault: Fault::Mistyped(Key::LicenseId) })
    );
}

#[test]
fn license_document_faults_come_in_order() {
    let fault = |text: &str| read_license_list(&parse(text)).unwrap_err();
    assert_eq!(fault("[]"), SchemaError { place: Place::Document, fault: Fault::NotAnObject });
    assert_eq!(
        fault(r#"{"licenseListVersion": 3}"#),
        SchemaError { place: Place::Document, fault: Fault::Missing(Key::Licenses) }
    );
    assert_eq!(
        fault(r#"{"licenses": {}}"#),
        SchemaError { place: Place::Document, fault: Fault::Mistyped(Key::Licenses) }
    );
    assert_eq!(
        fault(r#"{"licenses": [5]}"#),
        SchemaError { place: Place::Element(0), fault: Fault::NotAnObject }
    );
    assert_eq!(
        fault(r#"{"licenses": [{"licenseId": "MIT"}]}"#),
        SchemaError { place: Place::Document, fault: Fault::Missing(Key::LicenseListVersion) }
    );
    assert_eq!(
        fault(r#"{"licenses": [], "licenseListVersion": 3.8}"#),
        SchemaError { place: Place::Document, fault: Fault::Mistyped(Key::LicenseListVersion) }
    );
}

#[test]
fn license_document_is_read_whole() {
    let payload = parse(
        r#"{"licenseListVersion": "3.8", "releaseDate": "2020-02-09", "licenses": [
            {"licenseId": "0BSD", "name": "BSD Zero Clause License", "isOsiApproved": true},
            {"licenseId": "AGPL-1.0", "isDeprecatedLicenseId": true, "isFsfLibre": true}]}"#,
    );
    let list = read_license_list(&payload).unwrap();
    assert_eq!(list.version, "3.8");
    assert_eq!(list.entries.len(), 2);
    assert_eq!(list.entries[0].osi_approved, Some(true));
    let table = compile_licenses(&payload).unwrap();
    assert_eq!(table.version, "3.8");
    assert_eq!(
        table.records,
        vec![
            record("0BSD", "BSD Zero Clause License", 0x2),
            record("AGPL-1.0", "AGPL-1.0", 0x1d),
            record("NOASSERTION", "NOASSERTION", 0x0),
        ]
    );
}
