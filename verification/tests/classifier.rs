use spdx_update::classify::{classify, classify_exception, is_copyleft, is_gnu, present_and_true};
use spdx_update::flags::{IS_COPYLEFT, IS_DEPRECATED, IS_FSF_LIBRE, IS_GNU, IS_OSI_APPROVED};

#[test]
fn copyleft_identifiers() {
    assert!(is_copyleft("GPL-3.0-only"));
    assert!(is_copyleft("AGPL-3.0"));
    assert!(is_copyleft("MS-PL"));
    assert!(!is_copyleft("MIT"));
}

#[test]
fn gnu_identifiers() {
    assert!(is_gnu("LGPL-2.1-only"));
    assert!(!is_gnu("MPL-2.0"));
}

#[test]
fn every_copyleft_prefix_counts() {
    for id in [
        "AGPL-1.0",
        "CC-BY-NC-SA-4.0",
        "CC-BY-SA-3.0",
        "CECILL-2.1",
        "CPL-1.0",
        "CDDL-1.1",
        "EUPL-1.2",
        "EUPL",
        "GFDL-1.1",
        "GPL-2.0",
        "LGPL-3.0",
        "MPL-2.0",
        "NPL-1.1",
        "OSL-3.0",
    ] {
        assert!(is_copyleft(id), "{}", id);
    }
}

#[test]
fn every_exact_copyleft_name_counts() {
    for id in ["BSD-Protection", "MS-PL", "MS-RL", "Parity-6.0.0", "SISSL", "xinetd", "YPL-1.1"] {
        assert!(is_copyleft(id), "{}", id);
    }
}

#[test]
fn near_misses_are_not_copyleft() {
    for id in [
        "",
        "GPL",
        "gpl-3.0",
        "AGPL",
        "CC-BY-4.0",
        "CC-BY-NC-4.0",
        "BSD-Protection-2",
        "MS-PL-1",
        "SISSL-1.2",
        "Xinetd",
        "YPL-1.0",
        "Parity-7.0.0",
        "OpenSSL",
        "Apache-2.0",
        "EUP",
    ] {
        assert!(!is_copyleft(id), "{}", id);
    }
}

#[test]
fn gnu_family_is_four_prefixes() {
    for id in ["AGPL-3.0-only", "GFDL-1.3", "GPL-1.0", "LGPL-2.0+"] {
        assert!(is_gnu(id), "{}", id);
    }
    for id in ["", "GPL", "LGPL", "MPL-2.0", "CC-BY-SA-4.0", "NGPL", "gfdl-1.3", "XGPL-1"] {
        assert!(!is_gnu(id), "{}", id);
    }
}

#[test]
fn identifiers_with_wide_characters_are_compared_by_character() {
    assert!(is_copyleft("GPL-\u{e9}"));
    assert!(!is_copyleft("\u{e9}GPL-1"));
    assert!(!is_gnu("G\u{e9}PL-"));
}

#[test]
fn absent_and_false_count_as_unset() {
    assert!(present_and_true(Some(true)));
    assert!(!present_and_true(Some(false)));
    assert!(!present_and_true(None));
}

#[test]
fn classify_combines_all_categories() {
    let flags = classify("GPL-2.0", Some(true), Some(true), Some(true));
    assert_eq!(
        flags.bits(),
        IS_DEPRECATED | IS_OSI_APPROVED | IS_FSF_LIBRE | IS_COPYLEFT | IS_GNU
    );
    assert_eq!(flags.bits(), 0x1f);
}

#[test]
fn classify_sets_only_what_holds() {
    assert_eq!(classify("MIT", None, None, None).bits(), 0x0);
    assert_eq!(classify("MIT", Some(false), Some(true), Some(true)).bits(), 0x3);
    assert_eq!(classify("MIT", Some(true), None, Some(false)).bits(), 0x4);
    assert_eq!(classify("MPL-2.0", Some(false), Some(true), Some(true)).bits(), 0xb);
    assert_eq!(classify("MS-RL", None, Some(true), None).bits(), 0xa);
    assert_eq!(classify("GFDL-1.3", None, None, Some(true)).bits(), 0x19);
    assert_eq!(classify("AGPL-1.0", Some(true), None, None).bits(), 0x1c);
}

#[test]
fn classify_gives_the_same_flags_for_the_same_input() {
    let first = classify("LGPL-2.1-or-later", Some(false), Some(true), None);
    let second = classify("LGPL-2.1-or-later", Some(false), Some(true), None);
    assert_eq!(first, second);
    assert_eq!(first.bits(), 0x1a);
}

#[test]
fn exception_is_deprecated_or_nothing() {
    assert_eq!(classify_exception(Some(true)).bits(), 0x4);
    assert_eq!(classify_exception(Some(false)).bits(), 0);
    assert_eq!(classify_exception(None).bits(), 0);
}
