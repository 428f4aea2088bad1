use spdx_update::exception::ExceptionRecord;
use spdx_update::flags::Flags;
use spdx_update::order::{at_or_before, bytes_at_or_before, sort_by_id};
use spdx_update::text::{same_text, starts_with};

fn exception(id: &str, bits: u8) -> ExceptionRecord {
    ExceptionRecord { id: id.to_string(), flags: Flags::from_bits(bits).unwrap() }
}

#[test]
fn bytes_are_compared_lexicographically() {
    assert!(bytes_at_or_before(b"", b""));
    assert!(bytes_at_or_before(b"", b"a"));
    assert!(!bytes_at_or_before(b"a", b""));
    assert!(bytes_at_or_before(b"abc", b"abc"));
    assert!(bytes_at_or_before(b"ab", b"abc"));
    assert!(!bytes_at_or_before(b"abc", b"ab"));
    assert!(bytes_at_or_before(b"abc", b"abd"));
    assert!(!bytes_at_or_before(b"abd", b"abc"));
    assert!(bytes_at_or_before(&[0x7f], &[0x80]));
    assert!(!bytes_at_or_before(&[0xff], &[0x00, 0x01]));
}

#[test]
fn identifiers_are_compared_by_bytes() {
    assert!(at_or_before("Apache-2.0", "MIT"));
    assert!(!at_or_before("MIT", "Apache-2.0"));
    assert!(at_or_before("Zlib", "bzip2-1.0.6"));
    assert!(at_or_before("0BSD", "AAL"));
    assert!(at_or_before("GFDL-1.3", "GFDL-1.3-invariants"));
    assert!(at_or_before("MIT", "MIT"));
    assert!(at_or_before("z", "\u{e9}"));
    assert!(!at_or_before("\u{e9}", "z"));
}

#[test]
fn prefixes_and_equal_texts() {
    assert!(starts_with("GPL-3.0", "GPL-"));
    assert!(starts_with("GPL-", "GPL-"));
    assert!(starts_with("anything", ""));
    assert!(!starts_with("GPL", "GPL-"));
    assert!(!starts_with("LGPL-3.0", "GPL-"));
    assert!(!starts_with("", "v"));
    assert!(same_text("xinetd", "xinetd"));
    assert!(same_text("", ""));
    assert!(!same_text("xinetd", "xinetd2"));
    assert!(!same_text("xinetd", "xinete"));
    assert!(!same_text("Xinetd", "xinetd"));
}

#[test]
fn sort_puts_identifiers_in_ascending_order() {
    let sorted = sort_by_id(vec![
        exception("b", 0),
        exception("a", 4),
        exception("C", 0),
        exception("ab", 0),
        exception("", 4),
    ]);
    let ids: Vec<&str> = sorted.iter().map(|r| r.id.as_str()).collect();
    assert_eq!(ids, vec!["", "C", "a", "ab", "b"]);
    assert_eq!(sorted[2], exception("a", 4));
    assert_eq!(sorted[0], exception("", 4));
}

#[test]
fn sort_keeps_equal_identifiers_in_their_order() {
    let sorted = sort_by_id(vec![
        exception("same", 4),
        exception("zeta", 0),
        exception("same", 0),
        exception("alpha", 0),
        exception("same", 4),
    ]);
    assert_eq!(
        sorted,
        vec![
            exception("alpha", 0),
            exception("same", 4),
            exception("same", 0),
            exception("same", 4),
            exception("zeta", 0),
        ]
    );
}

#[test]
fn sort_of_nothing_is_nothing() {
    let sorted: Vec<ExceptionRecord> = sort_by_id(Vec::new());
    assert!(sorted.is_empty());
    let one = sort_by_id(vec![exception("only", 0)]);
    assert_eq!(one, vec![exception("only", 0)]);
}
