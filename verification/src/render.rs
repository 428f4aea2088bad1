//! The text of the identifiers file: the upstream version, the five category
//! constants, the license table, the table of imprecise names as it was
//! handed in, and the exception table.

use vstd::prelude::*;
use vstd::string::StringExecFns;
use crate::exception::{ExceptionRecord, ExceptionRow};
use crate::flags::{Flags, IS_COPYLEFT, IS_DEPRECATED, IS_FSF_LIBRE, IS_GNU, IS_OSI_APPROVED};
use crate::license::{LicenseRecord, LicenseRow, LicenseTable};
use crate::order::views;

verus! {

/// `text` as a Rust string literal, quotes included.
pub uninterp spec fn quoted(text: Seq<char>) -> Seq<char>;

/// `format!` with `{:?}`, that is std's `Debug` for `str`: a string literal
/// that stands for `text`. Nothing more is claimed of it than that the
/// literal depends on the text alone.
#[verifier::external_body]
fn quote(text: &str) -> (literal: String)
    ensures
        literal@ == quoted(text@),
{
    format!("{:?}", text)
}

/// `text` with the name of a category added if `flags` holds its bit, after
/// ` | ` where a name stands there already.
pub open spec fn with_name(text: Seq<char>, flags: u8, flag: u8, name: Seq<char>) -> Seq<char> {
    if flags & flag != flag {
        text
    } else if text.len() == 0 {
        name
    } else {
        text + " | "@ + name
    }
}

/// The names of the categories of `flags`, joined by ` | `.
pub open spec fn category_names(flags: u8) -> Seq<char> {
    with_name(
        with_name(
            with_name(
                with_name(
                    with_name(Seq::empty(), flags, IS_DEPRECATED, "IS_DEPRECATED"@),
                    flags,
                    IS_OSI_APPROVED,
                    "IS_OSI_APPROVED"@,
                ),
                flags,
                IS_FSF_LIBRE,
                "IS_FSF_LIBRE"@,
            ),
            flags,
            IS_COPYLEFT,
            "IS_COPYLEFT"@,
        ),
        flags,
        IS_GNU,
        "IS_GNU"@,
    )
}

/// The categories of a license as an expression: their names joined by
/// ` | `, or `0x0` for none.
pub open spec fn license_flags_text(flags: u8) -> Seq<char> {
    if category_names(flags).len() == 0 {
        "0x0"@
    } else {
        category_names(flags)
    }
}

/// The categories of an exception as an expression: `IS_DEPRECATED` or `0`.
pub open spec fn exception_flags_text(flags: u8) -> Seq<char> {
    if flags & IS_DEPRECATED == IS_DEPRECATED {
        "IS_DEPRECATED"@
    } else {
        "0"@
    }
}

/// The line of a license in the table.
pub open spec fn license_line(row: LicenseRow) -> Seq<char> {
    "    (\""@ + row.id + "\", r#\""@ + row.display_name + "\"#, "@ + license_flags_text(row.flags)
        + "),\n"@
}

/// The line of an exception in the table.
pub open spec fn exception_line(row: ExceptionRow) -> Seq<char> {
    "    (\""@ + row.id + "\", "@ + exception_flags_text(row.flags) + "),\n"@
}

/// The lines of the licenses `rows`, in order.
pub open spec fn license_lines(rows: Seq<LicenseRow>) -> Seq<char>
    decreases rows.len(),
{
    if rows.len() == 0 {
        Seq::empty()
    } else {
        license_lines(rows.drop_last()) + license_line(rows.last())
    }
}

/// The lines of the exceptions `rows`, in order.
pub open spec fn exception_lines(rows: Seq<ExceptionRow>) -> Seq<char>
    decreases rows.len(),
{
    if rows.len() == 0 {
        Seq::empty()
    } else {
        exception_lines(rows.drop_last()) + exception_line(rows.last())
    }
}

/// The comment at the head of the file, which names the upstream reference
/// that was fetched.
pub open spec fn header_text(reference: Seq<char>) -> Seq<char> {
    "/*\n * list fetched from https://github.com/spdx/license-list-data @ "@ + reference
        + "\n *\n * AUTO-GENERATED BY ./update\n * DO NOT MODIFY\n *\n * cargo run --manifest-path update/Cargo.toml -- v<version> > src/identifiers.rs\n */\n\n"@
}

/// The five category constants.
pub open spec fn constants_text() -> Seq<char> {
    "pub const IS_FSF_LIBRE: u8 = 0x1;\npub const IS_OSI_APPROVED: u8 = 0x2;\npub const IS_DEPRECATED: u8 = 0x4;\npub const IS_COPYLEFT: u8 = 0x8;\npub const IS_GNU: u8 = 0x10;\n\n"@
}

/// The whole file: the header, the version constant with the literal
/// `version_literal`, the category constants, the license table, the table of
/// imprecise names, and the exception table.
pub open spec fn identifiers_text(
    reference: Seq<char>,
    version_literal: Seq<char>,
    licenses: Seq<LicenseRow>,
    imprecise: Seq<char>,
    exceptions: Seq<ExceptionRow>,
) -> Seq<char> {
    header_text(reference) + "pub const VERSION: &str = "@ + version_literal + ";\n\n"@
        + constants_text() + "pub const LICENSES: &[(&str, &str, u8)] = &[\n"@ + license_lines(
        licenses,
    ) + "];\n\n"@ + imprecise + "\npub const EXCEPTIONS: &[(&str, u8)] = &[\n"@ + exception_lines(
        exceptions,
    ) + "];\n"@
}

/// Adds the name of a category to `text` if `flags` holds its bit.
fn push_name(text: &mut String, flags: Flags, flag: u8, name: &str)
    ensures
        final(text)@ == with_name(old(text)@, flags@, flag, name@),
{
    if flags.contains(flag) {
        if !text.as_str().is_empty() {
            text.append(" | ");
        }
        text.append(name);
    }
}

/// The categories of a license as an expression.
pub fn license_flags_expression(flags: Flags) -> (text: String)
    ensures
        text@ == license_flags_text(flags@),
{
    let mut text = String::new();
    push_name(&mut text, flags, IS_DEPRECATED, "IS_DEPRECATED");
    push_name(&mut text, flags, IS_OSI_APPROVED, "IS_OSI_APPROVED");
    push_name(&mut text, flags, IS_FSF_LIBRE, "IS_FSF_LIBRE");
    push_name(&mut text, flags, IS_COPYLEFT, "IS_COPYLEFT");
    push_name(&mut text, flags, IS_GNU, "IS_GNU");
    if text.as_str().is_empty() {
        text.append("0x0");
        assert(text@ =~= "0x0"@);
    }
    text
}

/// The categories of an exception as an expression.
pub fn exception_flags_expression(flags: Flags) -> (text: String)
    ensures
        text@ == exception_flags_text(flags@),
{
    if flags.contains(IS_DEPRECATED) {
        String::from_str("IS_DEPRECATED")
    } else {
        String::from_str("0")
    }
}

/// Adds the line of the license `record` to `text`.
pub fn push_license_line(text: &mut String, record: &LicenseRecord)
    ensures
        final(text)@ == old(text)@ + license_line(record@),
{
    let expression = license_flags_expression(record.flags);
    text.append("    (\"");
    text.append(record.id.as_str());
    text.append("\", r#\"");
    text.append(record.display_name.as_str());
    text.append("\"#, ");
    text.append(expression.as_str());
    text.append("),\n");
    assert(text@ =~= old(text)@ + license_line(record@));
}

/// Adds the line of the exception `record` to `text`.
pub fn push_exception_line(text: &mut String, record: &ExceptionRecord)
    ensures
        final(text)@ == old(text)@ + exception_line(record@),
{
    let expression = exception_flags_expression(record.flags);
    text.append("    (\"");
    text.append(record.id.as_str());
    text.append("\", ");
    text.append(expression.as_str());
    text.append("),\n");
    assert(text@ =~= old(text)@ + exception_line(record@));
}

/// Adds the lines of the licenses `records` to `text`.
pub fn push_license_lines(text: &mut String, records: &Vec<LicenseRecord>)
    ensures
        final(text)@ == old(text)@ + license_lines(views(records@)),
{
    let ghost rows = views(records@);
    let mut i: usize = 0;
    assert(text@ =~= old(text)@ + license_lines(rows.take(0)));
    while i < records.len()
        invariant
            i <= records.len(),
            rows == views(records@),
            text@ == old(text)@ + license_lines(rows.take(i as int)),
        decreases records.len() - i,
    {
        push_license_line(text, &records[i]);
        proof {
            let next = rows.take(i as int + 1);
            assert(next.drop_last() =~= rows.take(i as int));
            assert(next.last() == records[i as int]@);
            assert(text@ =~= old(text)@ + license_lines(next));
        }
        i += 1;
    }
    assert(rows.take(i as int) =~= rows);
}

/// Adds the lines of the exceptions `records` to `text`.
pub fn push_exception_lines(text: &mut String, records: &Vec<ExceptionRecord>)
    ensures
        final(text)@ == old(text)@ + exception_lines(views(records@)),
{
    let ghost rows = views(records@);
    let mut i: usize = 0;
    assert(text@ =~= old(text)@ + exception_lines(rows.take(0)));
    while i < records.len()
        invariant
            i <= records.len(),
            rows == views(records@),
            text@ == old(text)@ + exception_lines(rows.take(i as int)),
        decreases records.len() - i,
    {
        push_exception_line(text, &records[i]);
        proof {
            let next = rows.take(i as int + 1);
            assert(next.drop_last() =~= rows.take(i as int));
            assert(next.last() == records[i as int]@);
            assert(text@ =~= old(text)@ + exception_lines(next));
        }
        i += 1;
    }
    assert(rows.take(i as int) =~= rows);
}

/// The text of the file, given the version constant's literal.
pub fn compose_identifiers(
    reference: &str,
    version_literal: &str,
    licenses: &Vec<LicenseRecord>,
    imprecise: &str,
    exceptions: &Vec<ExceptionRecord>,
) -> (text: String)
    ensures
        text@ == identifiers_text(
            reference@,
            version_literal@,
            views(licenses@),
            imprecise@,
            views(exceptions@),
        ),
{
    let mut text = String::from_str(
        "/*\n * list fetched from https://github.com/spdx/license-list-data @ ",
    );
    text.append(reference);
    text.append(
        "\n *\n * AUTO-GENERATED BY ./update\n * DO NOT MODIFY\n *\n * cargo run --manifest-path update/Cargo.toml -- v<version> > src/identifiers.rs\n */\n\n",
    );
    text.append("pub const VERSION: &str = ");
    text.append(version_literal);
    text.append(";\n\n");
    text.append(
        "pub const IS_FSF_LIBRE: u8 = 0x1;\npub const IS_OSI_APPROVED: u8 = 0x2;\npub const IS_DEPRECATED: u8 = 0x4;\npub const IS_COPYLEFT: u8 = 0x8;\npub const IS_GNU: u8 = 0x10;\n\n",
    );
    text.append("pub const LICENSES: &[(&str, &str, u8)] = &[\n");
    push_license_lines(&mut text, licenses);
    text.append("];\n\n");
    text.append(imprecise);
    text.append("\npub const EXCEPTIONS: &[(&str, u8)] = &[\n");
    push_exception_lines(&mut text, exceptions);
    text.append("];\n");
    assert(text@ =~= identifiers_text(
        reference@,
        version_literal@,
        views(licenses@),
        imprecise@,
        views(exceptions@),
    ));
    text
}

/// The text of the file for the license table `table`, the table of imprecise
/// names `imprecise` and the exception table `exceptions`, fetched from the
/// upstream reference `reference`.
pub fn render_identifiers(
    reference: &str,
    table: &LicenseTable,
    imprecise: &str,
    exceptions: &Vec<ExceptionRecord>,
) -> (text: String)
    ensures
        text@ == identifiers_text(
            reference@,
            quoted(table.version@),
            table.rows(),
            imprecise@,
            views(exceptions@),
        ),
{
    let literal = quote(table.version.as_str());
    compose_identifiers(reference, literal.as_str(), &table.records, imprecise, exceptions)
}

} // verus!
