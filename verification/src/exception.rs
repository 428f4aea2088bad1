//! The exception table: one record for each upstream exception, sorted by
//! identifier.

use vstd::prelude::*;
use crate::classify::{classify_exception, exception_bits, lemma_exception_bits_exact};
use crate::document::{
    as_document, as_element, document_of, element_of, find_bool, get_list, get_text,
    optional_bool, required_list, required_text,
};
use crate::error::{Key, Place, SchemaError};
use crate::flags::{Flags, IS_COPYLEFT, IS_DEPRECATED, IS_GNU};
use crate::json::{items_of, json_of, Json};
use crate::listing::{
    all_or_first_fault, is_first_fault, lemma_first_fault_decides, lemma_some_fault_is_first,
};
use crate::order::{is_stable_sort_of, sort_by_id, sorted_by_id, views, Identified};

verus! {

/// An element of the upstream exception list, once it has been found sound.
#[derive(Clone, Debug, PartialEq, Eq)]
pub struct ExceptionEntry {
    /// The identifier.
    pub id: String,
    /// Upstream's word on whether the identifier is deprecated.
    pub deprecated: Option<bool>,
}

/// What an `ExceptionEntry` holds.
pub struct ExceptionEntryView {
    pub id: Seq<char>,
    pub deprecated: Option<bool>,
}

impl View for ExceptionEntry {
    type V = ExceptionEntryView;

    open spec fn view(&self) -> ExceptionEntryView {
        ExceptionEntryView { id: self.id@, deprecated: self.deprecated }
    }
}

/// A line of the exception table.
#[derive(Clone, Debug, PartialEq, Eq)]
pub struct ExceptionRecord {
    /// The identifier.
    pub id: String,
    /// The deprecated category, or none.
    pub flags: Flags,
}

/// What an `ExceptionRecord` holds.
pub struct ExceptionRow {
    pub id: Seq<char>,
    pub flags: u8,
}

impl View for ExceptionRecord {
    type V = ExceptionRow;

    open spec fn view(&self) -> ExceptionRow {
        ExceptionRow { id: self.id@, flags: self.flags@ }
    }
}

impl Identified for ExceptionRecord {
    open spec fn id_of(entry: ExceptionRow) -> Seq<char> {
        entry.id
    }

    fn id(&self) -> (id: &str) {
        self.id.as_str()
    }
}

/// The line of `entry`.
pub open spec fn exception_row_of(entry: ExceptionEntryView) -> ExceptionRow {
    ExceptionRow { id: entry.id, flags: exception_bits(entry.deprecated) }
}

/// The lines of the table before they are sorted: one for each entry, in
/// order.
pub open spec fn unsorted_exception_rows(entries: Seq<ExceptionEntryView>) -> Seq<ExceptionRow> {
    entries.map_values(|entry: ExceptionEntryView| exception_row_of(entry))
}

/// `rows` are the lines of the exception table of `entries`.
pub open spec fn is_exception_table_of(
    rows: Seq<ExceptionRow>,
    entries: Seq<ExceptionEntryView>,
) -> bool {
    is_stable_sort_of::<ExceptionRecord>(rows, unsorted_exception_rows(entries))
}

/// What the element at position `index` of the exception list holds, or what
/// is wrong with it.
pub open spec fn exception_entry_of(element: Json, index: usize) -> Result<
    ExceptionEntryView,
    SchemaError,
> {
    match element_of(element, index) {
        Err(fault) => Err(fault),
        Ok(members) => match required_text(
            members,
            Place::Element(index),
            Key::LicenseExceptionId,
        ) {
            Err(fault) => Err(fault),
            Ok(id) => Ok(
                ExceptionEntryView {
                    id,
                    deprecated: optional_bool(members, Key::IsDeprecatedLicenseId),
                },
            ),
        },
    }
}

/// What each element of the exception list holds, or what is wrong with it.
pub open spec fn exception_results(elements: Seq<Json>) -> Seq<
    Result<ExceptionEntryView, SchemaError>,
> {
    Seq::new(elements.len(), |i: int| exception_entry_of(elements[i], i as usize))
}

/// The list of exceptions in the exception document `payload`, or what is
/// wrong with the document or with its list.
pub open spec fn exception_elements_of(payload: Json) -> Result<Seq<Json>, SchemaError> {
    match document_of(payload) {
        Err(fault) => Err(fault),
        Ok(members) => required_list(members, Place::Document, Key::Exceptions),
    }
}

/// What the exception document `payload` holds, or the first thing wrong with
/// it: with the document, with its list, with an element.
pub open spec fn exception_list_of(payload: Json) -> Result<Seq<ExceptionEntryView>, SchemaError> {
    match exception_elements_of(payload) {
        Err(fault) => Err(fault),
        Ok(elements) => all_or_first_fault(exception_results(elements)),
    }
}

/// The element has no `licenseExceptionId`, or something other than a text
/// there.
pub open spec fn lacks_exception_id(element: Json) -> bool {
    match element {
        Json::Object(members) => !members.contains_key(Key::LicenseExceptionId.text()) || !(
        members[Key::LicenseExceptionId.text()] is Text),
        _ => true,
    }
}

/// The record of `entry`.
pub fn exception_record(entry: &ExceptionEntry) -> (record: ExceptionRecord)
    ensures
        record@ == exception_row_of(entry@),
{
    ExceptionRecord { id: entry.id.clone(), flags: classify_exception(entry.deprecated) }
}

/// Compiles the exception table of `entries`.
pub fn build_exception_table(entries: &Vec<ExceptionEntry>) -> (table: Vec<ExceptionRecord>)
    ensures
        is_exception_table_of(views(table@), views(entries@)),
        sorted_by_id::<ExceptionRecord>(views(table@)),
        table.len() == entries.len(),
        forall|i: int|
            0 <= i < table.len() ==> (#[trigger] table[i]).flags@ == 0 || table[i].flags@
                == IS_DEPRECATED,
{
    let mut records: Vec<ExceptionRecord> = Vec::new();
    let mut i: usize = 0;
    while i < entries.len()
        invariant
            i <= entries.len(),
            views(records@) == unsorted_exception_rows(views(entries@).take(i as int)),
        decreases entries.len() - i,
    {
        let ghost before = views(records@);
        records.push(exception_record(&entries[i]));
        proof {
            let next = views(entries@).take(i as int + 1);
            assert(views(records@) =~= before.push(exception_row_of(entries[i as int]@)));
            assert(next.drop_last() =~= views(entries@).take(i as int));
            assert(next.last() == entries[i as int]@);
            assert(unsorted_exception_rows(next) =~= unsorted_exception_rows(next.drop_last()).push(
                exception_row_of(next.last()),
            ));
        }
        i += 1;
    }
    assert(views(entries@).take(i as int) =~= views(entries@));
    let table = sort_by_id(records);
    proof {
        lemma_exception_flags(views(table@), views(entries@));
        assert forall|i: int| 0 <= i < table.len() implies (#[trigger] table[i]).flags@ == 0
            || table[i].flags@ == IS_DEPRECATED by {
            assert(views(table@)[i] == table[i]@);
        }
    }
    table
}

/// A line of an exception table carries the deprecated bit or no bit at all,
/// and so neither the copyleft bit nor the GNU bit.
pub proof fn lemma_exception_flags(rows: Seq<ExceptionRow>, entries: Seq<ExceptionEntryView>)
    requires
        is_exception_table_of(rows, entries),
    ensures
        forall|i: int|
            0 <= i < rows.len() ==> {
                &&& (#[trigger] rows[i]).flags == 0 || rows[i].flags == IS_DEPRECATED
                &&& rows[i].flags & IS_COPYLEFT == 0
                &&& rows[i].flags & IS_GNU == 0
            },
{
    let unsorted = unsorted_exception_rows(entries);
    assert forall|i: int| 0 <= i < rows.len() implies {
        &&& (#[trigger] rows[i]).flags == 0 || rows[i].flags == IS_DEPRECATED
        &&& rows[i].flags & IS_COPYLEFT == 0
        &&& rows[i].flags & IS_GNU == 0
    } by {
        vstd::seq_lib::to_multiset_contains(rows, rows[i]);
        vstd::seq_lib::to_multiset_contains(unsorted, rows[i]);
        assert(rows.contains(rows[i]));
        let k = choose|k: int| 0 <= k < unsorted.len() && unsorted[k] == rows[i];
        assert(unsorted[k] == exception_row_of(entries[k]));
        lemma_exception_bits_exact(entries[k].deprecated);
    }
}

/// An exception document with an element that has no `licenseExceptionId`, or
/// something other than a text there, gives no list, and so no table, at all.
pub proof fn lemma_faulty_exception_fails(payload: Json, elements: Seq<Json>, i: int)
    requires
        exception_elements_of(payload) == Ok::<Seq<Json>, SchemaError>(elements),
        0 <= i < elements.len(),
        lacks_exception_id(elements[i]),
    ensures
        exception_list_of(payload) is Err,
{
    let results = exception_results(elements);
    assert(results[i] is Err);
    lemma_some_fault_is_first(results, i);
}

/// Reads the element at position `index` of the exception list.
pub fn read_exception(element: &serde_json::Value, index: usize) -> (entry: Result<
    ExceptionEntry,
    SchemaError,
>)
    ensures
        match exception_entry_of(json_of(*element), index) {
            Ok(held) => entry matches Ok(e) && e@ == held,
            Err(fault) => entry matches Err(e) && e == fault,
        },
{
    let object = match as_element(element, index) {
        Ok(object) => object,
        Err(fault) => {
            return Err(fault);
        },
    };
    let id = match get_text(object, Place::Element(index), Key::LicenseExceptionId) {
        Ok(id) => id,
        Err(fault) => {
            return Err(fault);
        },
    };
    Ok(
        ExceptionEntry {
            id: String::from_str(id),
            deprecated: find_bool(object, Key::IsDeprecatedLicenseId),
        },
    )
}

/// Reads the elements of the exception list, up to the first that is faulty.
pub fn read_exceptions(elements: &Vec<serde_json::Value>) -> (entries: Result<
    Vec<ExceptionEntry>,
    SchemaError,
>)
    ensures
        match all_or_first_fault(exception_results(items_of(elements@))) {
            Ok(held) => entries matches Ok(e) && views(e@) == held,
            Err(fault) => entries matches Err(e) && e == fault,
        },
{
    let ghost results = exception_results(items_of(elements@));
    let mut entries: Vec<ExceptionEntry> = Vec::new();
    let mut i: usize = 0;
    while i < elements.len()
        invariant
            i <= elements.len(),
            results == exception_results(items_of(elements@)),
            results.len() == elements.len(),
            entries.len() == i,
            forall|j: int|
                0 <= j < i ==> (#[trigger] results[j]) == Ok::<ExceptionEntryView, SchemaError>(
                    entries[j]@,
                ),
        decreases elements.len() - i,
    {
        assert(results[i as int] == exception_entry_of(json_of(elements[i as int]), i));
        match read_exception(&elements[i], i) {
            Ok(entry) => {
                entries.push(entry);
            },
            Err(fault) => {
                proof {
                    assert(is_first_fault(results, i as int));
                    lemma_first_fault_decides(results, i as int);
                }
                return Err(fault);
            },
        }
        i += 1;
    }
    assert(!exists|k: int| is_first_fault(results, k));
    assert(views(entries@) =~= Seq::new(results.len(), |k: int| results[k]->Ok_0));
    Ok(entries)
}

/// Reads the exception document `payload`.
pub fn read_exception_list(payload: &serde_json::Value) -> (entries: Result<
    Vec<ExceptionEntry>,
    SchemaError,
>)
    ensures
        match exception_list_of(json_of(*payload)) {
            Ok(held) => entries matches Ok(e) && views(e@) == held,
            Err(fault) => entries matches Err(e) && e == fault,
        },
{
    let document = match as_document(payload) {
        Ok(document) => document,
        Err(fault) => {
            return Err(fault);
        },
    };
    let elements = match get_list(document, Place::Document, Key::Exceptions) {
        Ok(elements) => elements,
        Err(fault) => {
            return Err(fault);
        },
    };
    read_exceptions(elements)
}

/// Compiles the exception table of the exception document `payload`.
pub fn compile_exceptions(payload: &serde_json::Value) -> (table: Result<
    Vec<ExceptionRecord>,
    SchemaError,
>)
    ensures
        match exception_list_of(json_of(*payload)) {
            Ok(entries) => table matches Ok(t) && is_exception_table_of(views(t@), entries),
            Err(fault) => table matches Err(e) && e == fault,
        },
{
    match read_exception_list(payload) {
        Ok(entries) => Ok(build_exception_table(&entries)),
        Err(fault) => Err(fault),
    }
}

} // verus!
