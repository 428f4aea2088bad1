//! The license table: one record for each upstream license, one more for each
//! bare GFDL version, and the `NOASSERTION` record, sorted by identifier.

use vstd::prelude::*;
use vstd::string::StringExecFns;
use vstd::utf8::encode_utf8;
use crate::classify::{classify, license_bits};
use crate::document::{
    as_document, as_element, document_of, element_of, find_bool, find_text, get_list, get_text,
    optional_bool, optional_text, required_list, required_text,
};
use crate::error::{Key, Place, SchemaError};
use crate::flags::Flags;
use crate::json::{items_of, json_of, Json};
use crate::listing::{
    all_or_first_fault, is_first_fault, lemma_first_fault_decides, lemma_some_fault_is_first,
};
use crate::order::{
    bytes_le, id_le, is_stable_sort_of, sort_by_id, sorted_by_id, views, Identified,
};
use crate::text::starts_with;

verus! {

/// An element of the upstream license list, once it has been found sound.
#[derive(Clone, Debug, PartialEq, Eq)]
pub struct LicenseEntry {
    /// The identifier.
    pub id: String,
    /// The name for readers, where upstream gives one.
    pub name: Option<String>,
    /// Upstream's word on whether the identifier is deprecated.
    pub deprecated: Option<bool>,
    /// Upstream's word on whether the OSI approves the license.
    pub osi_approved: Option<bool>,
    /// Upstream's word on whether the FSF lists the license as free.
    pub fsf_libre: Option<bool>,
}

/// What a `LicenseEntry` holds.
pub struct LicenseEntryView {
    pub id: Seq<char>,
    pub name: Option<Seq<char>>,
    pub deprecated: Option<bool>,
    pub osi_approved: Option<bool>,
    pub fsf_libre: Option<bool>,
}

impl View for LicenseEntry {
    type V = LicenseEntryView;

    open spec fn view(&self) -> LicenseEntryView {
        LicenseEntryView {
            id: self.id@,
            name: match self.name {
                Some(name) => Some(name@),
                None => None,
            },
            deprecated: self.deprecated,
            osi_approved: self.osi_approved,
            fsf_libre: self.fsf_libre,
        }
    }
}

/// A line of the license table.
#[derive(Clone, Debug, PartialEq, Eq)]
pub struct LicenseRecord {
    /// The identifier.
    pub id: String,
    /// The name for readers.
    pub display_name: String,
    /// The categories of the license.
    pub flags: Flags,
}

/// What a `LicenseRecord` holds.
pub struct LicenseRow {
    pub id: Seq<char>,
    pub display_name: Seq<char>,
    pub flags: u8,
}

impl View for LicenseRecord {
    type V = LicenseRow;

    open spec fn view(&self) -> LicenseRow {
        LicenseRow { id: self.id@, display_name: self.display_name@, flags: self.flags@ }
    }
}

impl Identified for LicenseRecord {
    open spec fn id_of(entry: LicenseRow) -> Seq<char> {
        entry.id
    }

    fn id(&self) -> (id: &str) {
        self.id.as_str()
    }
}

/// The upstream license list, once it has been found sound.
#[derive(Clone, Debug, PartialEq, Eq)]
pub struct LicenseList {
    /// The version of the upstream list.
    pub version: String,
    /// The licenses, in upstream's order.
    pub entries: Vec<LicenseEntry>,
}

/// What a `LicenseList` holds.
pub struct LicenseListView {
    pub version: Seq<char>,
    pub entries: Seq<LicenseEntryView>,
}

impl View for LicenseList {
    type V = LicenseListView;

    open spec fn view(&self) -> LicenseListView {
        LicenseListView { version: self.version@, entries: views(self.entries@) }
    }
}

/// The license table with the version of the list it was made from.
#[derive(Clone, Debug, PartialEq, Eq)]
pub struct LicenseTable {
    /// The version of the upstream list.
    pub version: String,
    /// The records, in ascending order of identifier.
    pub records: Vec<LicenseRecord>,
}

impl LicenseTable {
    /// The lines of the table, in order.
    pub open spec fn rows(&self) -> Seq<LicenseRow> {
        views(self.records@)
    }

    /// The table is sorted by identifier and holds the `NOASSERTION` record.
    pub open spec fn wf(&self) -> bool {
        &&& sorted_by_id::<LicenseRecord>(self.rows())
        &&& self.rows().contains(sentinel_row())
    }

    /// The table is what `list` compiles to.
    pub open spec fn is_table_of(&self, list: LicenseListView) -> bool {
        &&& self.version@ == list.version
        &&& is_stable_sort_of::<LicenseRecord>(self.rows(), unsorted_rows(list.entries))
    }
}

/// The name for readers: upstream's, or the identifier in its place.
pub open spec fn display_name_of(entry: LicenseEntryView) -> Seq<char> {
    match entry.name {
        Some(name) => name,
        None => entry.id,
    }
}

/// `id` is a bare GFDL version, which upstream lists without its
/// `-invariants` variant.
pub open spec fn lacks_invariants_variant(id: Seq<char>) -> bool {
    "GFDL-"@.is_prefix_of(id) && id.len() < 9
}

/// The line of `entry` under the identifier `id`.
pub open spec fn row_of(entry: LicenseEntryView, id: Seq<char>) -> LicenseRow {
    LicenseRow {
        id,
        display_name: display_name_of(entry),
        flags: license_bits(entry.id, entry.deprecated, entry.osi_approved, entry.fsf_libre),
    }
}

/// The lines that `entry` gives: its own, and before it the `-invariants`
/// variant of a bare GFDL version.
pub open spec fn rows_of(entry: LicenseEntryView) -> Seq<LicenseRow> {
    if lacks_invariants_variant(entry.id) {
        seq![row_of(entry, entry.id + "-invariants"@), row_of(entry, entry.id)]
    } else {
        seq![row_of(entry, entry.id)]
    }
}

/// The lines that `entries` give, in order.
pub open spec fn collected_rows(entries: Seq<LicenseEntryView>) -> Seq<LicenseRow>
    decreases entries.len(),
{
    if entries.len() == 0 {
        Seq::empty()
    } else {
        collected_rows(entries.drop_last()) + rows_of(entries.last())
    }
}

/// The line that stands for "no license asserted".
pub open spec fn sentinel_row() -> LicenseRow {
    LicenseRow { id: "NOASSERTION"@, display_name: "NOASSERTION"@, flags: 0 }
}

/// The lines of the table before they are sorted: those of the entries, then
/// the `NOASSERTION` line.
pub open spec fn unsorted_rows(entries: Seq<LicenseEntryView>) -> Seq<LicenseRow> {
    collected_rows(entries).push(sentinel_row())
}

/// What the element at position `index` of the license list holds, or what is
/// wrong with it.
pub open spec fn license_entry_of(element: Json, index: usize) -> Result<
    LicenseEntryView,
    SchemaError,
> {
    match element_of(element, index) {
        Err(fault) => Err(fault),
        Ok(members) => match required_text(members, Place::Element(index), Key::LicenseId) {
            Err(fault) => Err(fault),
            Ok(id) => Ok(
                LicenseEntryView {
                    id,
                    name: optional_text(members, Key::Name),
                    deprecated: optional_bool(members, Key::IsDeprecatedLicenseId),
                    osi_approved: optional_bool(members, Key::IsOsiApproved),
                    fsf_libre: optional_bool(members, Key::IsFsfLibre),
                },
            ),
        },
    }
}

/// What each element of the license list holds, or what is wrong with it.
pub open spec fn license_results(elements: Seq<Json>) -> Seq<
    Result<LicenseEntryView, SchemaError>,
> {
    Seq::new(elements.len(), |i: int| license_entry_of(elements[i], i as usize))
}

/// The list of licenses in the license document `payload`, or what is wrong
/// with the document or with its list.
pub open spec fn license_elements_of(payload: Json) -> Result<Seq<Json>, SchemaError> {
    match document_of(payload) {
        Err(fault) => Err(fault),
        Ok(members) => required_list(members, Place::Document, Key::Licenses),
    }
}

/// The version in the license document `payload`, or what is wrong with the
/// document or with its version.
pub open spec fn license_version_of(payload: Json) -> Result<Seq<char>, SchemaError> {
    match document_of(payload) {
        Err(fault) => Err(fault),
        Ok(members) => required_text(members, Place::Document, Key::LicenseListVersion),
    }
}

/// What the license document `payload` holds, or the first thing wrong with
/// it: with the document, with its list, with an element, with its version.
pub open spec fn license_list_of(payload: Json) -> Result<LicenseListView, SchemaError> {
    match license_elements_of(payload) {
        Err(fault) => Err(fault),
        Ok(elements) => match all_or_first_fault(license_results(elements)) {
            Err(fault) => Err(fault),
            Ok(entries) => match license_version_of(payload) {
                Err(fault) => Err(fault),
                Ok(version) => Ok(LicenseListView { version, entries }),
            },
        },
    }
}

/// The element has no `licenseId`, or something other than a text there.
pub open spec fn lacks_license_id(element: Json) -> bool {
    match element {
        Json::Object(members) => !members.contains_key(Key::LicenseId.text()) || !(
        members[Key::LicenseId.text()] is Text),
        _ => true,
    }
}

/// The record that stands for "no license asserted".
pub fn sentinel() -> (record: LicenseRecord)
    ensures
        record@ == sentinel_row(),
{
    LicenseRecord {
        id: String::from_str("NOASSERTION"),
        display_name: String::from_str("NOASSERTION"),
        flags: Flags::empty(),
    }
}

/// Whether `id` is a bare GFDL version.
pub fn needs_invariants_variant(id: &str) -> (needed: bool)
    ensures
        needed == lacks_invariants_variant(id@),
{
    starts_with(id, "GFDL-") && id.unicode_len() < 9
}

/// Puts the records of `entry` at the end of `records`.
pub fn push_records(records: &mut Vec<LicenseRecord>, entry: &LicenseEntry)
    ensures
        views(final(records)@) == views(old(records)@) + rows_of(entry@),
{
    let ghost before = views(records@);
    let flags = classify(
        entry.id.as_str(),
        entry.deprecated,
        entry.osi_approved,
        entry.fsf_libre,
    );
    let display_name = match &entry.name {
        Some(name) => name.clone(),
        None => entry.id.clone(),
    };
    if needs_invariants_variant(entry.id.as_str()) {
        let mut id = entry.id.clone();
        id.append("-invariants");
        records.push(LicenseRecord { id, display_name: display_name.clone(), flags });
    }
    records.push(LicenseRecord { id: entry.id.clone(), display_name, flags });
    assert(views(records@) =~= before + rows_of(entry@));
}

/// The records of `entries` in upstream's order, then the `NOASSERTION`
/// record.
pub fn collect_records(entries: &Vec<LicenseEntry>) -> (records: Vec<LicenseRecord>)
    ensures
        views(records@) == unsorted_rows(views(entries@)),
{
    let mut records: Vec<LicenseRecord> = Vec::new();
    let mut i: usize = 0;
    assert(views(entries@).take(0) =~= Seq::empty());
    assert(views(records@) =~= Seq::empty());
    while i < entries.len()
        invariant
            i <= entries.len(),
            views(records@) == collected_rows(views(entries@).take(i as int)),
        decreases entries.len() - i,
    {
        push_records(&mut records, &entries[i]);
        proof {
            let next = views(entries@).take(i as int + 1);
            assert(next.drop_last() =~= views(entries@).take(i as int));
            assert(next.last() == entries[i as int]@);
        }
        i += 1;
    }
    assert(views(entries@).take(i as int) =~= views(entries@));
    let ghost collected = views(records@);
    records.push(sentinel());
    assert(views(records@) =~= collected.push(sentinel_row()));
    records
}

/// Compiles the license table of `list`.
pub fn build_license_table(list: LicenseList) -> (table: LicenseTable)
    ensures
        table.is_table_of(list@),
        table.wf(),
        table.records.len() > list.entries.len(),
{
    let unsorted = collect_records(&list.entries);
    let records = sort_by_id(unsorted);
    proof {
        lemma_table_holds_sentinel(views(records@), views(list.entries@));
        lemma_table_sorted_and_inhabited(views(records@), views(list.entries@));
    }
    LicenseTable { version: list.version, records }
}

/// There are more unsorted lines than entries.
pub proof fn lemma_rows_at_least_entries(entries: Seq<LicenseEntryView>)
    ensures
        collected_rows(entries).len() >= entries.len(),
        unsorted_rows(entries).len() > entries.len(),
    decreases entries.len(),
{
    if entries.len() > 0 {
        lemma_rows_at_least_entries(entries.drop_last());
    }
}

/// Whatever upstream lists, the license table holds the `NOASSERTION` line,
/// which carries no category.
pub proof fn lemma_table_holds_sentinel(rows: Seq<LicenseRow>, entries: Seq<LicenseEntryView>)
    requires
        is_stable_sort_of::<LicenseRecord>(rows, unsorted_rows(entries)),
    ensures
        rows.contains(sentinel_row()),
        sentinel_row().flags == 0,
{
    let unsorted = unsorted_rows(entries);
    assert(unsorted.last() == sentinel_row());
    assert(unsorted.contains(sentinel_row()));
    vstd::seq_lib::to_multiset_contains(unsorted, sentinel_row());
    vstd::seq_lib::to_multiset_contains(rows, sentinel_row());
}

/// The license table is in ascending order of identifier, byte by byte, and
/// has more lines than upstream has licenses, so it is never empty.
pub proof fn lemma_table_sorted_and_inhabited(
    rows: Seq<LicenseRow>,
    entries: Seq<LicenseEntryView>,
)
    requires
        is_stable_sort_of::<LicenseRecord>(rows, unsorted_rows(entries)),
    ensures
        forall|i: int, j: int|
            0 <= i <= j < rows.len() ==> bytes_le(
                encode_utf8(#[trigger] rows[i].id),
                encode_utf8(#[trigger] rows[j].id),
            ),
        rows.len() == unsorted_rows(entries).len(),
        rows.len() > entries.len(),
{
    lemma_rows_at_least_entries(entries);
    vstd::seq_lib::to_multiset_len(rows);
    vstd::seq_lib::to_multiset_len(unsorted_rows(entries));
    assert forall|i: int, j: int| 0 <= i <= j < rows.len() implies bytes_le(
        encode_utf8(#[trigger] rows[i].id),
        encode_utf8(#[trigger] rows[j].id),
    ) by {
        assert(id_le(LicenseRecord::id_of(rows[i]), LicenseRecord::id_of(rows[j])));
    }
}

/// A license document with an element that has no `licenseId`, or something
/// other than a text there, gives no list, and so no table, at all.
pub proof fn lemma_faulty_license_fails(payload: Json, elements: Seq<Json>, i: int)
    requires
        license_elements_of(payload) == Ok::<Seq<Json>, SchemaError>(elements),
        0 <= i < elements.len(),
        lacks_license_id(elements[i]),
    ensures
        license_list_of(payload) is Err,
{
    let results = license_results(elements);
    assert(results[i] is Err);
    lemma_some_fault_is_first(results, i);
}

/// A bare GFDL version gives two lines, the `-invariants` variant first,
/// which differ in the identifier only. Any other license gives one line.
pub proof fn lemma_invariants_variant(entry: LicenseEntryView)
    ensures
        lacks_invariants_variant(entry.id) ==> {
            &&& rows_of(entry).len() == 2
            &&& rows_of(entry)[0].id == entry.id + "-invariants"@
            &&& rows_of(entry)[1].id == entry.id
            &&& rows_of(entry)[0].display_name == rows_of(entry)[1].display_name
            &&& rows_of(entry)[0].flags == rows_of(entry)[1].flags
        },
        !lacks_invariants_variant(entry.id) ==> {
            &&& rows_of(entry).len() == 1
            &&& rows_of(entry)[0].id == entry.id
        },
        "GFDL-"@.is_prefix_of(entry.id) && entry.id.len() >= 9 ==> rows_of(entry).len() == 1,
{
}

/// Reads the element at position `index` of the license list.
pub fn read_license(element: &serde_json::Value, index: usize) -> (entry: Result<
    LicenseEntry,
    SchemaError,
>)
    ensures
        match license_entry_of(json_of(*element), index) {
            Ok(held) => entry matches Ok(e) && e@ == held,
            Err(fault) => entry matches Err(e) && e == fault,
        },
{
    let object = match as_element(element, index) {
        Ok(object) => object,
        Err(fault) => {
            return Err(fault);
        },
    };
    let id = match get_text(object, Place::Element(index), Key::LicenseId) {
        Ok(id) => id,
        Err(fault) => {
            return Err(fault);
        },
    };
    let name = match find_text(object, Key::Name) {
        Some(name) => Some(String::from_str(name)),
        None => None,
    };
    Ok(
        LicenseEntry {
            id: String::from_str(id),
            name,
            deprecated: find_bool(object, Key::IsDeprecatedLicenseId),
            osi_approved: find_bool(object, Key::IsOsiApproved),
            fsf_libre: find_bool(object, Key::IsFsfLibre),
        },
    )
}

/// Reads the elements of the license list, up to the first that is faulty.
pub fn read_licenses(elements: &Vec<serde_json::Value>) -> (entries: Result<
    Vec<LicenseEntry>,
    SchemaError,
>)
    ensures
        match all_or_first_fault(license_results(items_of(elements@))) {
            Ok(held) => entries matches Ok(e) && views(e@) == held,
            Err(fault) => entries matches Err(e) && e == fault,
        },
{
    let ghost results = license_results(items_of(elements@));
    let mut entries: Vec<LicenseEntry> = Vec::new();
    let mut i: usize = 0;
    while i < elements.len()
        invariant
            i <= elements.len(),
            results == license_results(items_of(elements@)),
            entries.len() == i,
            results.len() == elements.len(),
            forall|j: int|
                0 <= j < i ==> (#[trigger] results[j]) == Ok::<LicenseEntryView, SchemaError>(
                    entries[j]@,
                ),
        decreases elements.len() - i,
    {
        assert(results[i as int] == license_entry_of(json_of(elements[i as int]), i));
        match read_license(&elements[i], i) {
            Ok(entry) => {
                entries.push(entry);
            },
            Err(fault) => {
                proof {
                    assert(is_first_fault(results, i as int));
                    lemma_first_fault_decides(results, i as int);
                }
                return Err(fault);
            },
        }
        i += 1;
    }
    assert(!exists|k: int| is_first_fault(results, k));
    assert(views(entries@) =~= Seq::new(results.len(), |k: int| results[k]->Ok_0));
    Ok(entries)
}

/// Reads the license document `payload`.
pub fn read_license_list(payload: &serde_json::Value) -> (list: Result<LicenseList, SchemaError>)
    ensures
        match license_list_of(json_of(*payload)) {
            Ok(held) => list matches Ok(l) && l@ == held,
            Err(fault) => list matches Err(e) && e == fault,
        },
{
    let document = match as_document(payload) {
        Ok(document) => document,
        Err(fault) => {
            return Err(fault);
        },
    };
    let elements = match get_list(document, Place::Document, Key::Licenses) {
        Ok(elements) => elements,
        Err(fault) => {
            return Err(fault);
        },
    };
    let entries = match read_licenses(elements) {
        Ok(entries) => entries,
        Err(fault) => {
            return Err(fault);
        },
    };
    let version = match get_text(document, Place::Document, Key::LicenseListVersion) {
        Ok(version) => version,
        Err(fault) => {
            return Err(fault);
        },
    };
    Ok(LicenseList { version: String::from_str(version), entries })
}

/// Compiles the license table of the license document `payload`.
pub fn compile_licenses(payload: &serde_json::Value) -> (table: Result<LicenseTable, SchemaError>)
    ensures
        match license_list_of(json_of(*payload)) {
            Ok(list) => table matches Ok(t) && t.is_table_of(list) && t.wf() && t.records.len()
                > list.entries.len(),
            Err(fault) => table matches Err(e) && e == fault,
        },
{
    match read_license_list(payload) {
        Ok(list) => Ok(build_license_table(list)),
        Err(fault) => Err(fault),
    }
}

} // verus!
