//! The parts of `toml_edit` that the config edits use: parsing a document,
//! reading the `name` of each table of an array of tables, building tables,
//! appending or removing a table, removing a key, and rendering the document
//! back to text.

use vstd::prelude::*;

verus! {

#[verifier::external_type_specification]
#[verifier::external_body]
pub struct ExDocumentMut(toml_edit::DocumentMut);

#[verifier::external_type_specification]
#[verifier::external_body]
pub struct ExTomlError(toml_edit::TomlError);

#[verifier::external_type_specification]
#[verifier::external_body]
pub struct ExTable(toml_edit::Table);

#[verifier::external_type_specification]
#[verifier::external_body]
pub struct ExArrayOfTables(toml_edit::ArrayOfTables);

/// What the edits read of a table field.
pub enum FieldValue {
    /// A string.
    Str(Seq<char>),
    /// An array whose items are all strings.
    StrList(Seq<Seq<char>>),
    /// An array of tables (`[[...]]` sections), each given by its string
    /// fields.
    Tables(Seq<Map<Seq<char>, Seq<char>>>),
    /// Any other value (a number, a boolean, a date-time, an array with an
    /// item that is not a string, an inline table), by its TOML text without
    /// the whitespace and comments around it.
    Other(Seq<char>),
}

/// What the edits read of a top-level entry that is not an array of tables.
pub enum TopEntry {
    /// A table (a `[...]` section, or an implicit or dotted table), by its
    /// fields; its own sub-tables are not read.
    Table(Map<Seq<char>, FieldValue>),
    /// A value, read as a field is.
    Value(FieldValue),
}

/// What the edits read of a document: the keys that have an entry at its top
/// level; its top-level arrays of tables by key, each table by its fields
/// (sub-tables of those tables are not read); and the other top-level
/// entries by key. Order, comments and layout are not part of it.
pub struct TomlReading {
    pub keys: Set<Seq<char>>,
    pub arrays: Map<Seq<char>, Seq<Map<Seq<char>, FieldValue>>>,
    pub plain: Map<Seq<char>, TopEntry>,
}

/// The string fields among `fields`.
pub open spec fn string_fields(fields: Map<Seq<char>, FieldValue>) -> Map<Seq<char>, Seq<char>> {
    Map::new(|k: Seq<char>| fields.contains_key(k) && fields[k] is Str, |k: Seq<char>| fields[k]->Str_0)
}

/// The `name` of a table with these fields, when it is a string.
pub open spec fn name_field(fields: Map<Seq<char>, FieldValue>) -> Option<Seq<char>> {
    if fields.contains_key("name"@) && fields["name"@] is Str {
        Some(fields["name"@]->Str_0)
    } else {
        None
    }
}

/// The `name` of each table of the array of tables at `key` (empty when there
/// is none).
pub open spec fn names_at(t: TomlReading, key: Seq<char>) -> Seq<Option<Seq<char>>> {
    if t.arrays.contains_key(key) {
        t.arrays[key].map_values(|f: Map<Seq<char>, FieldValue>| name_field(f))
    } else {
        Seq::empty()
    }
}

/// The fields of a table, read as in `TomlReading`.
pub uninterp spec fn table_fields(t: toml_edit::Table) -> Map<Seq<char>, FieldValue>;

/// The tables of an array of tables, each read as in `TomlReading`.
pub uninterp spec fn aot_tables(a: toml_edit::ArrayOfTables) -> Seq<Map<Seq<char>, FieldValue>>;

/// The top-level entries of `doc` that are not arrays of tables, read as in
/// `TomlReading`.
pub uninterp spec fn doc_plain(doc: toml_edit::DocumentMut) -> Map<Seq<char>, TopEntry>;

/// The keys that have an entry at the top level of `doc`.
pub uninterp spec fn doc_keys(doc: toml_edit::DocumentMut) -> Set<Seq<char>>;

/// The top-level arrays of tables of `doc`, read as in `TomlReading`.
pub uninterp spec fn doc_arrays(doc: toml_edit::DocumentMut) -> Map<Seq<char>, Seq<Map<Seq<char>, FieldValue>>>;

/// What `toml_edit` reads from `text` (see `TomlReading`), or `None` when it
/// rejects the text. It depends on the text alone.
pub uninterp spec fn toml_reading(text: Seq<char>) -> Option<TomlReading>;

/// Whether every array of tables among `fields` holds a table.
pub open spec fn nested_nonempty(fields: Map<Seq<char>, FieldValue>) -> bool {
    forall|f: Seq<char>| #[trigger] fields.contains_key(f) && fields[f] is Tables ==> fields[f]->Tables_0.len() > 0
}

/// Whether every array of tables in `t`, at the top level or as a field of
/// one of its tables, holds a table: text never gives an empty one, and
/// `toml_edit` writes an empty one as nothing.
pub open spec fn arrays_nonempty(t: TomlReading) -> bool {
    forall|k: Seq<char>| #[trigger] t.arrays.contains_key(k) ==> {
        &&& t.arrays[k].len() > 0
        &&& forall|i: int| 0 <= i < t.arrays[k].len() ==> nested_nonempty(#[trigger] t.arrays[k][i])
    }
}

/// What holds of the reading of any text: every array of tables holds a
/// table; arrays of tables and the other entries are entries of the top
/// level; and no key is both.
pub open spec fn well_read(t: TomlReading) -> bool {
    &&& arrays_nonempty(t)
    &&& t.arrays.dom().subset_of(t.keys)
    &&& t.plain.dom().subset_of(t.keys)
    &&& forall|k: Seq<char>| #[trigger] t.arrays.contains_key(k) ==> !t.plain.contains_key(k)
}

/// The reading of a document.
pub open spec fn reading_of(doc: toml_edit::DocumentMut) -> TomlReading {
    TomlReading { keys: doc_keys(doc), arrays: doc_arrays(doc), plain: doc_plain(doc) }
}

/// The views of a list of optional strings.
pub open spec fn opt_views(v: Seq<Option<String>>) -> Seq<Option<Seq<char>>> {
    v.map_values(|o: Option<String>| match o {
        Some(s) => Some(s@),
        None => None,
    })
}

/// Parses `text` with `DocumentMut::from_str` (`str::parse`): it fails
/// exactly when `toml_edit` rejects the text, and otherwise gives a document
/// with the keys and arrays of tables the text holds (each array of tables
/// there comes from at least one `[[...]]` header, and is an entry of the
/// top level).
#[verifier::external_body]
pub(crate) fn parse_document(text: &str) -> (r: Result<toml_edit::DocumentMut, toml_edit::TomlError>)
    ensures
        match toml_reading(text@) {
            Some(t) => r matches Ok(d) && reading_of(d) == t && well_read(t),
            None => r is Err,
        },
{
    text.parse::<toml_edit::DocumentMut>()
}

/// The message of a parse error (`TomlError`'s `Display`); nothing is claimed
/// of its text.
#[verifier::external_body]
pub(crate) fn toml_error_text(e: &toml_edit::TomlError) -> String {
    e.to_string()
}

/// The `name` strings of the tables of the array of tables at `key`
/// (`Table::get`, `Item::as_array_of_tables`, `ArrayOfTables::iter`,
/// `Item::as_str`); `None` when `key` is absent or holds something else.
#[verifier::external_body]
pub(crate) fn array_table_names(doc: &toml_edit::DocumentMut, key: &str) -> (r: Option<Vec<Option<String>>>)
    ensures
        match r {
            Some(v) => doc_arrays(*doc).contains_key(key@) && opt_views(v@) == names_at(reading_of(*doc), key@),
            None => !doc_arrays(*doc).contains_key(key@),
        },
{
    doc.get(key).and_then(|item| item.as_array_of_tables()).map(
        |a| a.iter().map(|t| t.get("name").and_then(|v| v.as_str()).map(|s| s.to_string())).collect(),
    )
}

/// Removes the table at `index` of the array of tables at `key`
/// (`ArrayOfTables::remove`); every other entry of the document is kept.
#[verifier::external_body]
pub(crate) fn remove_array_table(doc: &mut toml_edit::DocumentMut, key: &str, index: usize)
    requires
        doc_arrays(*old(doc)).contains_key(key@),
        index < doc_arrays(*old(doc))[key@].len(),
    ensures
        doc_keys(*final(doc)) == doc_keys(*old(doc)),
        doc_plain(*final(doc)) == doc_plain(*old(doc)),
        doc_arrays(*final(doc)) == doc_arrays(*old(doc)).insert(
            key@,
            doc_arrays(*old(doc))[key@].remove(index as int),
        ),
{
    if let Some(a) = doc.get_mut(key).and_then(|item| item.as_array_of_tables_mut()) {
        a.remove(index);
    }
}

/// Removes the entry `key` from the top level (`Table::remove`); the other
/// entries are kept.
#[verifier::external_body]
pub(crate) fn remove_key(doc: &mut toml_edit::DocumentMut, key: &str)
    ensures
        doc_keys(*final(doc)) == doc_keys(*old(doc)).remove(key@),
        doc_arrays(*final(doc)) == doc_arrays(*old(doc)).remove(key@),
        doc_plain(*final(doc)) == doc_plain(*old(doc)).remove(key@),
{
    doc.remove(key);
}

/// An empty table (`Table::new`).
#[verifier::external_body]
pub(crate) fn new_table() -> (t: toml_edit::Table)
    ensures
        forall|k: Seq<char>| !#[trigger] table_fields(t).contains_key(k),
{
    toml_edit::Table::new()
}

/// Sets field `key` of `t` to the string `v` (`Table::insert` of `value(v)`).
#[verifier::external_body]
pub(crate) fn table_set_str(t: &mut toml_edit::Table, key: &str, v: &str)
    ensures
        table_fields(*final(t)) == table_fields(*old(t)).insert(key@, FieldValue::Str(v@)),
{
    t.insert(key, toml_edit::value(v));
}

/// Sets field `key` of `t` to the array of the strings `vs`, in order
/// (`Table::insert` of an `Array` collected from them).
#[verifier::external_body]
pub(crate) fn table_set_list(t: &mut toml_edit::Table, key: &str, vs: &Vec<String>)
    ensures
        table_fields(*final(t)) == table_fields(*old(t)).insert(
            key@,
            FieldValue::StrList(vs@.map_values(|s: String| s@)),
        ),
{
    let arr: toml_edit::Array = vs.iter().map(|s| s.as_str()).collect();
    t.insert(key, toml_edit::Item::Value(toml_edit::Value::Array(arr)));
}

/// An empty array of tables (`ArrayOfTables::new`).
#[verifier::external_body]
pub(crate) fn new_array_of_tables() -> (a: toml_edit::ArrayOfTables)
    ensures
        aot_tables(a).len() == 0,
{
    toml_edit::ArrayOfTables::new()
}

/// Appends `t` to `a` (`ArrayOfTables::push`).
#[verifier::external_body]
pub(crate) fn aot_push(a: &mut toml_edit::ArrayOfTables, t: toml_edit::Table)
    ensures
        aot_tables(*final(a)) == aot_tables(*old(a)).push(table_fields(t)),
{
    a.push(t);
}

/// Sets field `key` of `t` to the array of tables `a` (`Table::insert` of
/// `Item::ArrayOfTables`).
#[verifier::external_body]
pub(crate) fn table_set_tables(t: &mut toml_edit::Table, key: &str, a: toml_edit::ArrayOfTables)
    ensures
        table_fields(*final(t)) == table_fields(*old(t)).insert(
            key@,
            FieldValue::Tables(aot_tables(a).map_values(|f: Map<Seq<char>, FieldValue>| string_fields(f))),
        ),
{
    t.insert(key, toml_edit::Item::ArrayOfTables(a));
}

/// Appends `t` to the array of tables at `key`, creating it when `key` has no
/// entry (`Table::entry`, `Entry::or_insert`, `Item::as_array_of_tables_mut`,
/// `ArrayOfTables::push`). When `key` holds anything else, nothing changes and
/// the result is `false`.
#[verifier::external_body]
pub(crate) fn append_array_table(doc: &mut toml_edit::DocumentMut, key: &str, t: toml_edit::Table) -> (pushed: bool)
    ensures
        pushed == (!doc_keys(*old(doc)).contains(key@) || doc_arrays(*old(doc)).contains_key(key@)),
        pushed ==> doc_keys(*final(doc)) == doc_keys(*old(doc)).insert(key@),
        pushed ==> doc_plain(*final(doc)) == doc_plain(*old(doc)),
        pushed ==> doc_arrays(*final(doc)) == doc_arrays(*old(doc)).insert(
            key@,
            (if doc_arrays(*old(doc)).contains_key(key@) {
                doc_arrays(*old(doc))[key@]
            } else {
                Seq::empty()
            }).push(table_fields(t)),
        ),
        !pushed ==> reading_of(*final(doc)) == reading_of(*old(doc)),
{
    let empty = toml_edit::Item::ArrayOfTables(toml_edit::ArrayOfTables::new());
    match doc.entry(key).or_insert(empty).as_array_of_tables_mut() {
        Some(a) => {
            a.push(t);
            true
        },
        None => false,
    }
}

/// The document as text (`DocumentMut`'s `Display`, which keeps comments and
/// layout): the text reads back as the document's reading (`TomlReading`). An empty array of tables would be written as nothing, so every
/// array of tables must hold a table.
#[verifier::external_body]
pub(crate) fn render_document(doc: &toml_edit::DocumentMut) -> (s: String)
    requires
        arrays_nonempty(reading_of(*doc)),
    ensures
        toml_reading(s@) == Some(reading_of(*doc)),
{
    doc.to_string()
}

} // verus!
