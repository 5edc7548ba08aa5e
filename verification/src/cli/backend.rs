//! The logic of `weir backend …`: listing summaries and removal.

use crate::cli::toml_doc::{
    append_array_table, array_table_names, arrays_nonempty, doc_arrays, doc_plain, name_field, names_at, nested_nonempty, new_table,
    opt_views, parse_document, reading_of, remove_array_table, remove_key, render_document, table_fields,
    table_set_list, table_set_str, toml_error_text, toml_reading, well_read, FieldValue, TomlReading,
};
use crate::config::BackendKind;
use crate::error::{Result, WeirError};
use crate::text::{
    find_first, join, join_strings, lemma_find_first_at, lemma_find_first_none, lemma_find_first_props, str_eq, views,
};
use vstd::prelude::*;
use vstd::string::*;

verus! {

/// The type label and details shown for a backend in `backend list`.
pub open spec fn backend_summary_spec(kind: BackendKind) -> (Seq<char>, Seq<char>) {
    match kind {
        BackendKind::StdioCli { command, args } => (
            "stdio-cli"@,
            if args@.len() == 0 {
                command@
            } else {
                command@ + " "@ + join(views(args@), " "@)
            },
        ),
    }
}

/// The type label and details of a backend: the command line for a
/// stdio-cli backend (the command, then its arguments separated by spaces).
pub fn backend_summary(kind: &BackendKind) -> (r: (&'static str, String))
    ensures
        (r.0@, r.1@) == backend_summary_spec(*kind),
{
    match kind {
        BackendKind::StdioCli { command, args } => {
            let full = if args.len() == 0 {
                command.clone()
            } else {
                let mut s = command.clone();
                s.append(" ");
                let rest = join_strings(args, " ");
                s.append(rest.as_str());
                s
            };
            ("stdio-cli", full)
        },
    }
}

/// Parses `text`, mapping a rejection to a `Config` error.
pub(crate) fn load_document(text: &str) -> (r: Result<toml_edit::DocumentMut>)
    ensures
        match toml_reading(text@) {
            Some(t) => r matches Ok(d) && reading_of(d) == t && well_read(t),
            None => r matches Err(WeirError::Config(_)),
        },
{
    match parse_document(text) {
        Ok(d) => Ok(d),
        Err(e) => {
            let mut m = String::from_str("toml parse error: ");
            let detail = toml_error_text(&e);
            m.append(detail.as_str());
            Err(WeirError::Config(m))
        },
    }
}

/// The index of the first table of the array of tables at `key` whose
/// `name` is `needle`, if any.
pub(crate) fn find_table_index(doc: &toml_edit::DocumentMut, key: &str, needle: &str) -> (r: Option<usize>)
    ensures
        match find_first(names_at(reading_of(*doc), key@), Some(needle@)) {
            Some(i) => r matches Some(j) && j == i,
            None => r is None,
        },
{
    let ghost want = names_at(reading_of(*doc), key@);
    match array_table_names(doc, key) {
        None => None,
        Some(names) => {
            let mut i: usize = 0;
            while i < names.len()
                invariant
                    i <= names.len(),
                    want == names_at(reading_of(*doc), key@),
                    opt_views(names@) == want,
                    forall|k: int| 0 <= k < i ==> want[k] != Some(needle@),
                decreases names.len() - i,
            {
                if let Some(n) = &names[i] {
                    if str_eq(n.as_str(), needle) {
                        proof {
                            assert(want[i as int] == Some(needle@));
                            lemma_find_first_at(want, Some(needle@), i as int);
                        }
                        return Some(i);
                    }
                }
                i = i + 1;
            }
            proof {
                lemma_find_first_none(want, Some(needle@));
            }
            None
        },
    }
}

/// Appending, where a table can be appended, a table whose nested arrays of
/// tables are not empty keeps the reading well formed.
pub(crate) proof fn lemma_with_table_well_read(t: TomlReading, key: Seq<char>, fields: Map<Seq<char>, FieldValue>)
    requires
        well_read(t),
        appendable(t, key),
        nested_nonempty(fields),
    ensures
        well_read(with_table(t, key, fields)),
{
    let w = with_table(t, key, fields);
    assert forall|k: Seq<char>| #[trigger] w.arrays.contains_key(k) implies {
        &&& w.arrays[k].len() > 0
        &&& forall|i: int| 0 <= i < w.arrays[k].len() ==> nested_nonempty(#[trigger] w.arrays[k][i])
    } by {
        if k == key {
            let old_tables = if t.arrays.contains_key(key) {
                t.arrays[key]
            } else {
                Seq::empty()
            };
            assert forall|i: int| 0 <= i < w.arrays[k].len() implies nested_nonempty(#[trigger] w.arrays[k][i]) by {
                if i < old_tables.len() {
                    assert(w.arrays[k][i] == old_tables[i]);
                }
            }
        }
    }
}

/// Removing one table, and the key with the last one, keeps the reading
/// well formed.
proof fn lemma_without_table_well_read(t: TomlReading, key: Seq<char>, i: int)
    requires
        well_read(t),
        t.arrays.contains_key(key),
        0 <= i < t.arrays[key].len(),
    ensures
        well_read(without_table(t, key, i)),
{
    let w = without_table(t, key, i);
    let rest = t.arrays[key].remove(i);
    assert forall|k: Seq<char>| #[trigger] w.arrays.contains_key(k) implies {
        &&& w.arrays[k].len() > 0
        &&& forall|j: int| 0 <= j < w.arrays[k].len() ==> nested_nonempty(#[trigger] w.arrays[k][j])
    } by {
        if k == key {
            assert forall|j: int| 0 <= j < w.arrays[k].len() implies nested_nonempty(#[trigger] w.arrays[k][j]) by {
                if j < i {
                    assert(rest[j] == t.arrays[key][j]);
                } else {
                    assert(rest[j] == t.arrays[key][j + 1]);
                }
            }
        }
    }
}

/// Whether a table can be appended at `key`: the key is absent or already
/// holds an array of tables.
pub open spec fn appendable(t: TomlReading, key: Seq<char>) -> bool {
    !t.keys.contains(key) || t.arrays.contains_key(key)
}

/// `t` with a table of `fields` appended to the array of tables at `key`
/// (which is created when absent); everything else as it was.
pub open spec fn with_table(t: TomlReading, key: Seq<char>, fields: Map<Seq<char>, FieldValue>) -> TomlReading {
    TomlReading {
        plain: t.plain,
        keys: t.keys.insert(key),
        arrays: t.arrays.insert(
            key,
            (if t.arrays.contains_key(key) {
                t.arrays[key]
            } else {
                Seq::empty()
            }).push(fields),
        ),
    }
}

/// `t` with the table at index `i` of the array of tables at `key` removed,
/// and `key` dropped when no table is left; everything else as it was.
pub open spec fn without_table(t: TomlReading, key: Seq<char>, i: int) -> TomlReading {
    let rest = t.arrays[key].remove(i);
    if rest.len() == 0 {
        TomlReading { keys: t.keys.remove(key), arrays: t.arrays.remove(key), plain: t.plain }
    } else {
        TomlReading { keys: t.keys, arrays: t.arrays.insert(key, rest), plain: t.plain }
    }
}

/// Appends `t` to the array of tables at `key`, or fails with `Config` when
/// `key` holds something else (leaving the document as it was).
pub(crate) fn append_table(doc: &mut toml_edit::DocumentMut, key: &str, t: toml_edit::Table) -> (r: Result<()>)
    ensures
        appendable(reading_of(*old(doc)), key@) ==> r is Ok && reading_of(*final(doc)) == with_table(
            reading_of(*old(doc)),
            key@,
            table_fields(t),
        ),
        !appendable(reading_of(*old(doc)), key@) ==> (r matches Err(WeirError::Config(m)) && m@ == "'"@ + key@
            + "' key is not an array-of-tables"@),
{
    if append_array_table(doc, key, t) {
        Ok(())
    } else {
        let mut m = String::from_str("'");
        m.append(key);
        m.append("' key is not an array-of-tables");
        Err(WeirError::Config(m))
    }
}

/// The fields of a new stdio-cli `[[backend]]` table; `args` only when
/// there are some.
pub open spec fn backend_fields(name: Seq<char>, command: Seq<char>, args: Seq<Seq<char>>) -> Map<
    Seq<char>,
    FieldValue,
> {
    let m = Map::empty().insert("name"@, FieldValue::Str(name)).insert("type"@, FieldValue::Str("stdio-cli"@)).insert(
        "command"@,
        FieldValue::Str(command),
    );
    if args.len() > 0 {
        m.insert("args"@, FieldValue::StrList(args))
    } else {
        m
    }
}

/// A new stdio-cli `[[backend]]` table.
pub(crate) fn backend_table(name: &str, command: &str, args: &Vec<String>) -> (t: toml_edit::Table)
    ensures
        table_fields(t) == backend_fields(name@, command@, views(args@)),
{
    let mut t = new_table();
    table_set_str(&mut t, "name", name);
    table_set_str(&mut t, "type", "stdio-cli");
    table_set_str(&mut t, "command", command);
    if args.len() > 0 {
        table_set_list(&mut t, "args", args);
        assert(args@.map_values(|s: String| s@) =~= views(args@));
    }
    assert(table_fields(t) =~= backend_fields(name@, command@, views(args@)));
    t
}

/// Appends a stdio-cli `[[backend]]` named `name`, running `command` with the
/// argument templates `args`, to the `weir.toml` text `text` (`toml_edit`
/// keeps its comments and layout): the result reads as the old document with that table
/// last in `backend` and nothing else changed. Fails with `Config` when the text is not TOML, with
/// `Validation` when a backend of that name exists, and with `Config` when
/// `backend` holds something other than an array of tables.
pub fn add_backend_cli(text: &str, name: &str, command: &str, args: &Vec<String>) -> (r: Result<String>)
    ensures
        match toml_reading(text@) {
            None => r matches Err(WeirError::Config(_)),
            Some(t) => well_read(t) && if find_first(names_at(t, "backend"@), Some(name@)) is Some {
                r matches Err(WeirError::Validation(m)) && m@ == "backend '"@ + name@ + "' already exists"@
            } else if !appendable(t, "backend"@) {
                r matches Err(WeirError::Config(m)) && m@ == "'backend' key is not an array-of-tables"@
            } else {
                r matches Ok(s) && toml_reading(s@) == Some(
                    with_table(t, "backend"@, backend_fields(name@, command@, views(args@))),
                )
            },
        },
{
    let mut doc = load_document(text)?;
    if find_table_index(&doc, "backend", name).is_some() {
        let mut m = String::from_str("backend '");
        m.append(name);
        m.append("' already exists");
        return Err(WeirError::Validation(m));
    }
    let t = backend_table(name, command, args);
    proof {
        reveal_strlit("'");
        reveal_strlit("backend");
        reveal_strlit("' key is not an array-of-tables");
        reveal_strlit("'backend' key is not an array-of-tables");
        assert("'"@ + "backend"@ + "' key is not an array-of-tables"@ =~= "'backend' key is not an array-of-tables"@);
    }
    let ghost t0 = reading_of(doc);
    append_table(&mut doc, "backend", t)?;
    proof {
        lemma_with_table_well_read(t0, "backend"@, backend_fields(name@, command@, views(args@)));
    }
    Ok(render_document(&doc))
}

/// Removes from `text` (a `weir.toml`) the first table at `key` named
/// `needle`, dropping the key when no table is left, and renders the result.
/// `missing` is the error for a name that is not there.
pub(crate) fn remove_named_table(text: &str, key: &str, needle: &str, missing: WeirError) -> (r: Result<String>)
    ensures
        match toml_reading(text@) {
            None => r matches Err(WeirError::Config(_)),
            Some(t) => well_read(t) && match find_first(names_at(t, key@), Some(needle@)) {
                None => r == Err::<String, WeirError>(missing),
                Some(i) => r matches Ok(s) && toml_reading(s@) == Some(without_table(t, key@, i)),
            },
        },
{
    let mut doc = load_document(text)?;
    let ghost t = reading_of(doc);
    let idx = match find_table_index(&doc, key, needle) {
        Some(i) => i,
        None => return Err(missing),
    };
    proof {
        lemma_find_first_props(names_at(t, key@), Some(needle@));
    }
    remove_array_table(&mut doc, key, idx);
    let ghost rest = t.arrays[key@].remove(idx as int);
    assert(doc_arrays(doc) == t.arrays.insert(key@, rest));
    if let Some(names) = array_table_names(&doc, key) {
        assert(opt_views(names@).len() == rest.len());
        if names.len() == 0 {
            remove_key(&mut doc, key);
            assert(doc_arrays(doc) =~= t.arrays.remove(key@));
            assert(doc_plain(doc) =~= t.plain);
        }
    }
    assert(reading_of(doc) == without_table(t, key@, idx as int));
    proof {
        lemma_without_table_well_read(t, key@, idx as int);
    }
    Ok(render_document(&doc))
}

/// A name not yet in a sequence is found at the end once pushed.
proof fn lemma_find_pushed<A>(s: Seq<A>, x: A)
    requires
        find_first(s, x) is None,
    ensures
        find_first(s.push(x), x) == Some(s.len() as int),
{
    lemma_find_first_props(s, x);
    let p = s.push(x);
    assert forall|k: int| 0 <= k < s.len() implies p[k] != x by {
        assert(p[k] == s[k]);
    }
    lemma_find_first_at(p, x, s.len() as int);
}

/// Adding a backend and then removing it by name gives back what the file
/// read as before: the new backend is the first of its name, at the end of
/// `backend`, and removing it restores every key, array of tables and other
/// entry (dropping `backend` again when it was not there). `add_backend_cli`
/// and `remove_backend` state that the reading of any text is well formed.
pub proof fn law_add_then_remove_backend(t: TomlReading, name: Seq<char>, command: Seq<char>, args: Seq<Seq<char>>)
    requires
        well_read(t),
        find_first(names_at(t, "backend"@), Some(name)) is None,
        appendable(t, "backend"@),
    ensures
        ({
            let added = with_table(t, "backend"@, backend_fields(name, command, args));
            &&& find_first(names_at(added, "backend"@), Some(name)) == Some(names_at(t, "backend"@).len() as int)
            &&& without_table(added, "backend"@, names_at(t, "backend"@).len() as int) == t
        }),
{
    let key = "backend"@;
    let fields = backend_fields(name, command, args);
    let added = with_table(t, key, fields);
    let old_tables = if t.arrays.contains_key(key) {
        t.arrays[key]
    } else {
        Seq::empty()
    };
    reveal_strlit("name");
    reveal_strlit("type");
    reveal_strlit("command");
    reveal_strlit("args");
    assert("name"@[0] != "type"@[0] && "name"@[0] != "command"@[0] && "name"@[0] != "args"@[0]);
    assert(fields.contains_key("name"@) && fields["name"@] == FieldValue::Str(name));
    assert(name_field(fields) == Some(name));
    assert(names_at(added, key) =~= names_at(t, key).push(Some(name)));
    lemma_find_pushed(names_at(t, key), Some(name));
    let n = names_at(t, key).len() as int;
    assert(added.arrays[key].remove(n) =~= old_tables);
    if t.arrays.contains_key(key) {
        assert(t.keys.contains(key));
        assert(old_tables.len() > 0);
        assert(added.keys =~= t.keys);
        assert(added.arrays.insert(key, old_tables) =~= t.arrays);
    } else {
        assert(added.keys.remove(key) =~= t.keys);
        assert(added.arrays.remove(key) =~= t.arrays);
    }
}

/// Removes the `[[backend]]` named `name` from the `weir.toml` text `text`
/// (`toml_edit` keeps its comments and layout): the result reads as the old
/// document without
/// the first backend of that name, with the `backend` key dropped when it was
/// the last one. Fails with `Config` when the text is not TOML and with
/// `BackendNotFound` when no backend has that name.
pub fn remove_backend(text: &str, name: &str) -> (r: Result<String>)
    ensures
        match toml_reading(text@) {
            None => r matches Err(WeirError::Config(_)),
            Some(t) => well_read(t) && match find_first(names_at(t, "backend"@), Some(name@)) {
                None => r matches Err(WeirError::BackendNotFound(n)) && n@ == name@,
                Some(i) => r matches Ok(s) && toml_reading(s@) == Some(without_table(t, "backend"@, i)),
            },
        },
{
    remove_named_table(text, "backend", name, WeirError::BackendNotFound(String::from_str(name)))
}

} // verus!
