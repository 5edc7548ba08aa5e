//! The logic of `weir workflow …`: listing summaries and removal.

use crate::cli::backend::{
    append_table, appendable, find_table_index, lemma_with_table_well_read, load_document, remove_named_table,
    with_table, without_table,
};
use crate::cli::toml_doc::{
    aot_push, aot_tables, names_at, nested_nonempty, new_array_of_tables, new_table, reading_of, render_document,
    string_fields, table_fields, table_set_list, table_set_str, table_set_tables, toml_reading, well_read, FieldValue,
};
use crate::config::{PipelineStep, WorkflowConfig};
use crate::error::{Result, WeirError};
use crate::text::{decimal, decimal_string, find_first, join, join_strings, str_eq, views};
use vstd::prelude::*;
use vstd::string::*;

verus! {

/// A pipeline step as listed: its backend, with `[role]` when it has one.
pub open spec fn step_label(s: PipelineStep) -> Seq<char> {
    match s.role {
        Some(r) => s.backend@ + "["@ + r@ + "]"@,
        None => s.backend@,
    }
}

/// `o`, or "?" when absent.
pub open spec fn or_question(o: Option<String>) -> Seq<char> {
    match o {
        Some(s) => s@,
        None => "?"@,
    }
}

/// The backends or steps column of `workflow list` for `w`.
pub open spec fn workflow_summary_spec(w: WorkflowConfig) -> Seq<char> {
    let p = w.pattern@;
    if p == "fan-out"@ || p == "router"@ {
        join(views(w.backends@), ", "@) + match w.aggregation {
            Some(a) => " (agg="@ + a@ + ")"@,
            None => ""@,
        }
    } else if p == "pipeline"@ {
        join(w.steps@.map_values(|s: PipelineStep| step_label(s)), " → "@)
    } else if p == "eval-loop"@ {
        "gen="@ + or_question(w.generator) + " eval="@ + or_question(w.evaluator) + match w.max_iterations {
            Some(n) => " max="@ + decimal(n as nat),
            None => ""@,
        }
    } else {
        "pattern="@ + p
    }
}

fn step_label_exec(s: &PipelineStep) -> (r: String)
    ensures
        r@ == step_label(*s),
{
    match &s.role {
        Some(role) => {
            let mut r = s.backend.clone();
            r.append("[");
            r.append(role.as_str());
            r.append("]");
            r
        },
        None => s.backend.clone(),
    }
}

/// The backends or steps column of `workflow list`: the backends (and
/// aggregation) of a fan-out or router, the step chain of a pipeline, the
/// generator, evaluator and limit of an eval-loop, else the pattern.
pub fn workflow_summary(w: &WorkflowConfig) -> (r: String)
    ensures
        r@ == workflow_summary_spec(*w),
{
    let p = w.pattern.as_str();
    if str_eq(p, "fan-out") || str_eq(p, "router") {
        let mut r = join_strings(&w.backends, ", ");
        match &w.aggregation {
            Some(a) => {
                r.append(" (agg=");
                r.append(a.as_str());
                r.append(")");
            },
            None => {
                proof {
                    reveal_strlit("");
                }
                assert(r@ =~= r@ + ""@);
            },
        }
        r
    } else if str_eq(p, "pipeline") {
        let ghost labels = w.steps@.map_values(|s: PipelineStep| step_label(s));
        let mut parts: Vec<String> = Vec::new();
        let mut i: usize = 0;
        while i < w.steps.len()
            invariant
                i <= w.steps.len(),
                labels == w.steps@.map_values(|s: PipelineStep| step_label(s)),
                views(parts@) =~= labels.take(i as int),
            decreases w.steps.len() - i,
        {
            let ghost before = parts@;
            parts.push(step_label_exec(&w.steps[i]));
            assert(views(parts@) =~= views(before).push(labels[i as int]));
            assert(labels.take(i + 1) =~= labels.take(i as int).push(labels[i as int]));
            i = i + 1;
        }
        assert(labels.take(w.steps.len() as int) =~= labels);
        join_strings(&parts, " → ")
    } else if str_eq(p, "eval-loop") {
        let mut r = String::from_str("gen=");
        match &w.generator {
            Some(g) => r.append(g.as_str()),
            None => r.append("?"),
        }
        r.append(" eval=");
        match &w.evaluator {
            Some(e) => r.append(e.as_str()),
            None => r.append("?"),
        }
        match w.max_iterations {
            Some(n) => {
                r.append(" max=");
                let d = decimal_string(n as u64);
                r.append(d.as_str());
            },
            None => {
                proof {
                    reveal_strlit("");
                }
                assert(r@ =~= r@ + ""@);
            },
        }
        r
    } else {
        let mut r = String::from_str("pattern=");
        r.append(p);
        r
    }
}

/// The text of the error for a workflow name already in use.
pub open spec fn exists_text(name: Seq<char>) -> Seq<char> {
    "workflow '"@ + name + "' already exists"@
}

fn exists_error(name: &str) -> (e: WeirError)
    ensures
        e matches WeirError::Validation(m) && m@ == exists_text(name@),
{
    let mut m = String::from_str("workflow '");
    m.append(name);
    m.append("' already exists");
    WeirError::Validation(m)
}

/// The fields of a new fan-out `[[workflow]]` table.
pub open spec fn fanout_fields(name: Seq<char>, backends: Seq<Seq<char>>, aggregation: Seq<char>) -> Map<
    Seq<char>,
    FieldValue,
> {
    Map::empty().insert("name"@, FieldValue::Str(name)).insert("pattern"@, FieldValue::Str("fan-out"@)).insert(
        "aggregation"@,
        FieldValue::Str(aggregation),
    ).insert("backends"@, FieldValue::StrList(backends))
}

/// The string fields of one new pipeline step: its backend, and its
/// template when it has one.
pub open spec fn step_fields(backend: Seq<char>, template: Option<Seq<char>>) -> Map<Seq<char>, Seq<char>> {
    let m = Map::empty().insert("backend"@, backend);
    match template {
        Some(t) => m.insert("prompt_template"@, t),
        None => m,
    }
}

/// The steps `(backend, template)` as they are written.
pub open spec fn steps_written(steps: Seq<(String, Option<String>)>) -> Seq<Map<Seq<char>, Seq<char>>> {
    steps.map_values(
        |s: (String, Option<String>)|
            step_fields(
                s.0@,
                match s.1 {
                    Some(t) => Some(t@),
                    None => None,
                },
            ),
    )
}

/// The fields of a new pipeline `[[workflow]]` table.
pub open spec fn pipeline_fields(name: Seq<char>, steps: Seq<(String, Option<String>)>) -> Map<Seq<char>, FieldValue> {
    Map::empty().insert("name"@, FieldValue::Str(name)).insert("pattern"@, FieldValue::Str("pipeline"@)).insert(
        "steps"@,
        FieldValue::Tables(steps_written(steps)),
    )
}

/// What appending a new `[[workflow]]` table of `fields`, named `name`, to
/// `text` gives: the errors in their order (`missing` is the pattern's own
/// requirement failing, `missing_text` its message), else text that reads as
/// the old document with that table last in `workflow` and nothing else
/// changed.
pub open spec fn add_workflow_outcome(
    text: Seq<char>,
    name: Seq<char>,
    missing: bool,
    missing_text: Seq<char>,
    fields: Map<Seq<char>, FieldValue>,
    r: Result<String>,
) -> bool {
    match toml_reading(text) {
        None => r matches Err(WeirError::Config(_)),
        Some(t) => well_read(t) && if find_first(names_at(t, "workflow"@), Some(name)) is Some {
            r matches Err(WeirError::Validation(m)) && m@ == exists_text(name)
        } else if missing {
            r matches Err(WeirError::Validation(m)) && m@ == missing_text
        } else if !appendable(t, "workflow"@) {
            r matches Err(WeirError::Config(m)) && m@ == "'workflow' key is not an array-of-tables"@
        } else {
            r matches Ok(s) && toml_reading(s@) == Some(with_table(t, "workflow"@, fields))
        },
    }
}

proof fn lemma_workflow_key_text()
    ensures
        "'"@ + "workflow"@ + "' key is not an array-of-tables"@ == "'workflow' key is not an array-of-tables"@,
{
    reveal_strlit("'");
    reveal_strlit("workflow");
    reveal_strlit("' key is not an array-of-tables");
    reveal_strlit("'workflow' key is not an array-of-tables");
    assert("'"@ + "workflow"@ + "' key is not an array-of-tables"@ =~= "'workflow' key is not an array-of-tables"@);
}

/// Appends a fan-out `[[workflow]]` named `name` over `backends` with the
/// given aggregation to the `weir.toml` text `text` (`toml_edit` keeps its
/// comments and layout): the result reads as the old document with that table
/// last in `workflow` and nothing else changed. Fails when the text is not TOML (`Config`), when a workflow of that
/// name exists or no backend is given (`Validation`), or when `workflow`
/// holds something other than an array of tables (`Config`).
pub fn add_fanout_workflow(text: &str, name: &str, backends: &Vec<String>, aggregation: &str) -> (r: Result<String>)
    ensures
        add_workflow_outcome(
            text@,
            name@,
            backends@.len() == 0,
            "fan-out workflow requires at least one backend"@,
            fanout_fields(name@, views(backends@), aggregation@),
            r,
        ),
{
    let mut doc = load_document(text)?;
    if find_table_index(&doc, "workflow", name).is_some() {
        return Err(exists_error(name));
    }
    if backends.len() == 0 {
        return Err(WeirError::Validation(String::from_str("fan-out workflow requires at least one backend")));
    }
    let t = fanout_table(name, backends, aggregation);
    proof {
        lemma_workflow_key_text();
    }
    let ghost t0 = reading_of(doc);
    append_table(&mut doc, "workflow", t)?;
    proof {
        let f = fanout_fields(name@, views(backends@), aggregation@);
        assert(nested_nonempty(f));
        lemma_with_table_well_read(t0, "workflow"@, f);
    }
    Ok(render_document(&doc))
}

/// A new fan-out `[[workflow]]` table.
fn fanout_table(name: &str, backends: &Vec<String>, aggregation: &str) -> (t: toml_edit::Table)
    ensures
        table_fields(t) == fanout_fields(name@, views(backends@), aggregation@),
{
    let mut t = new_table();
    table_set_str(&mut t, "name", name);
    table_set_str(&mut t, "pattern", "fan-out");
    table_set_str(&mut t, "aggregation", aggregation);
    table_set_list(&mut t, "backends", backends);
    assert(backends@.map_values(|s: String| s@) =~= views(backends@));
    t
}

/// A new pipeline `[[workflow]]` table.
fn pipeline_table(name: &str, steps: &Vec<(String, Option<String>)>) -> (t: toml_edit::Table)
    ensures
        table_fields(t) == pipeline_fields(name@, steps@),
{
    let ghost want = steps_written(steps@);
    let mut a = new_array_of_tables();
    let mut i: usize = 0;
    while i < steps.len()
        invariant
            i <= steps.len(),
            want == steps_written(steps@),
            aot_tables(a).len() == i,
            forall|k: int| 0 <= k < i ==> string_fields(#[trigger] aot_tables(a)[k]) == want[k],
        decreases steps.len() - i,
    {
        let mut st = new_table();
        table_set_str(&mut st, "backend", steps[i].0.as_str());
        match &steps[i].1 {
            Some(tmpl) => table_set_str(&mut st, "prompt_template", tmpl.as_str()),
            None => {},
        }
        assert(string_fields(table_fields(st)) =~= want[i as int]);
        aot_push(&mut a, st);
        i = i + 1;
    }
    let mut t = new_table();
    table_set_str(&mut t, "name", name);
    table_set_str(&mut t, "pattern", "pipeline");
    assert(aot_tables(a).map_values(|f: Map<Seq<char>, FieldValue>| string_fields(f)) =~= want);
    table_set_tables(&mut t, "steps", a);
    assert(table_fields(t) =~= pipeline_fields(name@, steps@));
    t
}

/// Appends a pipeline `[[workflow]]` named `name` with the steps
/// `(backend, template)` to the `weir.toml` text `text` (`toml_edit` keeps its
/// comments and layout): the result reads as the old document with that table
/// last in `workflow` and nothing else changed. Fails when the text is not TOML (`Config`), when a workflow of that
/// name exists or no step is given (`Validation`), or when `workflow` holds
/// something other than an array of tables (`Config`).
pub fn add_pipeline_workflow(text: &str, name: &str, steps: &Vec<(String, Option<String>)>) -> (r: Result<String>)
    ensures
        add_workflow_outcome(
            text@,
            name@,
            steps@.len() == 0,
            "pipeline workflow requires at least one step"@,
            pipeline_fields(name@, steps@),
            r,
        ),
{
    let mut doc = load_document(text)?;
    if find_table_index(&doc, "workflow", name).is_some() {
        return Err(exists_error(name));
    }
    if steps.len() == 0 {
        return Err(WeirError::Validation(String::from_str("pipeline workflow requires at least one step")));
    }
    let t = pipeline_table(name, steps);
    proof {
        lemma_workflow_key_text();
    }
    let ghost t0 = reading_of(doc);
    append_table(&mut doc, "workflow", t)?;
    proof {
        let f = pipeline_fields(name@, steps@);
        assert(f["steps"@]->Tables_0.len() == steps@.len());
        assert(nested_nonempty(f));
        lemma_with_table_well_read(t0, "workflow"@, f);
    }
    Ok(render_document(&doc))
}

/// Removes the `[[workflow]]` named `name` from the `weir.toml` text `text`
/// (`toml_edit` keeps its comments and layout): the result reads as the old
/// document without
/// the first workflow of that name, with the `workflow` key dropped when it
/// was the last one. Fails with `Config` when the text is not TOML and with
/// `WorkflowNotFound` when no workflow has that name.
pub fn remove_workflow(text: &str, name: &str) -> (r: Result<String>)
    ensures
        match toml_reading(text@) {
            None => r matches Err(WeirError::Config(_)),
            Some(t) => well_read(t) && match find_first(names_at(t, "workflow"@), Some(name@)) {
                None => r matches Err(WeirError::WorkflowNotFound(n)) && n@ == name@,
                Some(i) => r matches Ok(s) && toml_reading(s@) == Some(without_table(t, "workflow"@, i)),
            },
        },
{
    remove_named_table(text, "workflow", name, WeirError::WorkflowNotFound(String::from_str(name)))
}

} // verus!
