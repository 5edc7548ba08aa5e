//! Configuration validation, in two layers checked in order:
//! - syntactic: names non-empty and unique, patterns known;
//! - semantic: what each workflow pattern needs, and that it names only
//!   configured backends.
//!
//! The first problem found is reported.

use crate::config::{backend_names, find_backend_index, workflow_names, find_workflow_index, BackendConfig, Config, WorkflowConfig};
use crate::error::{Result, WeirError};
use crate::text::{decimal, decimal_string, lemma_find_first_props, str_eq};
use vstd::prelude::*;
use vstd::string::*;

verus! {

/// The workflow patterns weir knows.
pub open spec fn is_known_pattern(p: Seq<char>) -> bool {
    p == "fan-out"@ || p == "pipeline"@ || p == "router"@ || p == "eval-loop"@ || p == "fusion"@
}

/// `name` is the name of a backend of `cfg`.
pub open spec fn known(cfg: Config, name: Seq<char>) -> bool {
    backend_names(cfg.backends@).contains(name)
}

/// "workflow '<wf>' (<pattern>): <detail>"
pub open spec fn wf_msg(wf: Seq<char>, pattern: Seq<char>, detail: Seq<char>) -> Seq<char> {
    "workflow '"@ + wf + "' ("@ + pattern + "): "@ + detail
}

/// "<role>references unknown backend '<b>'"
pub open spec fn unknown_ref(role: Seq<char>, b: Seq<char>) -> Seq<char> {
    role + "references unknown backend '"@ + b + "'"@
}

/// The problem with the `i`-th backend taken alone or against those before it.
pub open spec fn backend_issue(bs: Seq<BackendConfig>, i: int) -> Option<Seq<char>> {
    let name = bs[i].name@;
    if name.len() == 0 {
        Some("backend name must not be empty"@)
    } else if exists|k: int| 0 <= k < i && bs[k].name@ == name {
        Some("duplicate backend name: '"@ + name + "'"@)
    } else {
        None
    }
}

/// The syntactic problem with the `j`-th workflow.
pub open spec fn workflow_syntax_issue(ws: Seq<WorkflowConfig>, j: int) -> Option<Seq<char>> {
    let name = ws[j].name@;
    let pattern = ws[j].pattern@;
    if name.len() == 0 {
        Some("workflow name must not be empty"@)
    } else if exists|k: int| 0 <= k < j && ws[k].name@ == name {
        Some("duplicate workflow name: '"@ + name + "'"@)
    } else if !is_known_pattern(pattern) {
        Some(
            "workflow '"@ + name + "': unknown pattern '"@ + pattern
                + "'; must be one of: fan-out, pipeline, router, eval-loop, fusion"@,
        )
    } else {
        None
    }
}

/// The first of `names` that is not a backend of `cfg`.
pub open spec fn first_unknown(cfg: Config, names: Seq<Seq<char>>) -> Option<Seq<char>>
    decreases names.len(),
{
    if names.len() == 0 {
        None
    } else if !known(cfg, names[0]) {
        Some(names[0])
    } else {
        first_unknown(cfg, names.skip(1))
    }
}

/// The views of a list of names.
pub open spec fn name_views(v: Seq<String>) -> Seq<Seq<char>> {
    v.map_values(|s: String| s@)
}

/// The backends named by the steps of a pipeline.
pub open spec fn step_backends(w: WorkflowConfig) -> Seq<Seq<char>> {
    w.steps@.map_values(|s: crate::config::PipelineStep| s.backend@)
}

/// The semantic problem with workflow `w` of `cfg`.
pub open spec fn workflow_semantic_issue(cfg: Config, w: WorkflowConfig) -> Option<Seq<char>> {
    let name = w.name@;
    let p = w.pattern@;
    if p == "fan-out"@ {
        if w.backends@.len() == 0 {
            Some(wf_msg(name, p, "'backends' must not be empty"@))
        } else {
            match first_unknown(cfg, name_views(w.backends@)) {
                Some(b) => Some(wf_msg(name, p, unknown_ref(""@, b))),
                None => None,
            }
        }
    } else if p == "pipeline"@ {
        if w.steps@.len() == 0 {
            Some(wf_msg(name, p, "'steps' must not be empty"@))
        } else {
            match first_unknown(cfg, step_backends(w)) {
                Some(b) => Some(wf_msg(name, p, unknown_ref("step "@, b))),
                None => None,
            }
        }
    } else if p == "router"@ {
        if w.backends@.len() == 1 {
            if !known(cfg, w.backends@[0]@) {
                Some(wf_msg(name, p, unknown_ref(""@, w.backends@[0]@)))
            } else {
                None
            }
        } else {
            Some(
                wf_msg(
                    name,
                    p,
                    "'backends' must have exactly 1 entry, got "@ + decimal(w.backends@.len()),
                ),
            )
        }
    } else if p == "eval-loop"@ {
        match (w.generator, w.evaluator) {
            (None, _) => Some(wf_msg(name, p, "'generator' is required"@)),
            (Some(_), None) => Some(wf_msg(name, p, "'evaluator' is required"@)),
            (Some(g), Some(e)) => if !known(cfg, g@) {
                Some(wf_msg(name, p, unknown_ref("generator "@, g@)))
            } else if !known(cfg, e@) {
                Some(wf_msg(name, p, unknown_ref("evaluator "@, e@)))
            } else {
                None
            },
        }
    } else if p == "fusion"@ {
        if w.backends@.len() < 2 {
            Some(wf_msg(name, p, "'backends' must have at least 2 entries for the panel"@))
        } else {
            match w.judge {
                None => Some(wf_msg(name, p, "'judge' backend is required"@)),
                Some(j) => match first_unknown(cfg, name_views(w.backends@)) {
                    Some(b) => Some(wf_msg(name, p, unknown_ref("panel "@, b))),
                    None => if !known(cfg, j@) {
                        Some(wf_msg(name, p, unknown_ref("judge "@, j@)))
                    } else {
                        match w.synthesizer {
                            Some(s) => if !known(cfg, s@) {
                                Some(wf_msg(name, p, unknown_ref("synthesizer "@, s@)))
                            } else {
                                None
                            },
                            None => None,
                        }
                    },
                },
            }
        }
    } else {
        None
    }
}

/// The first backend problem at or after index `i`.
pub open spec fn scan_backends(cfg: Config, i: int) -> Option<Seq<char>>
    decreases cfg.backends@.len() - i,
{
    if i < 0 || i >= cfg.backends@.len() {
        None
    } else {
        match backend_issue(cfg.backends@, i) {
            Some(m) => Some(m),
            None => scan_backends(cfg, i + 1),
        }
    }
}

/// The first syntactic workflow problem at or after index `j`.
pub open spec fn scan_workflow_syntax(cfg: Config, j: int) -> Option<Seq<char>>
    decreases cfg.workflows@.len() - j,
{
    if j < 0 || j >= cfg.workflows@.len() {
        None
    } else {
        match workflow_syntax_issue(cfg.workflows@, j) {
            Some(m) => Some(m),
            None => scan_workflow_syntax(cfg, j + 1),
        }
    }
}

/// The first semantic workflow problem at or after index `j`.
pub open spec fn scan_workflow_semantics(cfg: Config, j: int) -> Option<Seq<char>>
    decreases cfg.workflows@.len() - j,
{
    if j < 0 || j >= cfg.workflows@.len() {
        None
    } else {
        match workflow_semantic_issue(cfg, cfg.workflows@[j]) {
            Some(m) => Some(m),
            None => scan_workflow_semantics(cfg, j + 1),
        }
    }
}

/// The problem `validate` reports for `cfg`, if any: the first backend
/// problem, else the first syntactic workflow problem, else the first
/// semantic one.
pub open spec fn first_issue(cfg: Config) -> Option<Seq<char>> {
    match scan_backends(cfg, 0) {
        Some(m) => Some(m),
        None => match scan_workflow_syntax(cfg, 0) {
            Some(m) => Some(m),
            None => scan_workflow_semantics(cfg, 0),
        },
    }
}


/// Whether `name` is the name of a backend of `cfg`.
pub fn is_known(cfg: &Config, name: &str) -> (b: bool)
    ensures
        b == known(*cfg, name@),
{
    let r = find_backend_index(&cfg.backends, name);
    proof {
        lemma_find_first_props(backend_names(cfg.backends@), name@);
    }
    r.is_some()
}

pub(crate) fn wf_message(name: &str, pattern: &str, detail: &str) -> (r: String)
    ensures
        r@ == wf_msg(name@, pattern@, detail@),
{
    let mut r = String::from_str("workflow '");
    r.append(name);
    r.append("' (");
    r.append(pattern);
    r.append("): ");
    r.append(detail);
    r
}

fn unknown_ref_text(role: &str, b: &str) -> (r: String)
    ensures
        r@ == unknown_ref(role@, b@),
{
    let mut r = String::from_str(role);
    r.append("references unknown backend '");
    r.append(b);
    r.append("'");
    r
}

fn quoted(prefix: &str, name: &str) -> (r: String)
    ensures
        r@ == prefix@ + name@ + "'"@,
{
    let mut r = String::from_str(prefix);
    r.append(name);
    r.append("'");
    r
}

/// The first of `names` that is not a configured backend.
pub(crate) fn first_unknown_name(cfg: &Config, names: &Vec<String>) -> (r: Option<String>)
    ensures
        match first_unknown(*cfg, name_views(names@)) {
            Some(b) => r matches Some(x) && x@ == b,
            None => r is None,
        },
{
    let ghost all = name_views(names@);
    let mut i: usize = 0;
    assert(all.skip(0) =~= all);
    while i < names.len()
        invariant
            i <= names.len(),
            all == name_views(names@),
            first_unknown(*cfg, all) == first_unknown(*cfg, all.skip(i as int)),
        decreases names.len() - i,
    {
        assert(all.skip(i as int)[0] == names@[i as int]@);
        if !is_known(cfg, names[i].as_str()) {
            return Some(names[i].clone());
        }
        assert(all.skip(i as int).skip(1) =~= all.skip(i + 1));
        i = i + 1;
    }
    None
}

/// The first pipeline step of `w` naming an unknown backend.
fn first_unknown_step(cfg: &Config, w: &WorkflowConfig) -> (r: Option<String>)
    ensures
        match first_unknown(*cfg, step_backends(*w)) {
            Some(b) => r matches Some(x) && x@ == b,
            None => r is None,
        },
{
    let ghost all = step_backends(*w);
    let mut i: usize = 0;
    assert(all.skip(0) =~= all);
    while i < w.steps.len()
        invariant
            i <= w.steps.len(),
            all == step_backends(*w),
            first_unknown(*cfg, all) == first_unknown(*cfg, all.skip(i as int)),
        decreases w.steps.len() - i,
    {
        assert(all.skip(i as int)[0] == w.steps@[i as int].backend@);
        if !is_known(cfg, w.steps[i].backend.as_str()) {
            return Some(w.steps[i].backend.clone());
        }
        assert(all.skip(i as int).skip(1) =~= all.skip(i + 1));
        i = i + 1;
    }
    None
}

fn check_backend(bs: &Vec<BackendConfig>, i: usize) -> (r: Option<String>)
    requires
        i < bs.len(),
    ensures
        match backend_issue(bs@, i as int) {
            Some(m) => r matches Some(x) && x@ == m,
            None => r is None,
        },
{
    let name = bs[i].name.as_str();
    if name.is_empty() {
        return Some(String::from_str("backend name must not be empty"));
    }
    let first = find_backend_index(bs, name);
    let ghost names = backend_names(bs@);
    proof {
        lemma_find_first_props(names, name@);
        assert(names[i as int] == name@);
    }
    match first {
        Some(f) => {
            if f < i {
                assert(bs@[f as int].name@ == names[f as int]);
                Some(quoted("duplicate backend name: '", name))
            } else {
                assert forall|k: int| 0 <= k < i implies bs@[k].name@ != name@ by {
                    assert(names[k] == bs@[k].name@);
                }
                None
            }
        },
        None => None,
    }
}

fn check_workflow_syntax(ws: &Vec<WorkflowConfig>, j: usize) -> (r: Option<String>)
    requires
        j < ws.len(),
    ensures
        match workflow_syntax_issue(ws@, j as int) {
            Some(m) => r matches Some(x) && x@ == m,
            None => r is None,
        },
{
    let name = ws[j].name.as_str();
    let pattern = ws[j].pattern.as_str();
    if name.is_empty() {
        return Some(String::from_str("workflow name must not be empty"));
    }
    let first = find_workflow_index(ws, name);
    let ghost names = workflow_names(ws@);
    proof {
        lemma_find_first_props(names, name@);
        assert(names[j as int] == name@);
    }
    let dup = match first {
        Some(f) => f < j,
        None => false,
    };
    if dup {
        let f = first.unwrap();
        assert(ws@[f as int].name@ == names[f as int]);
        return Some(quoted("duplicate workflow name: '", name));
    }
    assert forall|k: int| 0 <= k < j implies ws@[k].name@ != name@ by {
        assert(names[k] == ws@[k].name@);
    }
    if !(str_eq(pattern, "fan-out") || str_eq(pattern, "pipeline") || str_eq(pattern, "router")
        || str_eq(pattern, "eval-loop") || str_eq(pattern, "fusion")) {
        let mut r = String::from_str("workflow '");
        r.append(name);
        r.append("': unknown pattern '");
        r.append(pattern);
        r.append("'; must be one of: fan-out, pipeline, router, eval-loop, fusion");
        return Some(r);
    }
    None
}

fn check_workflow_semantics(cfg: &Config, w: &WorkflowConfig) -> (r: Option<String>)
    ensures
        match workflow_semantic_issue(*cfg, *w) {
            Some(m) => r matches Some(x) && x@ == m,
            None => r is None,
        },
{
    let name = w.name.as_str();
    let p = w.pattern.as_str();
    if str_eq(p, "fan-out") {
        if w.backends.len() == 0 {
            return Some(wf_message(name, p, "'backends' must not be empty"));
        }
        match first_unknown_name(cfg, &w.backends) {
            Some(b) => Some(wf_message(name, p, unknown_ref_text("", b.as_str()).as_str())),
            None => None,
        }
    } else if str_eq(p, "pipeline") {
        if w.steps.len() == 0 {
            return Some(wf_message(name, p, "'steps' must not be empty"));
        }
        match first_unknown_step(cfg, w) {
            Some(b) => Some(wf_message(name, p, unknown_ref_text("step ", b.as_str()).as_str())),
            None => None,
        }
    } else if str_eq(p, "router") {
        if w.backends.len() == 1 {
            if !is_known(cfg, w.backends[0].as_str()) {
                Some(wf_message(name, p, unknown_ref_text("", w.backends[0].as_str()).as_str()))
            } else {
                None
            }
        } else {
            let mut d = String::from_str("'backends' must have exactly 1 entry, got ");
            let n = decimal_string(w.backends.len() as u64);
            d.append(n.as_str());
            Some(wf_message(name, p, d.as_str()))
        }
    } else if str_eq(p, "eval-loop") {
        match (&w.generator, &w.evaluator) {
            (None, _) => Some(wf_message(name, p, "'generator' is required")),
            (Some(_), None) => Some(wf_message(name, p, "'evaluator' is required")),
            (Some(g), Some(e)) => {
                if !is_known(cfg, g.as_str()) {
                    Some(wf_message(name, p, unknown_ref_text("generator ", g.as_str()).as_str()))
                } else if !is_known(cfg, e.as_str()) {
                    Some(wf_message(name, p, unknown_ref_text("evaluator ", e.as_str()).as_str()))
                } else {
                    None
                }
            },
        }
    } else if str_eq(p, "fusion") {
        if w.backends.len() < 2 {
            return Some(
                wf_message(name, p, "'backends' must have at least 2 entries for the panel"),
            );
        }
        match &w.judge {
            None => Some(wf_message(name, p, "'judge' backend is required")),
            Some(j) => match first_unknown_name(cfg, &w.backends) {
                Some(b) => Some(wf_message(name, p, unknown_ref_text("panel ", b.as_str()).as_str())),
                None => {
                    if !is_known(cfg, j.as_str()) {
                        Some(wf_message(name, p, unknown_ref_text("judge ", j.as_str()).as_str()))
                    } else {
                        match &w.synthesizer {
                            Some(sy) => {
                                if !is_known(cfg, sy.as_str()) {
                                    Some(
                                        wf_message(
                                            name,
                                            p,
                                            unknown_ref_text("synthesizer ", sy.as_str()).as_str(),
                                        ),
                                    )
                                } else {
                                    None
                                }
                            },
                            None => None,
                        }
                    }
                },
            },
        }
    } else {
        None
    }
}

/// Runs every validation layer against `cfg` and reports the first problem
/// found as `WeirError::Validation`.
pub fn validate(cfg: &Config) -> (r: Result<()>)
    ensures
        match first_issue(*cfg) {
            None => r is Ok,
            Some(m) => r matches Err(WeirError::Validation(x)) && x@ == m,
        },
{
    let mut i: usize = 0;
    while i < cfg.backends.len()
        invariant
            i <= cfg.backends.len(),
            scan_backends(*cfg, 0) == scan_backends(*cfg, i as int),
        decreases cfg.backends.len() - i,
    {
        match check_backend(&cfg.backends, i) {
            Some(m) => {
                return Err(WeirError::Validation(m));
            },
            None => {},
        }
        i = i + 1;
    }
    let mut j: usize = 0;
    while j < cfg.workflows.len()
        invariant
            j <= cfg.workflows.len(),
            scan_backends(*cfg, 0) is None,
            scan_workflow_syntax(*cfg, 0) == scan_workflow_syntax(*cfg, j as int),
        decreases cfg.workflows.len() - j,
    {
        match check_workflow_syntax(&cfg.workflows, j) {
            Some(m) => {
                return Err(WeirError::Validation(m));
            },
            None => {},
        }
        j = j + 1;
    }
    let mut k: usize = 0;
    while k < cfg.workflows.len()
        invariant
            k <= cfg.workflows.len(),
            scan_backends(*cfg, 0) is None,
            scan_workflow_syntax(*cfg, 0) is None,
            scan_workflow_semantics(*cfg, 0) == scan_workflow_semantics(*cfg, k as int),
        decreases cfg.workflows.len() - k,
    {
        match check_workflow_semantics(cfg, &cfg.workflows[k]) {
            Some(m) => {
                return Err(WeirError::Validation(m));
            },
            None => {},
        }
        k = k + 1;
    }
    Ok(())
}

/// When `first_unknown` finds nothing, every name is a configured backend.
proof fn lemma_first_unknown_all_known(cfg: Config, names: Seq<Seq<char>>)
    requires
        first_unknown(cfg, names) is None,
    ensures
        forall|k: int| 0 <= k < names.len() ==> known(cfg, #[trigger] names[k]),
    decreases names.len(),
{
    if names.len() > 0 {
        lemma_first_unknown_all_known(cfg, names.skip(1));
        assert forall|k: int| 0 <= k < names.len() implies known(cfg, #[trigger] names[k]) by {
            if k > 0 {
                assert(names[k] == names.skip(1)[k - 1]);
            }
        }
    }
}

/// A semantic scan that finds nothing from `j0` on finds nothing in any
/// workflow from there.
proof fn lemma_scan_semantics_none(cfg: Config, j0: int, j: int)
    requires
        0 <= j0 <= j < cfg.workflows@.len(),
        scan_workflow_semantics(cfg, j0) is None,
    ensures
        workflow_semantic_issue(cfg, cfg.workflows@[j]) is None,
    decreases j - j0,
{
    if j0 < j {
        lemma_scan_semantics_none(cfg, j0 + 1, j);
    }
}

/// A syntactic scan that finds nothing from `j0` on finds nothing in any
/// workflow from there.
proof fn lemma_scan_syntax_none(cfg: Config, j0: int, j: int)
    requires
        0 <= j0 <= j < cfg.workflows@.len(),
        scan_workflow_syntax(cfg, j0) is None,
    ensures
        workflow_syntax_issue(cfg.workflows@, j) is None,
    decreases j - j0,
{
    if j0 < j {
        lemma_scan_syntax_none(cfg, j0 + 1, j);
    }
}

/// A configuration that passes validation names only configured backends.
/// Each workflow has a known pattern, and every backend it names is a backend
/// of the configuration: the backends of a fan-out, router or fusion panel,
/// the steps of a pipeline, the generator and the evaluator of an eval-loop
/// (both given), and the judge (given) and synthesizer of a fusion.
pub proof fn law_valid_names_known(cfg: Config, j: int)
    requires
        first_issue(cfg) is None,
        0 <= j < cfg.workflows@.len(),
    ensures
        ({
            let w = cfg.workflows@[j];
            let p = w.pattern@;
            &&& p == "fan-out"@ || p == "pipeline"@ || p == "router"@ || p == "eval-loop"@ || p == "fusion"@
            &&& (p == "fan-out"@ || p == "router"@ || p == "fusion"@) ==> forall|i: int|
                0 <= i < w.backends@.len() ==> known(cfg, #[trigger] w.backends@[i]@)
            &&& p == "pipeline"@ ==> forall|i: int| 0 <= i < w.steps@.len() ==> known(cfg, #[trigger] w.steps@[i].backend@)
            &&& p == "eval-loop"@ ==> (w.generator matches Some(g) && known(cfg, g@))
            &&& p == "eval-loop"@ ==> (w.evaluator matches Some(e) && known(cfg, e@))
            &&& p == "fusion"@ ==> (w.judge matches Some(jd) && known(cfg, jd@))
            &&& p == "fusion"@ ==> (w.synthesizer matches Some(sy) ==> known(cfg, sy@))
        }),
{
    let w = cfg.workflows@[j];
    let p = w.pattern@;
    lemma_scan_syntax_none(cfg, 0, j);
    lemma_scan_semantics_none(cfg, 0, j);
    reveal_strlit("fan-out");
    reveal_strlit("pipeline");
    reveal_strlit("router");
    reveal_strlit("eval-loop");
    reveal_strlit("fusion");
    assert("router"@[0] != "fusion"@[0]);
    assert(scan_backends(cfg, 0) is None && scan_workflow_syntax(cfg, 0) is None);
    let bs = name_views(w.backends@);
    if (p == "fan-out"@ || p == "fusion"@) && w.backends@.len() > 0 {
        assert(first_unknown(cfg, bs) is None);
        lemma_first_unknown_all_known(cfg, bs);
        assert forall|i: int| 0 <= i < w.backends@.len() implies known(cfg, #[trigger] w.backends@[i]@) by {
            assert(bs[i] == w.backends@[i]@);
        }
    }
    if p == "pipeline"@ && w.steps@.len() > 0 {
        let sb = step_backends(w);
        assert(first_unknown(cfg, sb) is None);
        lemma_first_unknown_all_known(cfg, sb);
        assert forall|i: int| 0 <= i < w.steps@.len() implies known(cfg, #[trigger] w.steps@[i].backend@) by {
            assert(sb[i] == w.steps@[i].backend@);
        }
    }
    if p == "eval-loop"@ {
        assert("eval-loop"@.len() == 9 && "fan-out"@.len() == 7 && "pipeline"@.len() == 8 && "router"@.len() == 6);
        assert(p != "fan-out"@ && p != "pipeline"@ && p != "router"@);
        assert(workflow_semantic_issue(cfg, w) is None);
        assert(w.generator is Some && w.evaluator is Some);
    }
}

} // verus!
