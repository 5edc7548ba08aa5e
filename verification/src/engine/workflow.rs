//! Running a configured workflow: the call-time overrides of its backends,
//! and the resolution of every backend it names into a runnable backend.

use crate::backends::stdio_cli::StdioCliBackend;
use crate::config::validate::{
    first_unknown, first_unknown_name, is_known, known, name_views, step_backends, wf_message, wf_msg,
};
use crate::config::{backend_names, find_backend_index, or_default, BackendConfig, Config, PipelineStep, WorkflowConfig};
use crate::error::{Result, WeirError};
use crate::text::{find_first, lemma_find_first_props, split_once_char, split_once_spec, str_eq};
use vstd::prelude::*;
use vstd::string::*;

verus! {

/// The first backend of `cfg` named `name` (meaningful when there is one).
pub open spec fn backend_for(cfg: Config, name: Seq<char>) -> BackendConfig {
    cfg.backends@[find_first(backend_names(cfg.backends@), name)->0]
}

/// The runnable backend for `name`: built from the first backend so named,
/// or `BackendNotFound`.
pub fn build_backend(cfg: &Config, name: &str) -> (r: Result<StdioCliBackend>)
    ensures
        known(*cfg, name@) ==> (r matches Ok(b) && b.built_from(backend_for(*cfg, name@))),
        !known(*cfg, name@) ==> (r matches Err(WeirError::BackendNotFound(n)) && n@ == name@),
{
    proof {
        lemma_find_first_props(backend_names(cfg.backends@), name@);
    }
    match find_backend_index(&cfg.backends, name) {
        Some(i) => {
            let b = StdioCliBackend::new(&cfg.backends[i]);
            match b {
                Ok(b) => Ok(b),
                Err(e) => {
                    assert(false);
                    Err(e)
                },
            }
        },
        None => Err(WeirError::BackendNotFound(String::from_str(name))),
    }
}

/// `v` holds, in order, the backends `names` resolve to.
pub open spec fn resolves_all(cfg: Config, names: Seq<Seq<char>>, v: Seq<StdioCliBackend>) -> bool {
    &&& v.len() == names.len()
    &&& forall|i: int| 0 <= i < v.len() ==> #[trigger] v[i].built_from(backend_for(cfg, names[i]))
}

proof fn lemma_first_unknown_none(cfg: Config, names: Seq<Seq<char>>)
    requires
        forall|k: int| 0 <= k < names.len() ==> known(cfg, names[k]),
    ensures
        first_unknown(cfg, names) is None,
    decreases names.len(),
{
    if names.len() > 0 {
        assert forall|k: int| 0 <= k < names.len() - 1 implies known(cfg, names.skip(1)[k]) by {
            assert(names.skip(1)[k] == names[k + 1]);
        }
        lemma_first_unknown_none(cfg, names.skip(1));
    }
}

proof fn lemma_first_unknown_at(cfg: Config, names: Seq<Seq<char>>, i: int)
    requires
        0 <= i < names.len(),
        !known(cfg, names[i]),
        forall|k: int| 0 <= k < i ==> known(cfg, names[k]),
    ensures
        first_unknown(cfg, names) == Some(names[i]),
    decreases i,
{
    if i > 0 {
        assert forall|k: int| 0 <= k < i - 1 implies known(cfg, names.skip(1)[k]) by {
            assert(names.skip(1)[k] == names[k + 1]);
        }
        lemma_first_unknown_at(cfg, names.skip(1), i - 1);
    }
}

/// The runnable backends for `names`, in order; or `BackendNotFound` for the
/// first name that is not configured.
pub fn build_all(cfg: &Config, names: &Vec<String>) -> (r: Result<Vec<StdioCliBackend>>)
    ensures
        match first_unknown(*cfg, name_views(names@)) {
            None => r matches Ok(v) && resolves_all(*cfg, name_views(names@), v@),
            Some(b) => r matches Err(WeirError::BackendNotFound(n)) && n@ == b,
        },
{
    let ghost ns = name_views(names@);
    let mut out: Vec<StdioCliBackend> = Vec::new();
    let mut i: usize = 0;
    while i < names.len()
        invariant
            i <= names.len(),
            ns == name_views(names@),
            ns.len() == names.len(),
            forall|k: int| 0 <= k < i ==> known(*cfg, ns[k]),
            resolves_all(*cfg, ns.take(i as int), out@),
        decreases names.len() - i,
    {
        assert(ns[i as int] == names@[i as int]@);
        match build_backend(cfg, names[i].as_str()) {
            Ok(b) => {
                out.push(b);
                assert forall|k: int| 0 <= k < i + 1 implies #[trigger] out@[k].built_from(
                    backend_for(*cfg, ns.take(i + 1)[k]),
                ) by {
                    assert(ns.take(i + 1)[k] == ns[k]);
                    if k < i {
                        assert(ns.take(i as int)[k] == ns[k]);
                    }
                }
            },
            Err(e) => {
                proof {
                    lemma_first_unknown_at(*cfg, ns, i as int);
                }
                return Err(e);
            },
        }
        i = i + 1;
    }
    proof {
        lemma_first_unknown_none(*cfg, ns);
        assert(ns.take(names.len() as int) =~= ns);
    }
    Ok(out)
}

} // verus!

verus! {

// ── call-time overrides ──────────────────────────────────────────────────────

/// Backends chosen at call time for one run of a workflow. An empty list or
/// `None` keeps the workflow's own value; anything given replaces it whole.
pub struct WorkflowOverrides {
    /// Replaces `backends` (fan-out, router, fusion panel).
    pub backends: Vec<String>,
    /// Replaces `steps` (pipeline); each is `BACKEND` or `BACKEND:TEMPLATE`.
    pub steps: Vec<String>,
    /// Replaces `generator` (eval-loop).
    pub generator: Option<String>,
    /// Replaces `evaluator` (eval-loop).
    pub evaluator: Option<String>,
    /// Replaces `judge` (fusion).
    pub judge: Option<String>,
    /// Replaces `synthesizer` (fusion).
    pub synthesizer: Option<String>,
}

/// The backend named by a `BACKEND[:TEMPLATE]` token.
pub open spec fn step_backend_of(s: Seq<char>) -> Seq<char> {
    match split_once_spec(s, ':') {
        Some((a, _)) => a,
        None => s,
    }
}

/// `st` is the pipeline step written `s`: the backend before the first `:`,
/// the template after it, and no role.
pub open spec fn parses_to(s: Seq<char>, st: PipelineStep) -> bool {
    &&& st.role is None
    &&& match split_once_spec(s, ':') {
        Some((a, b)) => st.backend@ == a && (st.prompt_template matches Some(t) && t@ == b),
        None => st.backend@ == s && st.prompt_template is None,
    }
}

/// Parses a `BACKEND[:TEMPLATE]` token into a pipeline step.
pub fn parse_step(s: &str) -> (st: PipelineStep)
    ensures
        parses_to(s@, st),
{
    match split_once_char(s, ':') {
        Some((backend, template)) => PipelineStep { backend, role: None, prompt_template: Some(template) },
        None => PipelineStep { backend: String::from_str(s), role: None, prompt_template: None },
    }
}

/// The name held by an optional slot, as a list of zero or one names.
pub open spec fn opt_names(o: Option<String>) -> Seq<Seq<char>> {
    match o {
        Some(x) => seq![x@],
        None => Seq::empty(),
    }
}

/// Every backend the overrides name, in flag order.
pub open spec fn flag_names(ov: WorkflowOverrides) -> Seq<Seq<char>> {
    name_views(ov.backends@) + ov.steps@.map_values(|s: String| step_backend_of(s@)) + opt_names(ov.generator)
        + opt_names(ov.evaluator) + opt_names(ov.judge) + opt_names(ov.synthesizer)
}

/// Whether a workflow of `pattern` reads `backends`.
pub open spec fn reads_backends(pattern: Seq<char>) -> bool {
    pattern == "fan-out"@ || pattern == "router"@ || pattern == "fusion"@
}

/// The first flag given in `ov` that a workflow of `pattern` does not read.
pub open spec fn inapplicable_flag(pattern: Seq<char>, ov: WorkflowOverrides) -> Option<Seq<char>> {
    if ov.backends@.len() > 0 && !reads_backends(pattern) {
        Some("--backend"@)
    } else if ov.steps@.len() > 0 && pattern != "pipeline"@ {
        Some("--step"@)
    } else if ov.generator is Some && pattern != "eval-loop"@ {
        Some("--generator"@)
    } else if ov.evaluator is Some && pattern != "eval-loop"@ {
        Some("--evaluator"@)
    } else if ov.judge is Some && pattern != "fusion"@ {
        Some("--judge"@)
    } else if ov.synthesizer is Some && pattern != "fusion"@ {
        Some("--synthesizer"@)
    } else {
        None
    }
}

/// Why the overrides `ov` cannot be applied to `wf`: a named backend that is
/// not configured, else a flag the pattern does not use.
pub open spec fn override_issue(cfg: Config, wf: WorkflowConfig, ov: WorkflowOverrides) -> Option<Seq<char>> {
    match first_unknown(cfg, flag_names(ov)) {
        Some(b) => Some("backend '"@ + b + "' not found"@),
        None => match inapplicable_flag(wf.pattern@, ov) {
            Some(f) => Some(wf_msg(wf.name@, wf.pattern@, "flag "@ + f + " does not apply"@)),
            None => None,
        },
    }
}

/// `e` is `wf` with every slot given in `ov` replaced and every other kept.
pub open spec fn overridden(wf: WorkflowConfig, ov: WorkflowOverrides, e: WorkflowConfig) -> bool {
    &&& e.name == wf.name
    &&& e.pattern == wf.pattern
    &&& e.aggregation == wf.aggregation
    &&& e.max_iterations == wf.max_iterations
    &&& e.backends == (if ov.backends@.len() > 0 { ov.backends } else { wf.backends })
    &&& if ov.steps@.len() > 0 {
        &&& e.steps@.len() == ov.steps@.len()
        &&& forall|i: int| 0 <= i < e.steps@.len() ==> parses_to(ov.steps@[i]@, #[trigger] e.steps@[i])
    } else {
        e.steps == wf.steps
    }
    &&& e.generator == (if ov.generator is Some { ov.generator } else { wf.generator })
    &&& e.evaluator == (if ov.evaluator is Some { ov.evaluator } else { wf.evaluator })
    &&& e.judge == (if ov.judge is Some { ov.judge } else { wf.judge })
    &&& e.synthesizer == (if ov.synthesizer is Some { ov.synthesizer } else { wf.synthesizer })
}

/// `first_unknown` over two lists in turn.
pub proof fn lemma_first_unknown_append(cfg: Config, a: Seq<Seq<char>>, b: Seq<Seq<char>>)
    ensures
        first_unknown(cfg, a + b) == (match first_unknown(cfg, a) {
            Some(x) => Some(x),
            None => first_unknown(cfg, b),
        }),
    decreases a.len(),
{
    if a.len() == 0 {
        assert(a + b =~= b);
    } else {
        assert((a + b)[0] == a[0]);
        assert((a + b).skip(1) =~= a.skip(1) + b);
        lemma_first_unknown_append(cfg, a.skip(1), b);
    }
}

/// The name in `o`, when it is not a configured backend.
fn first_unknown_opt(cfg: &Config, o: &Option<String>) -> (r: Option<String>)
    ensures
        match first_unknown(*cfg, opt_names(*o)) {
            Some(b) => r matches Some(x) && x@ == b,
            None => r is None,
        },
{
    match o {
        Some(x) => {
            assert(opt_names(*o)[0] == x@);
            assert(opt_names(*o).skip(1) =~= Seq::<Seq<char>>::empty());
            assert(first_unknown(*cfg, Seq::<Seq<char>>::empty()) is None);
            if is_known(cfg, x.as_str()) {
                None
            } else {
                Some(x.clone())
            }
        },
        None => None,
    }
}

/// The first flag given in `ov` that `pattern` does not read.
fn inapplicable_flag_exec(pattern: &str, ov: &WorkflowOverrides) -> (r: Option<&'static str>)
    ensures
        match inapplicable_flag(pattern@, *ov) {
            Some(f) => r matches Some(x) && x@ == f,
            None => r is None,
        },
{
    let fan_out = str_eq(pattern, "fan-out");
    let router = str_eq(pattern, "router");
    let fusion = str_eq(pattern, "fusion");
    let pipeline = str_eq(pattern, "pipeline");
    let eval_loop = str_eq(pattern, "eval-loop");
    if ov.backends.len() > 0 && !(fan_out || router || fusion) {
        Some("--backend")
    } else if ov.steps.len() > 0 && !pipeline {
        Some("--step")
    } else if ov.generator.is_some() && !eval_loop {
        Some("--generator")
    } else if ov.evaluator.is_some() && !eval_loop {
        Some("--evaluator")
    } else if ov.judge.is_some() && !fusion {
        Some("--judge")
    } else if ov.synthesizer.is_some() && !fusion {
        Some("--synthesizer")
    } else {
        None
    }
}

/// The effective workflow of one run: `wf` with the slots given in `ov`
/// replaced. Fails with `Validation` when an override names a backend that is
/// not configured, or gives a flag the workflow's pattern does not use.
pub fn effective_workflow(cfg: &Config, wf: WorkflowConfig, ov: WorkflowOverrides) -> (r: Result<WorkflowConfig>)
    ensures
        match override_issue(*cfg, wf, ov) {
            Some(m) => r matches Err(WeirError::Validation(x)) && x@ == m,
            None => r matches Ok(e) && overridden(wf, ov, e),
        },
{
    let ghost raw = ov.steps@.map_values(|s: String| step_backend_of(s@));
    let mut parsed: Vec<PipelineStep> = Vec::new();
    let mut step_names: Vec<String> = Vec::new();
    let mut i: usize = 0;
    while i < ov.steps.len()
        invariant
            i <= ov.steps.len(),
            raw == ov.steps@.map_values(|s: String| step_backend_of(s@)),
            parsed@.len() == i,
            forall|k: int| 0 <= k < i ==> parses_to(ov.steps@[k]@, #[trigger] parsed@[k]),
            name_views(step_names@) =~= raw.take(i as int),
        decreases ov.steps.len() - i,
    {
        let st = parse_step(ov.steps[i].as_str());
        let ghost before = step_names@;
        step_names.push(st.backend.clone());
        parsed.push(st);
        assert(name_views(step_names@) =~= raw.take(i + 1)) by {
            assert(name_views(step_names@) =~= name_views(before).push(step_names@[i as int]@));
            assert(raw.take(i + 1) =~= raw.take(i as int).push(raw[i as int]));
        }
        i = i + 1;
    }
    assert(raw.take(ov.steps.len() as int) =~= raw);
    proof {
        let a = name_views(ov.backends@);
        let g = opt_names(ov.generator);
        let e = opt_names(ov.evaluator);
        let j = opt_names(ov.judge);
        let s = opt_names(ov.synthesizer);
        lemma_first_unknown_append(*cfg, a + raw + g + e + j, s);
        lemma_first_unknown_append(*cfg, a + raw + g + e, j);
        lemma_first_unknown_append(*cfg, a + raw + g, e);
        lemma_first_unknown_append(*cfg, a + raw, g);
        lemma_first_unknown_append(*cfg, a, raw);
    }
    let unknown = match first_unknown_name(cfg, &ov.backends) {
        Some(b) => Some(b),
        None => match first_unknown_name(cfg, &step_names) {
            Some(b) => Some(b),
            None => match first_unknown_opt(cfg, &ov.generator) {
                Some(b) => Some(b),
                None => match first_unknown_opt(cfg, &ov.evaluator) {
                    Some(b) => Some(b),
                    None => match first_unknown_opt(cfg, &ov.judge) {
                        Some(b) => Some(b),
                        None => first_unknown_opt(cfg, &ov.synthesizer),
                    },
                },
            },
        },
    };
    if let Some(b) = unknown {
        let mut m = String::from_str("backend '");
        m.append(b.as_str());
        m.append("' not found");
        return Err(WeirError::Validation(m));
    }
    if let Some(flag) = inapplicable_flag_exec(wf.pattern.as_str(), &ov) {
        let mut detail = String::from_str("flag ");
        detail.append(flag);
        detail.append(" does not apply");
        return Err(WeirError::Validation(wf_message(wf.name.as_str(), wf.pattern.as_str(), detail.as_str())));
    }
    let WorkflowOverrides { backends, steps, generator, evaluator, judge, synthesizer } = ov;
    let WorkflowConfig {
        name,
        pattern,
        backends: wf_backends,
        aggregation,
        steps: wf_steps,
        generator: wf_generator,
        evaluator: wf_evaluator,
        max_iterations,
        judge: wf_judge,
        synthesizer: wf_synthesizer,
    } = wf;
    Ok(
        WorkflowConfig {
            name,
            pattern,
            backends: if backends.len() > 0 { backends } else { wf_backends },
            aggregation,
            steps: if steps.len() > 0 { parsed } else { wf_steps },
            generator: if generator.is_some() { generator } else { wf_generator },
            evaluator: if evaluator.is_some() { evaluator } else { wf_evaluator },
            max_iterations,
            judge: if judge.is_some() { judge } else { wf_judge },
            synthesizer: if synthesizer.is_some() { synthesizer } else { wf_synthesizer },
        },
    )
}

} // verus!

verus! {

// ── resolving a workflow into what its engine runs ───────────────────────────

/// Criteria an eval-loop judges by when the caller gives none.
pub open spec fn default_criteria() -> Seq<char> {
    "The response should be accurate, helpful, and complete."@
}

/// Iterations an eval-loop runs when the workflow sets no `max_iterations`.
pub open spec fn default_max_iterations() -> u32 {
    5
}

/// Why a workflow cannot be resolved: a backend that is not configured, or a
/// workflow that lacks what its pattern needs.
pub enum PlanIssue {
    NotFound(Seq<char>),
    Invalid(Seq<char>),
}

/// `e` is the error that reports `issue`.
pub open spec fn reports(e: WeirError, issue: PlanIssue) -> bool {
    match issue {
        PlanIssue::NotFound(b) => e matches WeirError::BackendNotFound(n) && n@ == b,
        PlanIssue::Invalid(m) => e matches WeirError::Validation(x) && x@ == m,
    }
}

/// `b` is not configured.
pub open spec fn missing(cfg: Config, b: Seq<char>) -> Option<PlanIssue> {
    if known(cfg, b) {
        None
    } else {
        Some(PlanIssue::NotFound(b))
    }
}

/// The first of `names` that is not configured.
pub open spec fn missing_of(cfg: Config, names: Seq<Seq<char>>) -> Option<PlanIssue> {
    match first_unknown(cfg, names) {
        Some(b) => Some(PlanIssue::NotFound(b)),
        None => None,
    }
}

/// "workflow '<name>': <detail>"
pub open spec fn wf_detail(name: Seq<char>, detail: Seq<char>) -> Seq<char> {
    "workflow '"@ + name + "': "@ + detail
}

/// The first reason, in the order the backends are resolved, why `wf`
/// cannot be run.
pub open spec fn plan_issue(cfg: Config, wf: WorkflowConfig) -> Option<PlanIssue> {
    let p = wf.pattern@;
    if p == "fan-out"@ {
        missing_of(cfg, name_views(wf.backends@))
    } else if p == "pipeline"@ {
        missing_of(cfg, step_backends(wf))
    } else if p == "router"@ {
        if wf.backends@.len() == 0 {
            Some(PlanIssue::Invalid(wf_detail(wf.name@, "no backend"@)))
        } else {
            missing(cfg, wf.backends@[0]@)
        }
    } else if p == "eval-loop"@ {
        match (wf.generator, wf.evaluator) {
            (None, _) => Some(PlanIssue::Invalid(wf_detail(wf.name@, "missing generator"@))),
            (Some(_), None) => Some(PlanIssue::Invalid(wf_detail(wf.name@, "missing evaluator"@))),
            (Some(g), Some(e)) => match missing(cfg, g@) {
                Some(i) => Some(i),
                None => missing(cfg, e@),
            },
        }
    } else if p == "fusion"@ {
        match missing_of(cfg, name_views(wf.backends@)) {
            Some(i) => Some(i),
            None => match wf.judge {
                None => Some(PlanIssue::Invalid(wf_detail(wf.name@, "missing judge"@))),
                Some(j) => match missing(cfg, j@) {
                    Some(i) => Some(i),
                    None => missing(cfg, or_default(wf.synthesizer, j)@),
                },
            },
        }
    } else {
        Some(PlanIssue::Invalid("unknown workflow pattern: "@ + p))
    }
}

/// What a workflow's engine is given to run.
#[derive(Debug)]
pub enum WorkflowPlan {
    /// Every backend gets the prompt.
    FanOut { backends: Vec<StdioCliBackend> },
    /// The backends of the steps, in step order.
    Pipeline { backends: Vec<StdioCliBackend> },
    /// The one backend the prompt goes to.
    Router { backend: StdioCliBackend },
    /// Generator, evaluator, the criteria and the iteration limit.
    EvalLoop { generator: StdioCliBackend, evaluator: StdioCliBackend, criteria: String, max_iterations: u32 },
    /// The panel, the judge and the synthesizer.
    Fusion { panel: Vec<StdioCliBackend>, judge: StdioCliBackend, synthesizer: StdioCliBackend },
}

/// `plan` is what `wf` resolves to against `cfg`, with `criteria` the
/// caller's eval-loop criteria.
pub open spec fn plan_fits(cfg: Config, wf: WorkflowConfig, criteria: Option<Seq<char>>, plan: WorkflowPlan) -> bool {
    let p = wf.pattern@;
    match plan {
        WorkflowPlan::FanOut { backends } => p == "fan-out"@ && resolves_all(
            cfg,
            name_views(wf.backends@),
            backends@,
        ),
        WorkflowPlan::Pipeline { backends } => p == "pipeline"@ && resolves_all(cfg, step_backends(wf), backends@),
        WorkflowPlan::Router { backend } => p == "router"@ && backend.built_from(backend_for(cfg, wf.backends@[0]@)),
        WorkflowPlan::EvalLoop { generator, evaluator, criteria: c, max_iterations } => {
            &&& p == "eval-loop"@
            &&& generator.built_from(backend_for(cfg, wf.generator->0@))
            &&& evaluator.built_from(backend_for(cfg, wf.evaluator->0@))
            &&& c@ == or_default(criteria, default_criteria())
            &&& max_iterations == or_default(wf.max_iterations, default_max_iterations())
        },
        WorkflowPlan::Fusion { panel, judge, synthesizer } => {
            &&& p == "fusion"@
            &&& resolves_all(cfg, name_views(wf.backends@), panel@)
            &&& judge.built_from(backend_for(cfg, wf.judge->0@))
            &&& synthesizer.built_from(backend_for(cfg, or_default(wf.synthesizer, wf.judge->0)@))
        },
    }
}

fn detail_error(name: &str, detail: &str) -> (e: WeirError)
    ensures
        e matches WeirError::Validation(x) && x@ == wf_detail(name@, detail@),
{
    let mut m = String::from_str("workflow '");
    m.append(name);
    m.append("': ");
    m.append(detail);
    WeirError::Validation(m)
}

/// Resolves every backend `wf` needs, in the order its engine would, and
/// gathers what the engine runs with. `criteria` is the caller's eval-loop
/// criteria (the default applies when absent).
pub fn plan_workflow(cfg: &Config, wf: &WorkflowConfig, criteria: Option<&str>) -> (r: Result<WorkflowPlan>)
    ensures
        match plan_issue(*cfg, *wf) {
            Some(issue) => r matches Err(e) && reports(e, issue),
            None => r matches Ok(plan) && plan_fits(
                *cfg,
                *wf,
                match criteria {
                    Some(c) => Some(c@),
                    None => None,
                },
                plan,
            ),
        },
{
    let p = wf.pattern.as_str();
    if str_eq(p, "fan-out") {
        let backends = build_all(cfg, &wf.backends)?;
        Ok(WorkflowPlan::FanOut { backends })
    } else if str_eq(p, "pipeline") {
        let mut names: Vec<String> = Vec::new();
        let mut i: usize = 0;
        while i < wf.steps.len()
            invariant
                i <= wf.steps.len(),
                name_views(names@) =~= step_backends(*wf).take(i as int),
            decreases wf.steps.len() - i,
        {
            let ghost before = names@;
            names.push(wf.steps[i].backend.clone());
            assert(name_views(names@) =~= name_views(before).push(names@[i as int]@));
            assert(step_backends(*wf).take(i + 1) =~= step_backends(*wf).take(i as int).push(
                step_backends(*wf)[i as int],
            ));
            i = i + 1;
        }
        assert(step_backends(*wf).take(wf.steps.len() as int) =~= step_backends(*wf));
        let backends = build_all(cfg, &names)?;
        Ok(WorkflowPlan::Pipeline { backends })
    } else if str_eq(p, "router") {
        if wf.backends.len() == 0 {
            return Err(detail_error(wf.name.as_str(), "no backend"));
        }
        let backend = build_backend(cfg, wf.backends[0].as_str())?;
        Ok(WorkflowPlan::Router { backend })
    } else if str_eq(p, "eval-loop") {
        let gen_name = match &wf.generator {
            Some(g) => g.as_str(),
            None => return Err(detail_error(wf.name.as_str(), "missing generator")),
        };
        let eval_name = match &wf.evaluator {
            Some(e) => e.as_str(),
            None => return Err(detail_error(wf.name.as_str(), "missing evaluator")),
        };
        let generator = build_backend(cfg, gen_name)?;
        let evaluator = build_backend(cfg, eval_name)?;
        let criteria = match criteria {
            Some(c) => String::from_str(c),
            None => String::from_str("The response should be accurate, helpful, and complete."),
        };
        let max_iterations = match wf.max_iterations {
            Some(n) => n,
            None => 5,
        };
        Ok(WorkflowPlan::EvalLoop { generator, evaluator, criteria, max_iterations })
    } else if str_eq(p, "fusion") {
        let panel = build_all(cfg, &wf.backends)?;
        let judge_name = match &wf.judge {
            Some(j) => j.as_str(),
            None => return Err(detail_error(wf.name.as_str(), "missing judge")),
        };
        let judge = build_backend(cfg, judge_name)?;
        let synth_name = match &wf.synthesizer {
            Some(s) => s.as_str(),
            None => judge_name,
        };
        let synthesizer = build_backend(cfg, synth_name)?;
        Ok(WorkflowPlan::Fusion { panel, judge, synthesizer })
    } else {
        let mut m = String::from_str("unknown workflow pattern: ");
        m.append(p);
        Err(WeirError::Validation(m))
    }
}

} // verus!

verus! {

/// With no override given, a run uses the workflow exactly as configured:
/// the overrides raise no issue, and the effective workflow is `wf` itself.
pub proof fn law_no_overrides_keep_workflow(cfg: Config, wf: WorkflowConfig, ov: WorkflowOverrides, e: WorkflowConfig)
    requires
        ov.backends@.len() == 0,
        ov.steps@.len() == 0,
        ov.generator is None,
        ov.evaluator is None,
        ov.judge is None,
        ov.synthesizer is None,
    ensures
        override_issue(cfg, wf, ov) is None,
        overridden(wf, ov, e) ==> e == wf,
{
    let names = flag_names(ov);
    assert(names =~= Seq::<Seq<char>>::empty());
    assert(first_unknown(cfg, names) is None);
}

/// A flag given at call time fully replaces the corresponding slot of the
/// configured workflow, and a slot with no flag keeps its configured value:
/// this holds of the generator, evaluator, judge and synthesizer, of the
/// backends list, and of the pipeline steps (one per `--step`, in order); the
/// name, pattern, aggregation and iteration limit never change.
pub proof fn law_flags_replace_slots(wf: WorkflowConfig, ov: WorkflowOverrides, e: WorkflowConfig)
    requires
        overridden(wf, ov, e),
    ensures
        ov.generator matches Some(g) ==> e.generator == Some(g),
        ov.generator is None ==> e.generator == wf.generator,
        ov.evaluator matches Some(x) ==> e.evaluator == Some(x),
        ov.evaluator is None ==> e.evaluator == wf.evaluator,
        ov.judge matches Some(x) ==> e.judge == Some(x),
        ov.judge is None ==> e.judge == wf.judge,
        ov.synthesizer matches Some(x) ==> e.synthesizer == Some(x),
        ov.synthesizer is None ==> e.synthesizer == wf.synthesizer,
        ov.backends@.len() > 0 ==> e.backends == ov.backends,
        ov.backends@.len() == 0 ==> e.backends == wf.backends,
        ov.steps@.len() > 0 ==> e.steps@.len() == ov.steps@.len() && forall|i: int|
            0 <= i < ov.steps@.len() ==> #[trigger] e.steps@[i].backend@ == step_backend_of(ov.steps@[i]@),
        ov.steps@.len() == 0 ==> e.steps == wf.steps,
        e.name == wf.name && e.pattern == wf.pattern,
        e.aggregation == wf.aggregation && e.max_iterations == wf.max_iterations,
{
    if ov.steps@.len() > 0 {
        assert forall|i: int| 0 <= i < ov.steps@.len() implies #[trigger] e.steps@[i].backend@ == step_backend_of(
            ov.steps@[i]@,
        ) by {
            assert(parses_to(ov.steps@[i]@, e.steps@[i]));
        }
    }
}

} // verus!
