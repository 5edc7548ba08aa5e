//! The command-line scenarios, at the level of the library: the commands'
//! decisions are checked and the agent processes are stood in for by plain
//! POSIX behaviour (`echo` prints its arguments, `printf` its format, `sh -c
//! "exit 3"` fails).

use weir::backends::stdio_cli::StdioCliBackend;
use weir::backends::{ChatRequest, ChatResponse};
use weir::cli::backend::backend_summary;
use weir::config::validate::validate;
use weir::config::{
    BackendConfig, BackendKind, Config, PipelineStep, ResilienceConfig, ServerConfig, WorkflowConfig,
};
use weir::engine::fan_out::{gather, BranchOutcome};
use weir::engine::eval_loop::{EvalAction, EvalLoop};
use weir::engine::fusion::{FusionAction, FusionRun};
use weir::engine::pipeline::{PipelineAction, PipelineRun};
use weir::engine::workflow::{build_backend, effective_workflow, plan_workflow, WorkflowOverrides, WorkflowPlan};
use weir::error::{exit_code_for, WeirError};

fn backend(name: &str, command: &str, args: &[&str], retry_attempts: Option<u32>) -> BackendConfig {
    BackendConfig {
        name: name.to_string(),
        kind: BackendKind::StdioCli { command: command.to_string(), args: args.iter().map(|a| a.to_string()).collect() },
        timeout_secs: 60,
        default_model: None,
        retry_attempts,
        failure_threshold: None,
        recovery_secs: None,
        rate_limit_millirps: None,
    }
}

fn workflow(name: &str, pattern: &str) -> WorkflowConfig {
    WorkflowConfig {
        name: name.to_string(),
        pattern: pattern.to_string(),
        backends: vec![],
        aggregation: None,
        steps: vec![],
        generator: None,
        evaluator: None,
        max_iterations: None,
        judge: None,
        synthesizer: None,
    }
}

fn strings(v: &[&str]) -> Vec<String> {
    v.iter().map(|s| s.to_string()).collect()
}

/// The test configuration: deterministic POSIX commands as backends.
fn test_config() -> Config {
    Config {
        server: ServerConfig::default(),
        backends: vec![
            backend("echoer", "echo", &["{prompt}"], None),
            backend("fixed", "printf", &["fixed-output"], None),
            backend("failer", "sh", &["-c", "exit 3"], Some(1)),
            backend("synth", "printf", &["final-synthesis"], None),
            backend("synth2", "printf", &["alt-synthesis"], None),
            backend("passer", "printf", &["PASS"], None),
        ],
        workflows: vec![
            WorkflowConfig { backends: strings(&["echoer", "fixed"]), ..workflow("dual", "fan-out") },
            WorkflowConfig {
                steps: vec![
                    PipelineStep { backend: "echoer".into(), role: None, prompt_template: None },
                    PipelineStep {
                        backend: "echoer".into(),
                        role: None,
                        prompt_template: Some("prev: {{step.output}}".into()),
                    },
                ],
                ..workflow("pipe", "pipeline")
            },
            WorkflowConfig {
                backends: strings(&["echoer", "fixed"]),
                judge: Some("synth".into()),
                synthesizer: Some("synth".into()),
                ..workflow("fuse", "fusion")
            },
            WorkflowConfig {
                generator: Some("echoer".into()),
                evaluator: Some("passer".into()),
                max_iterations: Some(3),
                ..workflow("loop", "eval-loop")
            },
        ],
        resilience: ResilienceConfig::default(),
    }
}

fn no_overrides() -> WorkflowOverrides {
    WorkflowOverrides { backends: vec![], steps: vec![], generator: None, evaluator: None, judge: None, synthesizer: None }
}

/// Stands in for running the backend's process on `req`.
fn run_process(b: &StdioCliBackend, req: &ChatRequest) -> Result<ChatResponse, WeirError> {
    let (command, args) = b.invocation(req);
    match command.as_str() {
        "echo" => b.outcome(true, "exit status: 0", format!("{}\n", args.join(" ")).as_bytes(), b""),
        "printf" => b.outcome(true, "exit status: 0", args[0].as_bytes(), b""),
        _ => b.outcome(false, "exit status: 3", b"", b""),
    }
}

fn chat(cfg: &Config, name: &str, prompt: &str) -> Result<ChatResponse, WeirError> {
    let b = build_backend(cfg, name)?;
    run_process(&b, &ChatRequest::user(prompt))
}

/// Runs workflow `name` with `ov`, standing in for every process; returns
/// the pattern's output as (backend, content) pairs.
fn run_workflow(cfg: &Config, name: &str, ov: WorkflowOverrides, criteria: Option<&str>, prompt: &str) -> Result<Vec<(String, String)>, WeirError> {
    let wf = cfg.find_workflow(name)?.clone();
    let eff = effective_workflow(cfg, wf, ov)?;
    match plan_workflow(cfg, &eff, criteria)? {
        WorkflowPlan::FanOut { backends } => {
            let req = ChatRequest::user(prompt);
            let outcomes = backends
                .iter()
                .map(|b| BranchOutcome::Completed { backend: b.name().to_string(), result: run_process(b, &req) })
                .collect();
            Ok(gather(outcomes)?.into_iter().map(|r| (r.backend_name, r.content)).collect())
        }
        WorkflowPlan::Pipeline { backends } => {
            let names = backends.iter().map(|b| b.name().to_string()).collect();
            let (mut run, mut a) = PipelineRun::start(names, eff.steps.clone(), prompt);
            loop {
                match a {
                    PipelineAction::Call { backend, request } => a = run.on_response(run_process(&backends[backend], &request)),
                    PipelineAction::Finished(r) => {
                        let r = r?;
                        return Ok(vec![(r.backend_name, r.content)]);
                    }
                }
            }
        }
        WorkflowPlan::Router { backend } => {
            let r = run_process(&backend, &ChatRequest::user(prompt))?;
            Ok(vec![(r.backend_name, r.content)])
        }
        WorkflowPlan::EvalLoop { generator, evaluator, criteria, max_iterations } => {
            let (mut run, mut a) = EvalLoop::start(generator.name(), evaluator.name(), prompt, &criteria, max_iterations);
            loop {
                match a {
                    EvalAction::Generate(req) => a = run.on_generated(run_process(&generator, &req)),
                    EvalAction::Evaluate(req) => a = run.on_evaluated(run_process(&evaluator, &req)),
                    EvalAction::Finished(r) => {
                        let r = r?;
                        return Ok(vec![(r.response.backend_name, r.response.content)]);
                    }
                }
            }
        }
        WorkflowPlan::Fusion { panel, judge, synthesizer } => {
            let (mut run, mut a) = FusionRun::start(panel.len(), judge.name(), synthesizer.name(), prompt);
            loop {
                match a {
                    FusionAction::Panel(req) => {
                        let outcomes = panel
                            .iter()
                            .map(|b| BranchOutcome::Completed { backend: b.name().to_string(), result: run_process(b, &req) })
                            .collect();
                        a = run.on_panel(outcomes);
                    }
                    FusionAction::Judge(req) => a = run.on_judged(run_process(&judge, &req)),
                    FusionAction::Synthesize(req) => a = run.on_synthesized(run_process(&synthesizer, &req)),
                    FusionAction::Finished(r) => {
                        let r = r?;
                        return Ok(vec![(r.synthesis.backend_name, r.synthesis.content)]);
                    }
                }
            }
        }
    }
}

// ── chat ────────────────────────────────────────────────────────────────────

#[test]
fn chat_echoes_the_prompt() {
    let cfg = test_config();
    let resp = chat(&cfg, "echoer", "hello-prompt").unwrap();
    assert!(resp.content.contains("hello-prompt"));
}

#[test]
fn chat_json_has_backend_and_content() {
    let cfg = test_config();
    let resp = chat(&cfg, "fixed", "ignored").unwrap();
    assert_eq!(resp.backend_name, "fixed");
    assert_eq!(resp.content, "fixed-output");
}

#[test]
fn chat_failing_backend_exits_nonzero() {
    let cfg = test_config();
    let err = chat(&cfg, "failer", "x").unwrap_err();
    assert_ne!(exit_code_for(&err), 0);
}

#[test]
fn chat_unknown_backend_exits_nonzero() {
    let cfg = test_config();
    let err = chat(&cfg, "does-not-exist", "x").unwrap_err();
    assert_eq!(err, WeirError::BackendNotFound("does-not-exist".into()));
    assert_ne!(exit_code_for(&err), 0);
}

// ── workflows ───────────────────────────────────────────────────────────────

#[test]
fn fan_out_returns_one_result_per_backend() {
    let cfg = test_config();
    let results = run_workflow(&cfg, "dual", no_overrides(), None, "hi").unwrap();
    assert_eq!(results.len(), 2);
    let names: Vec<&str> = results.iter().map(|(b, _)| b.as_str()).collect();
    assert!(names.contains(&"echoer"));
    assert!(names.contains(&"fixed"));
}

#[test]
fn pipeline_substitutes_step_output() {
    let cfg = test_config();
    let results = run_workflow(&cfg, "pipe", no_overrides(), None, "seed").unwrap();
    let content = &results[0].1;
    assert!(content.contains("prev: seed"), "expected resolved template, got: {content:?}");
}

// ── config management ───────────────────────────────────────────────────────

#[test]
fn validate_good_config_is_ok() {
    let cfg = test_config();
    assert!(validate(&cfg).is_ok());
    assert_eq!(cfg.backends.len(), 6);
    assert_eq!(cfg.workflows.len(), 4);
}

#[test]
fn backend_list_json_includes_configured_names() {
    let cfg = test_config();
    let names: Vec<&str> = cfg.backends.iter().map(|b| b.name.as_str()).collect();
    assert!(names.contains(&"echoer"));
    assert!(names.contains(&"fixed"));
    assert!(names.contains(&"failer"));
    let (kind, details) = backend_summary(&cfg.backends[2].kind);
    assert_eq!(kind, "stdio-cli");
    assert_eq!(details, "sh -c exit 3");
}

// ── call-time backend overrides ─────────────────────────────────────────────

#[test]
fn override_backend_replaces_fan_out_list() {
    let cfg = test_config();
    let ov = WorkflowOverrides { backends: strings(&["fixed"]), ..no_overrides() };
    let results = run_workflow(&cfg, "dual", ov, None, "hi").unwrap();
    assert_eq!(results.len(), 1, "replace, not append");
    assert_eq!(results[0].0, "fixed");
}

#[test]
fn no_override_uses_toml_default() {
    let cfg = test_config();
    let results = run_workflow(&cfg, "dual", no_overrides(), None, "hi").unwrap();
    assert_eq!(results.len(), 2);
}

#[test]
fn override_unknown_backend_exits_nonzero() {
    let cfg = test_config();
    let ov = WorkflowOverrides { backends: strings(&["ghost"]), ..no_overrides() };
    let err = run_workflow(&cfg, "dual", ov, None, "hi").unwrap_err();
    assert_eq!(err, WeirError::Validation("backend 'ghost' not found".into()));
    assert_ne!(exit_code_for(&err), 0);
}

#[test]
fn override_inapplicable_flag_exits_nonzero() {
    let cfg = test_config();
    let ov = WorkflowOverrides { judge: Some("synth".into()), ..no_overrides() };
    let err = run_workflow(&cfg, "dual", ov, None, "hi").unwrap_err();
    assert_eq!(err, WeirError::Validation("workflow 'dual' (fan-out): flag --judge does not apply".into()));
    assert_ne!(exit_code_for(&err), 0);
}

#[test]
fn override_pipeline_steps() {
    let cfg = test_config();
    let ov = WorkflowOverrides { steps: strings(&["echoer", "echoer:prev: {{step.output}}"]), ..no_overrides() };
    let results = run_workflow(&cfg, "pipe", ov, None, "seed").unwrap();
    assert!(results[0].1.contains("prev: seed"));
}

#[test]
fn override_fusion_synthesizer() {
    let cfg = test_config();
    let ov = WorkflowOverrides { synthesizer: Some("synth2".into()), ..no_overrides() };
    let results = run_workflow(&cfg, "fuse", ov, None, "x").unwrap();
    assert_eq!(results[0].1, "alt-synthesis");
}

#[test]
fn override_eval_loop_generator() {
    let cfg = test_config();
    let ov = WorkflowOverrides { generator: Some("fixed".into()), ..no_overrides() };
    let results = run_workflow(&cfg, "loop", ov, Some("anything"), "seed").unwrap();
    assert!(results[0].1.contains("fixed-output"));
}

#[test]
fn chat_request_puts_the_system_message_first() {
    let req = ChatRequest::chat(Some("be brief"), "hi", Some(64), Some("m1".to_string()));
    assert_eq!(req.messages.len(), 2);
    assert_eq!((req.messages[0].role.as_str(), req.messages[0].content.as_str()), ("system", "be brief"));
    assert_eq!((req.messages[1].role.as_str(), req.messages[1].content.as_str()), ("user", "hi"));
    assert_eq!(req.max_tokens, Some(64));
    let req = ChatRequest::chat(None, "hi", None, None);
    assert_eq!(req.messages.len(), 1);
    assert!(req.model.is_none());
}

#[test]
fn chat_model_override_is_substituted() {
    let mut cfg = test_config();
    cfg.backends.push(backend("modeled", "hermes", &["-z", "{prompt}", "-m", "{model}"], None));
    let b = build_backend(&cfg, "modeled").unwrap();
    let (_, args) = b.invocation(&ChatRequest::chat(None, "q", None, Some("big".to_string())));
    assert_eq!(args, vec!["-z", "q", "-m", "big"]);
    // Without a model the `-m {model}` pair is dropped.
    let (_, args) = b.invocation(&ChatRequest::chat(None, "q", None, None));
    assert_eq!(args, vec!["-z", "q"]);
}

#[test]
fn debug_args_shortens_long_prompts() {
    let b = StdioCliBackend::new(&backend("b", "echo", &["-p", "{prompt}", "-m", "{model}"], None)).unwrap();
    let short = "hello";
    assert_eq!(b.debug_args(short, Some("x")), vec!["-p", "hello", "-m", "x"]);
    let long = "a".repeat(250);
    let expected = format!("{}…[250 chars]", "a".repeat(200));
    assert_eq!(b.debug_args(&long, None), vec!["-p".to_string(), expected]);
    // Exactly 200 bytes is kept whole.
    let edge = "b".repeat(200);
    assert_eq!(b.debug_args(&edge, Some("m")), vec!["-p".to_string(), edge.clone(), "-m".to_string(), "m".to_string()]);
    // The count is in bytes: 101 two-byte characters are 202 bytes.
    let wide = "é".repeat(101);
    let cut = format!("{}…[202 chars]", "é".repeat(100));
    assert_eq!(b.debug_args(&wide, Some("m")), vec!["-p".to_string(), cut, "-m".to_string(), "m".to_string()]);
}

#[test]
fn debug_args_cuts_before_a_character_across_byte_200() {
    let b = StdioCliBackend::new(&backend("b", "echo", &["{prompt}"], None)).unwrap();
    // One ASCII byte, then two-byte characters: byte 200 falls inside one.
    let prompt = format!("a{}", "é".repeat(101));
    let expected = format!("a{}…[203 chars]", "é".repeat(99));
    assert_eq!(b.debug_args(&prompt, None), vec![expected]);
    // A four-byte character straddling byte 200.
    let prompt = format!("{}😀tail", "x".repeat(198));
    let expected = format!("{}…[206 chars]", "x".repeat(198));
    assert_eq!(b.debug_args(&prompt, None), vec![expected]);
}
