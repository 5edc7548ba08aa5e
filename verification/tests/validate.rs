use weir::config::validate::validate;
use weir::config::{
    BackendConfig, BackendKind, Config, PipelineStep, ResilienceConfig, ServerConfig, WorkflowConfig,
};

fn backend(name: &str) -> BackendConfig {
    BackendConfig {
        name: name.to_string(),
        kind: BackendKind::StdioCli { command: "hermes".to_string(), args: vec![] },
        timeout_secs: 60,
        default_model: None,
        retry_attempts: None,
        failure_threshold: None,
        recovery_secs: None,
        rate_limit_millirps: None,
    }
}

fn minimal_config() -> Config {
    Config {
        server: ServerConfig::default(),
        backends: vec![backend("llm-a"), backend("llm-b")],
        workflows: vec![],
        resilience: ResilienceConfig::default(),
    }
}

fn workflow(name: &str, pattern: &str) -> WorkflowConfig {
    WorkflowConfig {
        name: name.to_string(),
        pattern: pattern.to_string(),
        backends: vec![],
        aggregation: None,
        steps: vec![],
        generator: None,
        evaluator: None,
        max_iterations: None,
        judge: None,
        synthesizer: None,
    }
}

fn fusion_workflow(name: &str, backends: Vec<String>, judge: Option<String>) -> WorkflowConfig {
    WorkflowConfig { backends, judge, ..workflow(name, "fusion") }
}

fn error_text(cfg: &Config) -> String {
    validate(cfg).unwrap_err().message()
}

#[test]
fn duplicate_backend_name_is_rejected() {
    let mut cfg = minimal_config();
    cfg.backends[1].name = "llm-a".to_string();
    assert!(error_text(&cfg).contains("duplicate backend name"));
}

#[test]
fn empty_backend_name_is_rejected() {
    let mut cfg = minimal_config();
    cfg.backends[0].name = String::new();
    assert!(error_text(&cfg).contains("backend name must not be empty"));
}

#[test]
fn unknown_pattern_is_rejected() {
    let mut cfg = minimal_config();
    cfg.workflows.push(WorkflowConfig { backends: vec!["llm-a".to_string()], ..workflow("wf", "scatter-gather") });
    assert!(error_text(&cfg).contains("unknown pattern"));
}

#[test]
fn fan_out_empty_backends_rejected() {
    let mut cfg = minimal_config();
    cfg.workflows.push(workflow("fo", "fan-out"));
    assert!(error_text(&cfg).contains("'backends' must not be empty"));
}

#[test]
fn fan_out_unknown_backend_rejected() {
    let mut cfg = minimal_config();
    cfg.workflows.push(WorkflowConfig { backends: vec!["ghost".to_string()], ..workflow("fo", "fan-out") });
    assert!(error_text(&cfg).contains("unknown backend 'ghost'"));
}

#[test]
fn router_must_have_exactly_one_backend() {
    let mut cfg = minimal_config();
    cfg.workflows.push(WorkflowConfig {
        backends: vec!["llm-a".to_string(), "llm-b".to_string()],
        ..workflow("r", "router")
    });
    assert!(error_text(&cfg).contains("exactly 1 entry"));
}

#[test]
fn eval_loop_missing_generator_rejected() {
    let mut cfg = minimal_config();
    cfg.workflows.push(WorkflowConfig { evaluator: Some("llm-b".to_string()), ..workflow("el", "eval-loop") });
    assert!(error_text(&cfg).contains("'generator' is required"));
}

#[test]
fn fusion_missing_judge_rejected() {
    let mut cfg = minimal_config();
    cfg.workflows.push(fusion_workflow("fuse", vec!["llm-a".to_string(), "llm-b".to_string()], None));
    assert!(error_text(&cfg).contains("'judge' backend is required"));
}

#[test]
fn fusion_too_few_panel_backends_rejected() {
    let mut cfg = minimal_config();
    cfg.workflows.push(fusion_workflow("fuse", vec!["llm-a".to_string()], Some("llm-b".to_string())));
    assert!(error_text(&cfg).contains("at least 2 entries"));
}

#[test]
fn fusion_unknown_panel_backend_rejected() {
    let mut cfg = minimal_config();
    cfg.workflows.push(fusion_workflow(
        "fuse",
        vec!["llm-a".to_string(), "ghost".to_string()],
        Some("llm-b".to_string()),
    ));
    assert!(error_text(&cfg).contains("unknown backend 'ghost'"));
}

#[test]
fn fusion_unknown_judge_rejected() {
    let mut cfg = minimal_config();
    cfg.workflows.push(fusion_workflow(
        "fuse",
        vec!["llm-a".to_string(), "llm-b".to_string()],
        Some("ghost-judge".to_string()),
    ));
    assert!(error_text(&cfg).contains("unknown backend 'ghost-judge'"));
}

#[test]
fn fusion_valid_config_passes() {
    let mut cfg = minimal_config();
    cfg.workflows.push(fusion_workflow(
        "fuse",
        vec!["llm-a".to_string(), "llm-b".to_string()],
        Some("llm-a".to_string()),
    ));
    assert!(validate(&cfg).is_ok());
}

#[test]
fn valid_minimal_config_passes() {
    let cfg = minimal_config();
    assert!(validate(&cfg).is_ok());
}

#[test]
fn messages_are_exact() {
    let mut cfg = minimal_config();
    cfg.workflows.push(WorkflowConfig {
        backends: vec!["llm-a".to_string(), "llm-b".to_string()],
        ..workflow("r", "router")
    });
    assert_eq!(
        error_text(&cfg),
        "validation failed: workflow 'r' (router): 'backends' must have exactly 1 entry, got 2"
    );
    let mut cfg = minimal_config();
    cfg.workflows.push(WorkflowConfig {
        steps: vec![PipelineStep { backend: "nope".into(), role: None, prompt_template: None }],
        ..workflow("p", "pipeline")
    });
    assert_eq!(
        error_text(&cfg),
        "validation failed: workflow 'p' (pipeline): step references unknown backend 'nope'"
    );
}

#[test]
fn syntactic_problems_come_before_semantic_ones() {
    let mut cfg = minimal_config();
    // A semantic problem in the first workflow, a syntactic one in the second.
    cfg.workflows.push(workflow("fo", "fan-out"));
    cfg.workflows.push(workflow("fo", "fan-out"));
    assert_eq!(error_text(&cfg), "validation failed: duplicate workflow name: 'fo'");
}

#[test]
fn eval_loop_missing_evaluator_and_unknown_synthesizer() {
    let mut cfg = minimal_config();
    cfg.workflows.push(WorkflowConfig { generator: Some("llm-a".to_string()), ..workflow("el", "eval-loop") });
    assert!(error_text(&cfg).contains("'evaluator' is required"));
    let mut cfg = minimal_config();
    cfg.workflows.push(WorkflowConfig {
        synthesizer: Some("ghost-s".to_string()),
        ..fusion_workflow("fuse", vec!["llm-a".to_string(), "llm-b".to_string()], Some("llm-a".to_string()))
    });
    assert!(error_text(&cfg).contains("synthesizer references unknown backend 'ghost-s'"));
}
