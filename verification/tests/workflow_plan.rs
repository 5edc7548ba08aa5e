use weir::config::{BackendConfig, BackendKind, Config, ResilienceConfig, ServerConfig, WorkflowConfig};
use weir::engine::workflow::{effective_workflow, parse_step, plan_workflow, WorkflowOverrides, WorkflowPlan};
use weir::error::WeirError;

fn backend(name: &str) -> BackendConfig {
    BackendConfig {
        name: name.to_string(),
        kind: BackendKind::StdioCli { command: name.to_string(), args: vec!["{prompt}".to_string()] },
        timeout_secs: 60,
        default_model: None,
        retry_attempts: None,
        failure_threshold: None,
        recovery_secs: None,
        rate_limit_millirps: None,
    }
}

fn config() -> Config {
    Config {
        server: ServerConfig::default(),
        backends: vec![backend("a"), backend("b"), backend("c")],
        workflows: vec![],
        resilience: ResilienceConfig::default(),
    }
}

fn workflow(name: &str, pattern: &str) -> WorkflowConfig {
    WorkflowConfig {
        name: name.to_string(),
        pattern: pattern.to_string(),
        backends: vec![],
        aggregation: None,
        steps: vec![],
        generator: None,
        evaluator: None,
        max_iterations: None,
        judge: None,
        synthesizer: None,
    }
}

fn none() -> WorkflowOverrides {
    WorkflowOverrides { backends: vec![], steps: vec![], generator: None, evaluator: None, judge: None, synthesizer: None }
}

#[test]
fn parse_step_splits_at_first_colon() {
    let s = parse_step("echoer:prev: {{step.output}}");
    assert_eq!(s.backend, "echoer");
    assert_eq!(s.prompt_template.as_deref(), Some("prev: {{step.output}}"));
    assert!(s.role.is_none());
    let s = parse_step("plain");
    assert_eq!(s.backend, "plain");
    assert!(s.prompt_template.is_none());
    let s = parse_step("b:");
    assert_eq!(s.prompt_template.as_deref(), Some(""));
}

#[test]
fn untouched_slots_are_kept() {
    let cfg = config();
    let wf = WorkflowConfig {
        backends: vec!["a".into()],
        judge: Some("b".into()),
        synthesizer: Some("c".into()),
        ..workflow("f", "fusion")
    };
    let ov = WorkflowOverrides { judge: Some("c".into()), ..none() };
    let e = effective_workflow(&cfg, wf, ov).unwrap();
    assert_eq!(e.backends, vec!["a".to_string()]);
    assert_eq!(e.judge.as_deref(), Some("c"));
    assert_eq!(e.synthesizer.as_deref(), Some("c"));
}

#[test]
fn existence_is_checked_before_applicability() {
    let cfg = config();
    let ov = WorkflowOverrides { judge: Some("ghost".into()), ..none() };
    let err = effective_workflow(&cfg, workflow("w", "fan-out"), ov).unwrap_err();
    assert_eq!(err, WeirError::Validation("backend 'ghost' not found".into()));
    let ov = WorkflowOverrides { steps: vec!["ghost:x".into()], ..none() };
    let err = effective_workflow(&cfg, workflow("w", "pipeline"), ov).unwrap_err();
    assert_eq!(err, WeirError::Validation("backend 'ghost' not found".into()));
}

#[test]
fn each_inapplicable_flag_is_named() {
    let cfg = config();
    let cases = vec![
        ("pipeline", WorkflowOverrides { backends: vec!["a".into()], ..none() }, "--backend"),
        ("fan-out", WorkflowOverrides { steps: vec!["a".into()], ..none() }, "--step"),
        ("router", WorkflowOverrides { generator: Some("a".into()), ..none() }, "--generator"),
        ("fusion", WorkflowOverrides { evaluator: Some("a".into()), ..none() }, "--evaluator"),
        ("eval-loop", WorkflowOverrides { synthesizer: Some("a".into()), ..none() }, "--synthesizer"),
    ];
    for (pattern, ov, flag) in cases {
        let err = effective_workflow(&cfg, workflow("w", pattern), ov).unwrap_err();
        assert_eq!(err, WeirError::Validation(format!("workflow 'w' ({pattern}): flag {flag} does not apply")));
    }
}

#[test]
fn plan_errors_follow_resolution_order() {
    let cfg = config();
    let err = plan_workflow(&cfg, &workflow("r", "router"), None).unwrap_err();
    assert_eq!(err, WeirError::Validation("workflow 'r': no backend".into()));
    let err = plan_workflow(&cfg, &WorkflowConfig { evaluator: Some("a".into()), ..workflow("e", "eval-loop") }, None).unwrap_err();
    assert_eq!(err, WeirError::Validation("workflow 'e': missing generator".into()));
    let err = plan_workflow(&cfg, &WorkflowConfig { generator: Some("a".into()), ..workflow("e", "eval-loop") }, None).unwrap_err();
    assert_eq!(err, WeirError::Validation("workflow 'e': missing evaluator".into()));
    let err = plan_workflow(&cfg, &WorkflowConfig { backends: vec!["a".into()], ..workflow("f", "fusion") }, None).unwrap_err();
    assert_eq!(err, WeirError::Validation("workflow 'f': missing judge".into()));
    let err = plan_workflow(&cfg, &WorkflowConfig { backends: vec!["a".into(), "zz".into()], ..workflow("f", "fusion") }, None).unwrap_err();
    assert_eq!(err, WeirError::BackendNotFound("zz".into()));
    let err = plan_workflow(&cfg, &workflow("x", "scatter"), None).unwrap_err();
    assert_eq!(err, WeirError::Validation("unknown workflow pattern: scatter".into()));
}

#[test]
fn eval_loop_defaults() {
    let cfg = config();
    let wf = WorkflowConfig { generator: Some("a".into()), evaluator: Some("b".into()), ..workflow("e", "eval-loop") };
    match plan_workflow(&cfg, &wf, None).unwrap() {
        WorkflowPlan::EvalLoop { generator, evaluator, criteria, max_iterations } => {
            assert_eq!(generator.name(), "a");
            assert_eq!(evaluator.name(), "b");
            assert_eq!(criteria, "The response should be accurate, helpful, and complete.");
            assert_eq!(max_iterations, 5);
        }
        _ => panic!("expected an eval-loop plan"),
    }
}

#[test]
fn fusion_synthesizer_defaults_to_judge_and_router_takes_first() {
    let cfg = config();
    let wf = WorkflowConfig { backends: vec!["a".into(), "b".into()], judge: Some("c".into()), ..workflow("f", "fusion") };
    match plan_workflow(&cfg, &wf, None).unwrap() {
        WorkflowPlan::Fusion { panel, judge, synthesizer } => {
            assert_eq!(panel.len(), 2);
            assert_eq!(judge.name(), "c");
            assert_eq!(synthesizer.name(), "c");
        }
        _ => panic!("expected a fusion plan"),
    }
    let wf = WorkflowConfig { backends: vec!["b".into(), "a".into()], ..workflow("r", "router") };
    match plan_workflow(&cfg, &wf, None).unwrap() {
        WorkflowPlan::Router { backend } => assert_eq!(backend.name(), "b"),
        _ => panic!("expected a router plan"),
    }
}

#[test]
fn unknown_workflow_is_reported() {
    let mut cfg = config();
    cfg.workflows.push(workflow("w", "fan-out"));
    assert_eq!(cfg.find_workflow("nope").unwrap_err(), WeirError::WorkflowNotFound("nope".into()));
    assert_eq!(cfg.find_workflow("w").unwrap().pattern, "fan-out");
}

#[test]
fn resilience_overrides_merge_with_globals() {
    let mut cfg = config();
    cfg.backends[1].retry_attempts = Some(1);
    cfg.backends[1].rate_limit_millirps = Some(0);
    let r = cfg.resilience_for("b");
    assert_eq!((r.retry_attempts, r.failure_threshold, r.recovery_secs, r.rate_limit_millirps), (1, 5, 30, 0));
    assert_eq!((r.base_delay_ms, r.max_delay_ms), (100, 5000));
    let g = cfg.resilience_for("unknown");
    assert_eq!((g.retry_attempts, g.rate_limit_millirps), (3, 100_000));
}
