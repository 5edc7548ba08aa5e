use weir::backends::{ChatRequest, ChatResponse};
use weir::config::PipelineStep;
use weir::engine::eval_loop::{EvalAction, EvalLoop, EvalResult};
use weir::engine::fan_out::{gather, BranchOutcome};
use weir::engine::fusion::{FusionAction, FusionResult, FusionRun};
use weir::engine::pipeline::{PipelineAction, PipelineRun};
use weir::error::WeirError;

type Reply = Box<dyn Fn(usize, &ChatRequest) -> Result<String, WeirError>>;

/// A scriptable backend: `reply(call_index, request)` gives the content or an
/// error; every request is kept.
struct Mock {
    name: String,
    reply: Reply,
    received: Vec<ChatRequest>,
}

impl Mock {
    fn new(name: &str, reply: impl Fn(usize, &ChatRequest) -> Result<String, WeirError> + 'static) -> Mock {
        Mock { name: name.to_string(), reply: Box::new(reply), received: Vec::new() }
    }

    fn echo(name: &str, reply: &str) -> Mock {
        let reply = reply.to_string();
        Mock::new(name, move |_, _| Ok(reply.clone()))
    }

    fn failing(name: &str) -> Mock {
        Mock::new(name, |_, _| Err(WeirError::Backend("mock failure".into())))
    }

    fn chat(&mut self, req: ChatRequest) -> Result<ChatResponse, WeirError> {
        self.received.push(req.clone());
        let content = (self.reply)(self.received.len() - 1, &req)?;
        Ok(ChatResponse::plain(&self.name, &content))
    }

    fn prompts(&self) -> Vec<String> {
        self.received
            .iter()
            .map(|r| r.messages.iter().find(|m| m.role == "user").map(|m| m.content.clone()).unwrap_or_default())
            .collect()
    }

    fn call_count(&self) -> usize {
        self.received.len()
    }
}

fn step(backend: &str) -> PipelineStep {
    PipelineStep { backend: backend.to_string(), role: None, prompt_template: None }
}

fn run_pipeline(backends: &mut [Mock], steps: Vec<PipelineStep>, prompt: &str) -> Result<ChatResponse, WeirError> {
    let names: Vec<String> = backends.iter().map(|b| b.name.clone()).collect();
    let (mut run, mut action) = PipelineRun::start(names, steps, prompt);
    loop {
        match action {
            PipelineAction::Call { backend, request } => {
                let out = backends[backend].chat(request);
                action = run.on_response(out);
            }
            PipelineAction::Finished(r) => return r,
        }
    }
}

fn run_eval(gen: &mut Mock, eval: &mut Mock, prompt: &str, criteria: &str, max: u32) -> Result<EvalResult, WeirError> {
    let (mut run, mut action) = EvalLoop::start(&gen.name.clone(), &eval.name.clone(), prompt, criteria, max);
    loop {
        match action {
            EvalAction::Generate(req) => {
                let out = gen.chat(req);
                action = run.on_generated(out);
            }
            EvalAction::Evaluate(req) => {
                let out = eval.chat(req);
                action = run.on_evaluated(out);
            }
            EvalAction::Finished(r) => return r,
        }
    }
}

/// Runs a fusion over `mocks[..panel]` with the judge and synthesizer at the
/// given indices (they may be the same).
fn run_fusion(mocks: &mut [Mock], panel: usize, judge: usize, synth: usize, prompt: &str) -> Result<FusionResult, WeirError> {
    let judge_name = mocks[judge].name.clone();
    let synth_name = mocks[synth].name.clone();
    let (mut run, mut action) = FusionRun::start(panel, &judge_name, &synth_name, prompt);
    loop {
        match action {
            FusionAction::Panel(req) => {
                let mut outcomes = Vec::new();
                for m in mocks[..panel].iter_mut() {
                    let result = m.chat(req.clone());
                    outcomes.push(BranchOutcome::Completed { backend: m.name.clone(), result });
                }
                action = run.on_panel(outcomes);
            }
            FusionAction::Judge(req) => {
                let out = mocks[judge].chat(req);
                action = run.on_judged(out);
            }
            FusionAction::Synthesize(req) => {
                let out = mocks[synth].chat(req);
                action = run.on_synthesized(out);
            }
            FusionAction::Finished(r) => return r,
        }
    }
}

// ── pipeline ────────────────────────────────────────────────────────────────

#[test]
fn empty_steps_errors() {
    let mut backends = vec![Mock::echo("a", "out")];
    let err = run_pipeline(&mut backends, vec![], "prompt").unwrap_err();
    assert!(matches!(err, WeirError::Backend(_)));
}

#[test]
fn single_step_forwards_initial_prompt_verbatim() {
    let mut backends = vec![Mock::echo("a", "final")];
    let resp = run_pipeline(&mut backends, vec![step("a")], "hello").unwrap();
    assert_eq!(resp.content, "final");
    assert_eq!(resp.backend_name, "a");
    assert_eq!(backends[0].prompts(), vec!["hello".to_string()]);
}

#[test]
fn output_chains_to_next_step() {
    let mut backends = vec![Mock::echo("a", "OUT1"), Mock::echo("b", "OUT2")];
    let resp = run_pipeline(&mut backends, vec![step("a"), step("b")], "start").unwrap();
    assert_eq!(resp.content, "OUT2");
    assert_eq!(resp.backend_name, "b");
    assert_eq!(backends[0].prompts(), vec!["start".to_string()]);
    assert_eq!(backends[1].prompts(), vec!["OUT1".to_string()]);
}

#[test]
fn prompt_template_substitutes_step_output() {
    let mut backends = vec![Mock::echo("a", "OUT1"), Mock::echo("b", "OUT2")];
    let templated = PipelineStep {
        backend: "b".to_string(),
        role: None,
        prompt_template: Some("Refine this: {{step.output}}".to_string()),
    };
    run_pipeline(&mut backends, vec![step("a"), templated], "start").unwrap();
    assert_eq!(backends[1].prompts(), vec!["Refine this: OUT1".to_string()]);
}

#[test]
fn role_defaults_to_user_and_honours_override() {
    let mut backends = vec![Mock::echo("a", "out"), Mock::echo("b", "out")];
    let custom_role = PipelineStep { backend: "b".to_string(), role: Some("system".to_string()), prompt_template: None };
    run_pipeline(&mut backends, vec![step("a"), custom_role], "start").unwrap();
    assert_eq!(backends[0].received[0].messages[0].role, "user");
    assert_eq!(backends[1].received[0].messages[0].role, "system");
}

#[test]
fn unknown_backend_errors() {
    let mut backends = vec![Mock::echo("a", "out")];
    let err = run_pipeline(&mut backends, vec![step("missing")], "start").unwrap_err();
    match err {
        WeirError::BackendNotFound(name) => assert_eq!(name, "missing"),
        other => panic!("expected BackendNotFound, got {other:?}"),
    }
}

#[test]
fn step_failure_is_wrapped_with_step_index() {
    let mut backends = vec![Mock::echo("a", "OUT1"), Mock::failing("b")];
    let err = run_pipeline(&mut backends, vec![step("a"), step("b")], "start").unwrap_err();
    match err {
        WeirError::Backend(msg) => {
            assert!(msg.contains("pipeline step 1"), "got: {msg}");
            assert!(msg.contains("(b)"), "got: {msg}");
        }
        other => panic!("expected Backend error, got {other:?}"),
    }
}

#[test]
fn pipeline_error_text_is_exact() {
    let mut backends = vec![Mock::failing("a")];
    let err = run_pipeline(&mut backends, vec![step("a")], "start").unwrap_err();
    assert_eq!(err, WeirError::Backend("pipeline step 0 (a): backend error: mock failure".into()));
}

// ── eval-loop ───────────────────────────────────────────────────────────────

#[test]
fn zero_iterations_errors() {
    let mut gen = Mock::echo("g", "draft");
    let mut eval = Mock::echo("e", "PASS");
    let err = run_eval(&mut gen, &mut eval, "task", "criteria", 0).unwrap_err();
    assert!(matches!(err, WeirError::Backend(_)));
}

#[test]
fn pass_on_first_iteration_stops_immediately() {
    let mut gen = Mock::echo("g", "draft");
    let mut eval = Mock::echo("e", "PASS looks great");
    let result = run_eval(&mut gen, &mut eval, "task", "criteria", 5).unwrap();
    assert!(result.passed);
    assert_eq!(result.iterations, 1);
    assert_eq!(result.response.content, "draft");
    assert_eq!(gen.call_count(), 1);
    assert_eq!(eval.call_count(), 1);
}

#[test]
fn fail_then_pass_feeds_back_and_succeeds() {
    let mut gen = Mock::echo("g", "draft");
    let mut eval = Mock::new("e", |idx, _| {
        if idx == 0 {
            Ok("FAIL needs more detail".to_string())
        } else {
            Ok("PASS".to_string())
        }
    });
    let result = run_eval(&mut gen, &mut eval, "task", "criteria", 5).unwrap();
    assert!(result.passed);
    assert_eq!(result.iterations, 2);
    let prompts = gen.prompts();
    assert_eq!(prompts.len(), 2);
    assert!(prompts[1].contains("needs more detail"), "got: {}", prompts[1]);
    assert!(prompts[1].contains("rejected"), "got: {}", prompts[1]);
}

#[test]
fn always_fail_exhausts_budget() {
    let mut gen = Mock::echo("g", "draft");
    let mut eval = Mock::echo("e", "FAIL still wrong");
    let result = run_eval(&mut gen, &mut eval, "task", "criteria", 3).unwrap();
    assert!(!result.passed);
    assert_eq!(result.iterations, 3);
    assert_eq!(gen.call_count(), 3);
    assert_eq!(eval.call_count(), 3);
}

#[test]
fn generator_error_propagates() {
    let mut gen = Mock::failing("g");
    let mut eval = Mock::echo("e", "PASS");
    let err = run_eval(&mut gen, &mut eval, "task", "criteria", 3).unwrap_err();
    match err {
        WeirError::Backend(msg) => assert!(msg.contains("generator"), "got: {msg}"),
        other => panic!("expected Backend error, got {other:?}"),
    }
}

#[test]
fn evaluator_error_propagates() {
    let mut gen = Mock::echo("g", "draft");
    let mut eval = Mock::failing("e");
    let err = run_eval(&mut gen, &mut eval, "task", "criteria", 3).unwrap_err();
    match err {
        WeirError::Backend(msg) => assert!(msg.contains("evaluator"), "got: {msg}"),
        other => panic!("expected Backend error, got {other:?}"),
    }
}

#[test]
fn verdict_is_case_insensitive_and_trimmed() {
    let mut gen = Mock::echo("g", "draft");
    let mut eval = Mock::echo("e", "  pass: fine");
    let result = run_eval(&mut gen, &mut eval, "task", "criteria", 2).unwrap();
    assert!(result.passed);
    assert_eq!(eval.prompts()[0], "Evaluate this response against criteria.\nCriteria: criteria\nResponse: draft\nReply with PASS or FAIL followed by brief reason.");
}

// ── fusion ──────────────────────────────────────────────────────────────────

#[test]
fn three_phases_produce_fused_result() {
    let mut mocks = vec![
        Mock::echo("p1", "ra"),
        Mock::echo("p2", "rb"),
        Mock::echo("judge", "{\"consensus\":[\"x\"]}"),
        Mock::echo("synth", "final answer"),
    ];
    let result = run_fusion(&mut mocks, 2, 2, 3, "the question").unwrap();
    assert_eq!(result.panel_responses.len(), 2);
    assert_eq!(result.judge_analysis, "{\"consensus\":[\"x\"]}");
    assert_eq!(result.synthesis.content, "final answer");
    assert_eq!(result.synthesis.backend_name, "synth");
}

#[test]
fn judge_sees_panel_names_and_content() {
    let mut mocks = vec![
        Mock::echo("p1", "alpha-text"),
        Mock::echo("p2", "beta-text"),
        Mock::echo("judge", "{}"),
        Mock::echo("synth", "final"),
    ];
    run_fusion(&mut mocks, 2, 2, 3, "the question").unwrap();
    let judge_prompt = &mocks[2].prompts()[0];
    assert!(judge_prompt.contains("the question"), "got: {judge_prompt}");
    assert!(judge_prompt.contains("p1") && judge_prompt.contains("p2"));
    assert!(judge_prompt.contains("alpha-text") && judge_prompt.contains("beta-text"));
}

#[test]
fn synthesizer_sees_judge_analysis() {
    let mut mocks = vec![Mock::echo("p1", "ra"), Mock::echo("judge", "JUDGE-ANALYSIS-MARKER"), Mock::echo("synth", "final")];
    run_fusion(&mut mocks, 1, 1, 2, "the question").unwrap();
    assert!(mocks[2].prompts()[0].contains("JUDGE-ANALYSIS-MARKER"));
}

#[test]
fn judge_can_double_as_synthesizer() {
    let mut mocks = vec![Mock::echo("p1", "ra"), Mock::echo("judge", "judge-and-synth")];
    let result = run_fusion(&mut mocks, 1, 1, 1, "q").unwrap();
    assert_eq!(result.synthesis.backend_name, "judge");
    assert_eq!(mocks[1].call_count(), 2);
}

#[test]
fn panel_all_fail_aborts_run() {
    let mut mocks = vec![Mock::failing("p1"), Mock::failing("p2"), Mock::echo("judge", "{}"), Mock::echo("synth", "final")];
    let err = run_fusion(&mut mocks, 2, 2, 3, "q").unwrap_err();
    assert!(matches!(err, WeirError::Backend(_)));
    assert_eq!(mocks[2].call_count(), 0);
    assert_eq!(mocks[3].call_count(), 0);
}

#[test]
fn judge_failure_propagates() {
    let mut mocks = vec![Mock::echo("p1", "ra"), Mock::failing("judge"), Mock::echo("synth", "final")];
    let err = run_fusion(&mut mocks, 1, 1, 2, "q").unwrap_err();
    match err {
        WeirError::Backend(msg) => assert!(msg.contains("judge"), "got: {msg}"),
        other => panic!("expected Backend error, got {other:?}"),
    }
    assert_eq!(mocks[2].call_count(), 0);
}

#[test]
fn synthesizer_failure_propagates() {
    let mut mocks = vec![Mock::echo("p1", "ra"), Mock::echo("judge", "{}"), Mock::failing("synth")];
    let err = run_fusion(&mut mocks, 1, 1, 2, "q").unwrap_err();
    match err {
        WeirError::Backend(msg) => assert!(msg.contains("synthesizer"), "got: {msg}"),
        other => panic!("expected Backend error, got {other:?}"),
    }
}

// ── fan-out ─────────────────────────────────────────────────────────────────

#[test]
fn gather_keeps_successes_in_order_and_skips_failures() {
    let outcomes = vec![
        BranchOutcome::Completed { backend: "a".into(), result: Ok(ChatResponse::plain("a", "A")) },
        BranchOutcome::Completed { backend: "b".into(), result: Err(WeirError::Backend("down".into())) },
        BranchOutcome::Completed { backend: "c".into(), result: Ok(ChatResponse::plain("c", "C")) },
    ];
    let rs = gather(outcomes).unwrap();
    let names: Vec<&str> = rs.iter().map(|r| r.backend_name.as_str()).collect();
    assert_eq!(names, vec!["a", "c"]);
}

#[test]
fn gather_all_failed_lists_every_failure() {
    let outcomes = vec![
        BranchOutcome::Completed { backend: "a".into(), result: Err(WeirError::Backend("down".into())) },
        BranchOutcome::Panicked("boom".into()),
    ];
    let err = gather(outcomes).unwrap_err();
    assert_eq!(
        err,
        WeirError::Backend("fan-out: all backends failed — a: backend error: down; task panic: boom".into())
    );
}
