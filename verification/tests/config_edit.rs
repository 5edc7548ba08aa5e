use weir::cli::backend::{add_backend_cli, backend_summary, remove_backend};
use weir::cli::workflow::{add_fanout_workflow, add_pipeline_workflow, remove_workflow, workflow_summary};
use weir::config::{BackendKind, PipelineStep, WorkflowConfig};
use weir::error::WeirError;

const DOC: &str = r#"# my agents
[[backend]]
name = "a"   # first
type = "stdio-cli"
command = "echo"

[[backend]]
name = "b"
type = "stdio-cli"
command = "printf"

[[workflow]]
name = "w"
pattern = "fan-out"
backends = ["a", "b"]
"#;

fn workflow(pattern: &str) -> WorkflowConfig {
    WorkflowConfig {
        name: "w".into(),
        pattern: pattern.into(),
        backends: vec![],
        aggregation: None,
        steps: vec![],
        generator: None,
        evaluator: None,
        max_iterations: None,
        judge: None,
        synthesizer: None,
    }
}

#[test]
fn remove_backend_keeps_the_rest_and_comments() {
    let out = remove_backend(DOC, "b").unwrap();
    assert!(out.contains("# my agents"));
    assert!(out.contains("name = \"a\"   # first"));
    assert!(!out.contains("printf"));
    assert!(out.contains("[[workflow]]"));
}

#[test]
fn removing_the_last_backend_drops_the_key() {
    let once = remove_backend(DOC, "a").unwrap();
    let twice = remove_backend(&once, "b").unwrap();
    assert!(!twice.contains("[[backend]]"));
    assert!(twice.contains("[[workflow]]"));
}

#[test]
fn remove_unknown_names_fail() {
    assert_eq!(remove_backend(DOC, "zz"), Err(WeirError::BackendNotFound("zz".into())));
    assert_eq!(remove_workflow(DOC, "zz"), Err(WeirError::WorkflowNotFound("zz".into())));
}

#[test]
fn remove_workflow_drops_it() {
    let out = remove_workflow(DOC, "w").unwrap();
    assert!(!out.contains("[[workflow]]"));
    assert!(out.contains("[[backend]]"));
}

#[test]
fn malformed_text_is_a_config_error() {
    let err = remove_backend("this is = not valid = toml [[[", "a").unwrap_err();
    match err {
        WeirError::Config(m) => assert!(m.starts_with("toml parse error: ")),
        other => panic!("expected a config error, got {other:?}"),
    }
}

#[test]
fn backend_summaries() {
    let k = BackendKind::StdioCli { command: "hermes".into(), args: vec![] };
    assert_eq!(backend_summary(&k), ("stdio-cli", "hermes".to_string()));
    let k = BackendKind::StdioCli { command: "hermes".into(), args: vec!["chat".into(), "-q".into(), "{prompt}".into()] };
    assert_eq!(backend_summary(&k).1, "hermes chat -q {prompt}");
}

#[test]
fn workflow_summaries() {
    let w = WorkflowConfig { backends: vec!["a".into(), "b".into()], aggregation: Some("all".into()), ..workflow("fan-out") };
    assert_eq!(workflow_summary(&w), "a, b (agg=all)");
    let w = WorkflowConfig { backends: vec!["a".into()], ..workflow("router") };
    assert_eq!(workflow_summary(&w), "a");
    let w = WorkflowConfig {
        steps: vec![
            PipelineStep { backend: "a".into(), role: None, prompt_template: None },
            PipelineStep { backend: "b".into(), role: Some("editor".into()), prompt_template: None },
        ],
        ..workflow("pipeline")
    };
    assert_eq!(workflow_summary(&w), "a → b[editor]");
    let w = WorkflowConfig { generator: Some("g".into()), max_iterations: Some(4), ..workflow("eval-loop") };
    assert_eq!(workflow_summary(&w), "gen=g eval=? max=4");
    assert_eq!(workflow_summary(&workflow("fusion")), "pattern=fusion");
}

#[test]
fn add_backend_appends_a_table() {
    let out = add_backend_cli(DOC, "c", "hermes", &vec!["-z".to_string(), "{prompt}".to_string()]).unwrap();
    assert!(out.contains("# my agents"));
    assert!(out.contains("name = \"c\""));
    assert!(out.contains("type = \"stdio-cli\""));
    assert!(out.contains("command = \"hermes\""));
    assert!(out.contains("args = [\"-z\", \"{prompt}\"]"));
    let out = add_backend_cli("", "solo", "echo", &vec![]).unwrap();
    assert!(out.contains("[[backend]]"));
    assert!(!out.contains("args"));
}

#[test]
fn add_duplicate_or_misplaced_is_refused() {
    assert_eq!(
        add_backend_cli(DOC, "a", "x", &vec![]),
        Err(WeirError::Validation("backend 'a' already exists".into()))
    );
    assert_eq!(
        add_backend_cli("backend = 3\n", "a", "x", &vec![]),
        Err(WeirError::Config("'backend' key is not an array-of-tables".into()))
    );
    assert_eq!(
        add_fanout_workflow(DOC, "w", &vec!["a".to_string()], "all"),
        Err(WeirError::Validation("workflow 'w' already exists".into()))
    );
    assert_eq!(
        add_fanout_workflow(DOC, "w2", &vec![], "all"),
        Err(WeirError::Validation("fan-out workflow requires at least one backend".into()))
    );
    assert_eq!(
        add_pipeline_workflow(DOC, "p", &vec![]),
        Err(WeirError::Validation("pipeline workflow requires at least one step".into()))
    );
}

#[test]
fn add_workflows_write_their_fields() {
    let out = add_fanout_workflow(DOC, "both", &vec!["a".to_string(), "b".to_string()], "all").unwrap();
    assert!(out.contains("name = \"both\""));
    assert!(out.contains("pattern = \"fan-out\""));
    assert!(out.contains("aggregation = \"all\""));
    assert!(out.contains("backends = [\"a\", \"b\"]"));
    let steps = vec![("a".to_string(), None), ("b".to_string(), Some("prev: {{step.output}}".to_string()))];
    let out = add_pipeline_workflow(DOC, "chain", &steps).unwrap();
    assert!(out.contains("pattern = \"pipeline\""));
    assert!(out.contains("[[workflow.steps]]"));
    assert!(out.contains("prompt_template = \"prev: {{step.output}}\""));
    // The result is a document the edits accept again.
    assert!(remove_workflow(&out, "chain").is_ok());
}

#[test]
fn add_then_remove_backend_restores_the_list() {
    let added = add_backend_cli(DOC, "c", "cat", &vec!["-n".to_string()]).unwrap();
    assert!(added.contains("name = \"c\""));
    assert!(added.contains("[\"-n\"]"));
    let back = remove_backend(&added, "c").unwrap();
    assert!(!back.contains("name = \"c\""));
    assert!(back.contains("name = \"a\"   # first"));
    assert!(back.contains("printf"));
    assert!(back.contains("[[workflow]]"));
    assert_eq!(back.matches("[[backend]]").count(), 2);
}

#[test]
fn remove_takes_only_the_first_table_of_a_name() {
    let twice = format!("{DOC}\n[[backend]]\nname = \"a\"\ntype = \"stdio-cli\"\ncommand = \"second\"\n");
    let out = remove_backend(&twice, "a").unwrap();
    assert!(!out.contains("command = \"echo\""));
    assert!(out.contains("command = \"second\""));
    assert_eq!(out.matches("[[backend]]").count(), 2);
}

#[test]
fn edits_keep_other_fields_and_tables() {
    let doc = "[defaults]\ntimeout_secs = 30\n\n[[backend]]\nname = \"a\"\ntype = \"stdio-cli\"\ncommand = \"echo\"\ntimeout_secs = 90\nfailure_threshold = 3\n";
    let added = add_backend_cli(doc, "b", "cat", &vec![]).unwrap();
    assert!(added.contains("[defaults]\ntimeout_secs = 30"));
    assert!(added.contains("timeout_secs = 90"));
    assert!(added.contains("failure_threshold = 3"));
    let removed = remove_backend(&added, "b").unwrap();
    assert_eq!(removed, doc);
}
