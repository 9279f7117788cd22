use strand::ai::enrich::{EnrichEvent, EnrichHandler};
use strand::ai::job::{
    agent_stream_args, is_job_dir_of, job_dir_path, new_job_meta, parse_output_lines, JobMeta,
    WorkflowHandler,
};
use strand::ai::split::{SplitEvent, SplitHandler};
use strand::bd::Issue;
use strand::config::{Config, EnrichConfig};

fn issue() -> Issue {
    Issue {
        id: "strand-7".into(),
        title: "Title".into(),
        status: "open".into(),
        priority: None,
        description: Some("Body".into()),
        labels: vec![],
        issue_type: None,
        updated_at: None,
        estimate: None,
    }
}

fn lines(v: &[&str]) -> Vec<String> {
    v.iter().map(|s| s.to_string()).collect()
}

#[test]
fn job_directories() {
    assert_eq!(job_dir_path("/r/.strand/jobs", "enrich", "abc"), "/r/.strand/jobs/enrich-abc");
    assert!(is_job_dir_of("impl-abc", "impl"));
    assert!(!is_job_dir_of("implx-abc", "impl"));
    assert!(!is_job_dir_of("enrich-abc", "impl"));
}

#[test]
fn output_takes_the_last_result_line() {
    let out = lines(&[
        r#"{"type":"system","session_id":"s0"}"#,
        r#"{"type":"result","result":"first","session_id":"s1"}"#,
        r#"{"type":"assistant"}"#,
        r#"{"type":"result","result":"second"}"#,
    ]);
    let r = parse_output_lines(&out).unwrap();
    assert_eq!(r.result, "second");
    assert_eq!(r.session_id, None);
}

#[test]
fn output_result_defaults_to_empty_text() {
    let out = lines(&[r#"{"type":"result","session_id":"s"}"#]);
    let r = parse_output_lines(&out).unwrap();
    assert_eq!(r.result, "");
    assert_eq!(r.session_id.as_deref(), Some("s"));
}

#[test]
fn output_skips_lines_that_are_not_json() {
    let r = parse_output_lines(&lines(&[r#"{"type":"result","result":"x"}"#, "not json"])).unwrap();
    assert_eq!(r.result, "x");
    let r = parse_output_lines(&lines(&["not json", r#"{"type":"result","result":"y","session_id":"s"}"#]))
        .unwrap();
    assert_eq!(r.result, "y");
    assert_eq!(r.session_id.as_deref(), Some("s"));
    assert!(parse_output_lines(&lines(&["not json", "{"])).is_none());
    assert!(parse_output_lines(&lines(&[r#"{"type":"assistant"}"#])).is_none());
    assert!(parse_output_lines(&lines(&[])).is_none());
}

#[test]
fn stream_command_line() {
    assert_eq!(
        agent_stream_args("agent-cli", "P".into()),
        vec!["agent-cli", "-p", "P", "--output-format", "stream-json", "--verbose"]
    );
}

#[test]
fn enrich_handler_uses_skill_when_set() {
    let h = EnrichHandler;
    assert_eq!(h.workflow_name(), "enrich");
    let cmd = h.build_command("agent-cli", &issue(), &EnrichConfig { skill: Some("sk".into()) });
    assert!(cmd[2].starts_with("Use the sk skill"));
    assert!(cmd[2].ends_with("Issue Title: Title\n\nDescription:\nBody"));
    let cmd = h.build_command("agent-cli", &issue(), &EnrichConfig::default());
    assert!(cmd[2].starts_with("You are an issue analysis assistant."));
    let meta = new_job_meta("strand-7", "enrich", None);
    assert_eq!(meta.issue_id, "strand-7");
    assert!(!meta.started_at.is_empty());
    assert_eq!(h.working_dir(&meta, "/repo"), "/repo");
    assert!(matches!(h.on_started("strand-7"), EnrichEvent::Started { ref issue_id } if issue_id == "strand-7"));
    assert!(matches!(h.on_failed("strand-7", "e".into()), EnrichEvent::Failed { ref error, .. } if error == "e"));
}

#[test]
fn split_handler_command() {
    let h = SplitHandler;
    assert_eq!(h.workflow_name(), "split");
    let cmd = h.build_command("agent-cli", &issue(), &());
    assert!(cmd[2].starts_with("You are a task decomposition assistant."));
    assert!(cmd[2].contains("Issue Title: Title\n\nDescription:\nBody\n\nRules:"));
    let meta = JobMeta {
        issue_id: "strand-7".into(),
        workflow: "split".into(),
        worktree_path: Some("/ignored".into()),
        started_at: "t".into(),
    };
    assert_eq!(h.working_dir(&meta, "/repo"), "/repo");
    assert!(matches!(h.on_started("x"), SplitEvent::Started { .. }));
}

#[test]
fn default_config_has_no_skill() {
    assert!(Config::default().enrich.skill.is_none());
}
