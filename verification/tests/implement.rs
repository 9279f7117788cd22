use strand::ai::implement::manager::ImplManager;
use strand::ai::implement::worktree::{
    discovered_job, nonempty_trimmed, parent_epic_branch, split_blocks, worktree_candidates,
};
use strand::ai::implement::{
    branch_name, build_prompt, build_request_prompt, epic_branch_name, implementation_log,
    merge_target, worktree_path, ImplEvent, ImplHandler, ImplOutcome, ImplRequest, ImplStatus,
};
use strand::ai::job::{ActiveJob, JobMeta, ResultData, WorkflowHandler};
use strand::bd::Issue;

fn make_issue(id: &str) -> Issue {
    Issue {
        id: id.to_string(),
        title: format!("Issue {id}"),
        status: "open".to_string(),
        priority: None,
        description: Some("desc".to_string()),
        labels: vec![],
        issue_type: None,
        updated_at: None,
        estimate: None,
    }
}

#[test]
fn branch_names() {
    assert_eq!(branch_name("strand-abc.1"), "impl/strand-abc.1");
    assert_eq!(epic_branch_name("strand-abc"), "epic/strand-abc");
    assert_eq!(merge_target(Some("strand-abc")), "epic/strand-abc");
    assert_eq!(merge_target(None), "master");
}

#[test]
fn worktree_sits_beside_the_repository() {
    assert_eq!(worktree_path("/home/u/repo", "strand-x9z"), "/home/u/strand-impl-x9z");
    assert_eq!(worktree_path("/", "abc"), "/strand-impl-abc");
}

#[test]
fn start_records_a_running_job_once() {
    let mut m = ImplManager::new();
    let issue = make_issue("p-1");
    assert!(m.start(&issue, Some("/w/strand-impl-1".to_string())));
    assert!(!m.start(&issue, None));
    let job = m.get_job("p-1").unwrap();
    assert_eq!(job.branch, "impl/p-1");
    assert_eq!(job.worktree_path, "/w/strand-impl-1");
    assert!(matches!(job.status, ImplStatus::Running));
    assert!(m.has_job("p-1"));
    assert!(!m.has_job("p-2"));
}

#[test]
fn completion_marks_done_and_keeps_session() {
    let mut m = ImplManager::new();
    m.start(&make_issue("p-1"), None);
    m.start(&make_issue("p-2"), None);
    let o = m.handle_event_at(
        ImplEvent::Completed {
            issue_id: "p-1".into(),
            summary: "all good".into(),
            session_id: Some("sess".into()),
        },
        "2024-01-01T00:00:00+00:00".to_string(),
    );
    assert!(matches!(o, ImplOutcome::Completed { ref summary, .. } if summary == "all good"));
    let job = m.get_job("p-1").unwrap();
    assert!(matches!(job.status, ImplStatus::Done));
    assert_eq!(job.completed_at.as_deref(), Some("2024-01-01T00:00:00+00:00"));
    assert_eq!(job.session_id.as_deref(), Some("sess"));
    assert!(matches!(m.get_job("p-2").unwrap().status, ImplStatus::Running));

    m.handle_event_at(
        ImplEvent::Failed { issue_id: "p-1".into(), error: "later".into(), session_id: None },
        "t".to_string(),
    );
    let job = m.get_job("p-1").unwrap();
    assert!(matches!(job.status, ImplStatus::Failed(ref e) if e == "later"));
    assert_eq!(job.session_id.as_deref(), Some("sess"));
}

#[test]
fn events_for_unknown_jobs_change_nothing() {
    let mut m = ImplManager::new();
    let o = m.handle_event(ImplEvent::Completed {
        issue_id: "ghost".into(),
        summary: String::new(),
        session_id: None,
    });
    assert!(matches!(o, ImplOutcome::Completed { .. }));
    assert!(!m.has_job("ghost"));
    let o = m.handle_event(ImplEvent::Started { issue_id: "ghost".into() });
    assert!(matches!(o, ImplOutcome::Started { .. }));
}

#[test]
fn merge_plan_needs_a_finished_job() {
    let mut m = ImplManager::new();
    m.start(&make_issue("p-1"), Some("/w".into()));
    assert!(m.merge_plan("p-1", None).is_none());
    m.handle_event_at(
        ImplEvent::Completed { issue_id: "p-1".into(), summary: String::new(), session_id: None },
        "now".into(),
    );
    let (job, target) = m.merge_plan("p-1", Some("ep")).unwrap();
    assert_eq!(job.branch, "impl/p-1");
    assert_eq!(target, "epic/ep");
    m.remove_job("p-1");
    assert!(m.get_job("p-1").is_none());
    assert!(m.merge_plan("p-1", None).is_none());
}

#[test]
fn restore_keeps_existing_jobs() {
    let mut m = ImplManager::new();
    m.start(&make_issue("p-1"), Some("/kept".into()));
    let active = vec![
        ActiveJob {
            meta: JobMeta {
                issue_id: "p-1".into(),
                workflow: "impl".into(),
                worktree_path: Some("/other".into()),
                started_at: "t".into(),
            },
            job_dir: "/j/impl-1".into(),
            pid: 1,
        },
        ActiveJob {
            meta: JobMeta {
                issue_id: "strand-p2".into(),
                workflow: "impl".into(),
                worktree_path: None,
                started_at: "t".into(),
            },
            job_dir: "/j/impl-p2".into(),
            pid: 2,
        },
    ];
    let found = vec![
        discovered_job("/x/strand-impl-3".into(), "p-3".into(), true, Some("d".into()), None),
        discovered_job("/x/strand-impl-1".into(), "p-1".into(), false, None, None),
    ];
    m.restore_jobs("/home/u/repo", &active, found);
    assert_eq!(m.get_job("p-1").unwrap().worktree_path, "/kept");
    assert_eq!(m.get_job("strand-p2").unwrap().worktree_path, "/home/u/strand-impl-p2");
    let j3 = m.get_job("p-3").unwrap();
    assert!(matches!(j3.status, ImplStatus::Done));
    assert_eq!(j3.completed_at.as_deref(), Some("d"));
}

#[test]
fn discovered_job_without_commits_is_interrupted() {
    let j = discovered_job("/p".into(), "i-1".into(), false, Some("d".into()), Some("s".into()));
    assert!(matches!(j.status, ImplStatus::Interrupted));
    assert_eq!(j.completed_at, None);
    assert_eq!(j.session_id.as_deref(), Some("s"));
    assert_eq!(j.branch, "impl/i-1");
}

#[test]
fn porcelain_blocks_split_at_blank_lines() {
    assert_eq!(split_blocks("a\nb\n\nc\n\n"), vec!["a\nb", "c", ""]);
    assert_eq!(split_blocks(""), vec![""]);
    assert_eq!(split_blocks("x\n\n\ny"), vec!["x", "\ny"]);
}

#[test]
fn worktree_listing_finds_impl_worktrees() {
    let listing = "worktree /home/u/repo\nHEAD 123\nbranch refs/heads/master\n\n\
worktree /home/u/strand-impl-abc\nHEAD 456\nbranch refs/heads/impl/strand-abc\n\n\
worktree /home/u/other\nHEAD 789\n\n\
worktree /home/u/strand-impl-zzz\nHEAD 000\n";
    let ids = vec!["strand-abc".to_string(), "strand-def".to_string()];
    let found = worktree_candidates(listing, &ids);
    assert_eq!(
        found,
        vec![("/home/u/strand-impl-abc".to_string(), "strand-abc".to_string())]
    );
}

#[test]
fn parent_epic_branch_of_child_ids() {
    assert_eq!(parent_epic_branch("strand-unq.1.1").as_deref(), Some("epic/strand-unq.1"));
    assert_eq!(parent_epic_branch("strand-unq"), None);
}

#[test]
fn trimmed_output() {
    assert_eq!(nonempty_trimmed("  2024-01-01 \n").as_deref(), Some("2024-01-01"));
    assert_eq!(nonempty_trimmed(" \n\t"), None);
}

#[test]
fn impl_prompt_parts() {
    let p = build_prompt(&make_issue("q-1"));
    assert!(p.starts_with("Issue: Issue q-1\n\nDescription:\ndesc\n\nImplement the issue above."));
    let r = ImplRequest {
        issue_id: "q-1".into(),
        title: "T".into(),
        description: None,
        design: Some("G".into()),
        repo_dir: "/r".into(),
        base_branch: "master".into(),
    };
    let p = build_request_prompt(&r);
    assert!(p.starts_with("Issue: T\n\nDesign:\nG\n\nImplement the issue above."));
    assert!(p.ends_with("- Only include Decisions when multiple approaches were considered"));
}

#[test]
fn impl_handler_command_and_events() {
    let h = ImplHandler;
    assert_eq!(h.workflow_name(), "impl");
    let cmd = h.build_command("agent-cli", &make_issue("q-1"), &strand::ai::implement::ImplConfig { epic_id: None });
    assert_eq!(cmd.len(), 7);
    assert_eq!(cmd[0], "agent-cli");
    assert_eq!(cmd[1], "-p");
    assert_eq!(&cmd[3..], ["--output-format", "stream-json", "--verbose", "--dangerously-skip-permissions"]);
    let meta = JobMeta {
        issue_id: "q-1".into(),
        workflow: "impl".into(),
        worktree_path: Some("/wt".into()),
        started_at: "t".into(),
    };
    assert_eq!(h.working_dir(&meta, "/repo"), "/wt");
    let e = h.completion_event(ResultData { result: "done".into(), session_id: Some("s".into()) }, &meta);
    assert!(matches!(e, ImplEvent::Completed { ref summary, ref session_id, .. } if summary == "done" && session_id.as_deref() == Some("s")));
    assert!(matches!(h.on_failed("q-1", "x".into()), ImplEvent::Failed { session_id: None, .. }));
    assert_eq!(implementation_log("ok"), "## Implementation Log\nok");
}
