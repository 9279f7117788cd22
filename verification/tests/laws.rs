//! Concrete instances of the library's laws.

use strand::ai::enrich::{format_enriched, EnrichResult, Solution};
use strand::ai::extract_json;
use strand::ai::implement::manager::ImplManager;
use strand::ai::implement::worktree::parent_epic_branch;
use strand::ai::implement::{epic_branch_name, ImplEvent, ImplStatus};
use strand::ai::job::{is_job_dir_of, job_dir_path};
use strand::bd::{short_id, Issue};
use strand::core_state::filter::Filter;
use strand::core_state::issue_store::IssueStore;

fn issue(id: &str, status: &str, labels: &[&str]) -> Issue {
    Issue {
        id: id.into(),
        title: id.into(),
        status: status.into(),
        priority: None,
        description: None,
        labels: labels.iter().map(|l| l.to_string()).collect(),
        issue_type: None,
        updated_at: None,
        estimate: None,
    }
}

#[test]
fn enriching_keeps_the_original_in_front() {
    let result = EnrichResult {
        problems: vec![],
        solutions: vec![Solution { label: "A".into(), title: " ".into(), description: "\n".into() }],
    };
    let text = format_enriched(Some("orig  "), &result);
    assert!(text.starts_with("orig  \n\n---\n"));
    assert!(format_enriched(None, &result).starts_with("### 課題"));
}

#[test]
fn extracted_json_is_a_braced_piece_of_the_answer() {
    for answer in ["x {\"a\": {\"b\": 1}} y", "{no close", "pre {a}"] {
        if let Ok(j) = extract_json(answer) {
            assert!(j.starts_with('{'));
            assert!(answer.contains(j));
        }
    }
    assert_eq!(extract_json("{no close"), Ok("{no close"));
}

#[test]
fn an_event_changes_only_its_own_job() {
    let mut m = ImplManager::new();
    m.start(&issue("a", "open", &[]), Some("/a".into()));
    m.start(&issue("b", "open", &[]), Some("/b".into()));
    m.handle_event_at(
        ImplEvent::Failed { issue_id: "a".into(), error: "boom".into(), session_id: None },
        "t".into(),
    );
    let b = m.get_job("b").unwrap();
    assert!(matches!(b.status, ImplStatus::Running));
    assert_eq!(b.worktree_path, "/b");
    assert!(matches!(m.get_job("a").unwrap().status, ImplStatus::Failed(_)));
}

#[test]
fn short_ids_have_no_dash() {
    assert_eq!(short_id("strand-abc"), "abc");
    assert_eq!(short_id("my-proj-x1"), "x1");
    assert_eq!(short_id("nodash"), "nodash");
    assert!(!short_id("a-b-c-").contains('-'));
}

#[test]
fn child_guess_matches_the_epic_branch() {
    assert_eq!(parent_epic_branch("strand-ep.3"), Some(epic_branch_name("strand-ep")));
}

#[test]
fn job_dirs_are_recognised() {
    let dir = job_dir_path("/j", "split", "abc");
    let name = dir.rsplit('/').next().unwrap();
    assert!(is_job_dir_of(name, "split"));
}

#[test]
fn empty_filter_shows_everything() {
    let store = IssueStore {
        issues: vec![issue("a", "closed", &["x"]), issue("b", "open", &[])],
        selected: 0,
    };
    let f = Filter::new();
    assert_eq!(store.displayed_issues(&f).len(), 2);
    let mut g = Filter::new();
    g.insert_status("open".into());
    let shown = store.displayed_issues(&g);
    assert_eq!(shown.len(), 1);
    assert!(shown.iter().all(|i| g.matches(i)));
}
