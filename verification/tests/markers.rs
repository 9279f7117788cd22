use strand::ai::implement::manager::ImplManager;
use strand::ai::implement::ImplEvent;
use strand::bd::Issue;
use strand::page::markers::{child_state, is_stale, ChildState};

fn issue(id: &str, status: &str) -> Issue {
    Issue {
        id: id.into(),
        title: id.into(),
        status: status.into(),
        priority: None,
        description: None,
        labels: vec![],
        issue_type: None,
        updated_at: None,
        estimate: None,
    }
}

#[test]
fn staleness_compares_instants() {
    assert!(is_stale(Some("2024-05-01T10:00:00+00:00"), Some("2024-05-01T09:00:00+00:00")));
    assert!(!is_stale(Some("2024-05-01T10:00:00+02:00"), Some("2024-05-01T09:00:00+00:00")));
    assert!(!is_stale(Some("2024-05-01T09:00:00+00:00"), Some("2024-05-01T09:00:00+00:00")));
    assert!(!is_stale(Some("not a date"), Some("2024-05-01T09:00:00+00:00")));
    assert!(!is_stale(None, Some("2024-05-01T09:00:00+00:00")));
}

#[test]
fn child_marks() {
    let mut m = ImplManager::new();
    let ready = vec!["r".to_string()];
    assert_eq!(child_state(&m, &issue("c", "closed"), &ready), ChildState::Closed);
    assert_eq!(child_state(&m, &issue("r", "open"), &ready), ChildState::Ready);
    assert_eq!(child_state(&m, &issue("w", "open"), &ready), ChildState::Waiting);
    m.start(&issue("c", "closed"), None);
    assert_eq!(child_state(&m, &issue("c", "closed"), &ready), ChildState::Running);
    m.handle_event_at(
        ImplEvent::Completed { issue_id: "c".into(), summary: String::new(), session_id: None },
        "t".into(),
    );
    assert_eq!(child_state(&m, &issue("c", "closed"), &ready), ChildState::Done);
}
