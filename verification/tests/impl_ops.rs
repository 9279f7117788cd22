use strand::action::impl_ops::{resume_command, unclosed_children, unclosed_message, worktree_path_to_copy};
use strand::action::navigate::{can_navigate, navigate_target, push_view, set_navigation_cursor};
use strand::ai::implement::manager::ImplManager;
use strand::ai::implement::ImplEvent;
use strand::bd::Issue;
use strand::core_state::view::Screen;
use strand::core_state::Core;

fn issue(id: &str, status: &str) -> Issue {
    Issue {
        id: id.into(),
        title: id.into(),
        status: status.into(),
        priority: None,
        description: None,
        labels: vec![],
        issue_type: Some("epic".into()),
        updated_at: None,
        estimate: None,
    }
}

#[test]
fn unclosed_children_of_the_epic_page() {
    let mut core = Core::new();
    assert!(unclosed_children(&core).is_empty());
    core.view = Screen::EpicDetail {
        epic_id: "e".into(),
        children: vec![issue("e.1", "closed"), issue("e.2", "open"), issue("e.3", "in_progress")],
        ready_ids: vec![],
        child_selected: 0,
        scroll_offset: 0,
    };
    let ids = unclosed_children(&core);
    assert_eq!(ids, vec!["e.2", "e.3"]);
    assert_eq!(unclosed_message(&ids), "Unclosed children: e.2, e.3");
}

#[test]
fn resume_command_needs_a_session() {
    let mut m = ImplManager::new();
    assert_eq!(resume_command(&m, "x-1", "agent"), Err("No impl job found"));
    assert_eq!(worktree_path_to_copy(&m, "x-1"), Err("No impl job found"));
    m.start(&issue("x-1", "open"), Some("/w/strand-impl-1".into()));
    assert_eq!(resume_command(&m, "x-1", "agent"), Err("No session ID available"));
    assert_eq!(worktree_path_to_copy(&m, "x-1"), Ok("/w/strand-impl-1".to_string()));
    m.handle_event_at(
        ImplEvent::Completed { issue_id: "x-1".into(), summary: "s".into(), session_id: Some("abc".into()) },
        "t".into(),
    );
    assert_eq!(
        resume_command(&m, "x-1", "agent"),
        Ok("cd /w/strand-impl-1 && agent --dangerously-skip-permissions --resume abc".to_string())
    );
}

#[test]
fn moving_between_issues_of_an_epic() {
    let mut core = Core::new();
    core.issue_store.issues = vec![issue("top", "open")];
    push_view(&mut core, "e".into(), vec![issue("e.1", "open"), issue("e.2", "open")], vec![]);
    push_view(&mut core, "e.1".into(), vec![], vec![]);
    assert!(can_navigate(&core, true));
    assert_eq!(navigate_target(&core, true), Some((1, "e.2".to_string())));
    assert_eq!(navigate_target(&core, false), None);
    set_navigation_cursor(&mut core, 1);
    match core.view_stack.last() {
        Some(Screen::EpicDetail { child_selected, .. }) => assert_eq!(*child_selected, 1),
        _ => panic!("epic page expected below"),
    }
}

#[test]
fn moving_between_top_level_issues() {
    let mut core = Core::new();
    core.issue_store.issues = vec![issue("a", "open"), issue("b", "open")];
    assert_eq!(navigate_target(&core, true), None);
    push_view(&mut core, "b".into(), vec![], vec![]);
    assert_eq!(navigate_target(&core, false), Some((0, "a".to_string())));
    assert_eq!(navigate_target(&core, true), None);
}

#[test]
fn stale_cursor_past_the_end_cannot_step_back() {
    let mut core = Core::new();
    core.issue_store.issues = vec![issue("a", "open")];
    core.issue_store.selected = 5;
    core.view = Screen::IssueDetail { issue_id: "gone".into(), scroll_offset: 0, diff: None };
    assert!(!can_navigate(&core, false));
    assert!(can_navigate(&core, true));
}
