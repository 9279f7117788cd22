use strand::action::navigate::{back, next, previous, push_view, selected_after_removal};
use strand::bd::Issue;
use strand::core_state::view::Screen;
use strand::core_state::Core;

fn issue(id: &str) -> Issue {
    Issue {
        id: id.into(),
        title: id.into(),
        status: "open".into(),
        priority: None,
        description: None,
        labels: vec![],
        issue_type: Some("epic".into()),
        updated_at: None,
        estimate: None,
    }
}

#[test]
fn list_cursor_stays_in_range() {
    let mut core = Core::new();
    core.issue_store.issues = vec![issue("a"), issue("b")];
    next(&mut core);
    next(&mut core);
    next(&mut core);
    assert_eq!(core.issue_store.selected, 1);
    previous(&mut core);
    previous(&mut core);
    assert_eq!(core.issue_store.selected, 0);
}

#[test]
fn open_then_back_returns_to_the_list() {
    let mut core = Core::new();
    push_view(&mut core, "a".into(), vec![], vec![]);
    assert!(matches!(core.view, Screen::IssueDetail { ref issue_id, .. } if issue_id == "a"));
    push_view(&mut core, "b".into(), vec![issue("b.1")], vec![]);
    assert!(matches!(core.view, Screen::EpicDetail { ref epic_id, .. } if epic_id == "b"));
    back(&mut core);
    back(&mut core);
    assert!(matches!(core.view, Screen::IssueList));
    back(&mut core);
    assert!(matches!(core.view, Screen::IssueList));
}

#[test]
fn detail_scrolls() {
    let mut core = Core::new();
    core.view = Screen::IssueDetail { issue_id: "a".into(), scroll_offset: 0, diff: None };
    previous(&mut core);
    next(&mut core);
    next(&mut core);
    assert!(matches!(core.view, Screen::IssueDetail { scroll_offset: 2, .. }));
}

#[test]
fn selection_after_removing_the_last_row() {
    assert_eq!(selected_after_removal(3, 3), 2);
    assert_eq!(selected_after_removal(0, 0), 0);
    assert_eq!(selected_after_removal(1, 3), 1);
}
