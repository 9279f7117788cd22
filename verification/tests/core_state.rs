use strand::action::{AppAction, SelectorDef, SelectorItem};
use strand::bd::Issue;
use strand::core_state::overlay::Overlay;
use strand::core_state::view::{ConfirmAction, Screen};
use strand::core_state::{Core, Layer};

fn issue(id: &str, status: &str) -> Issue {
    Issue {
        id: id.into(),
        title: format!("t {id}"),
        status: status.into(),
        priority: Some(1),
        description: None,
        labels: vec![],
        issue_type: Some("epic".into()),
        updated_at: None,
        estimate: None,
    }
}

#[test]
fn layer_follows_the_key_bar_and_the_page() {
    let mut core = Core::new();
    assert_eq!(core.layer(), Layer::IssueList);
    core.view = Screen::IssueDetail { issue_id: "a".into(), scroll_offset: 0, diff: None };
    assert_eq!(core.layer(), Layer::IssueDetail);
    core.overlay = Overlay::Confirm(ConfirmAction::Retry);
    assert_eq!(core.layer(), Layer::KeyBar);
}

#[test]
fn finds_issues_on_the_stack() {
    let mut core = Core::new();
    core.issue_store.issues = vec![issue("top", "open")];
    core.view_stack.push(Screen::IssueList);
    core.view_stack.push(Screen::EpicDetail {
        epic_id: "ep".into(),
        children: vec![issue("ep.1", "open")],
        ready_ids: vec![],
        child_selected: 0,
        scroll_offset: 0,
    });
    core.view = Screen::IssueDetail { issue_id: "ep.1".into(), scroll_offset: 0, diff: None };
    assert_eq!(core.find_issue("top").map(|i| i.id), Some("top".to_string()));
    assert_eq!(core.find_issue("ep.1").map(|i| i.title), Some("t ep.1".to_string()));
    assert!(core.find_issue("nope").is_none());
    assert_eq!(core.find_parent_epic_id().as_deref(), Some("ep"));
    assert_eq!(core.current_issue_id().as_deref(), Some("ep.1"));
}

#[test]
fn finds_children_of_the_current_epic_page() {
    let mut core = Core::new();
    core.view = Screen::EpicDetail {
        epic_id: "ep".into(),
        children: vec![issue("ep.2", "open")],
        ready_ids: vec![],
        child_selected: 0,
        scroll_offset: 0,
    };
    core.view_stack.push(Screen::EpicDetail {
        epic_id: "old".into(),
        children: vec![issue("ep.2", "closed")],
        ready_ids: vec![],
        child_selected: 0,
        scroll_offset: 0,
    });
    assert_eq!(core.find_issue("ep.2").map(|i| i.status), Some("open".to_string()));
}

#[test]
fn all_children_closed_needs_children() {
    let mut core = Core::new();
    assert!(!core.all_children_closed());
    core.view = Screen::EpicDetail {
        epic_id: "ep".into(),
        children: vec![],
        ready_ids: vec![],
        child_selected: 0,
        scroll_offset: 0,
    };
    assert!(!core.all_children_closed());
    core.view = Screen::EpicDetail {
        epic_id: "ep".into(),
        children: vec![issue("ep.1", "closed"), issue("ep.2", "closed")],
        ready_ids: vec![],
        child_selected: 0,
        scroll_offset: 0,
    };
    assert!(core.all_children_closed());
}

#[test]
fn confirmation_texts() {
    assert_eq!(ConfirmAction::Merge.label(), "confirm merge");
    assert_eq!(ConfirmAction::MergeEpic.confirm_message(), "Merge epic to master? (y/n)");
    assert_eq!(ConfirmAction::Discard.confirm_message(), "Discard? (y/n)");
}

#[test]
fn open_selector_clamps_the_cursor() {
    let def = SelectorDef {
        items: vec![
            SelectorItem { shortcut: "a".into(), label: "a".into(), action: AppAction::Next },
            SelectorItem { shortcut: "b".into(), label: "b".into(), action: AppAction::Previous },
        ],
        initial_cursor: 9,
    };
    match Overlay::open_selector(def) {
        Overlay::Selector(sel) => assert_eq!(sel.cursor, 1),
        _ => panic!("selector expected"),
    }
}

#[test]
fn notify_sets_the_message() {
    let mut core = Core::new();
    core.notify("hello".to_string());
    assert_eq!(core.notification.as_deref(), Some("hello"));
}
