use strand::action::{AppAction, SelectorDef};
use strand::bd::Issue;
use strand::core_state::view::{ConfirmAction, Screen};
use strand::core_state::Core;
use strand::page::{epic_detail, issue_detail, issue_list};
use strand::selector::Key;

fn issue(id: &str, status: &str) -> Issue {
    Issue {
        id: id.to_string(),
        title: format!("Issue {id}"),
        status: status.to_string(),
        priority: None,
        description: None,
        labels: vec![],
        issue_type: Some("epic".into()),
        updated_at: None,
        estimate: Some(30),
    }
}

fn list_core() -> Core {
    let mut core = Core::new();
    core.issue_store.issues = vec![issue("a-1", "open"), issue("a-2", "open")];
    core.issue_store.selected = 1;
    core
}

fn one(v: Vec<AppAction>) -> AppAction {
    assert_eq!(v.len(), 1);
    v.into_iter().next().unwrap()
}

fn labels(def: &SelectorDef) -> Vec<(String, String)> {
    def.items.iter().map(|i| (i.shortcut.clone(), i.label.clone())).collect()
}

#[test]
fn list_moves_and_opens() {
    let core = list_core();
    assert!(matches!(one(issue_list::handle_key(Key::Char('j'), &core)), AppAction::Next));
    assert!(matches!(one(issue_list::handle_key(Key::Up, &core)), AppAction::Previous));
    assert!(matches!(one(issue_list::handle_key(Key::Enter, &core)), AppAction::OpenDetail(ref id) if id == "a-2"));
    assert!(matches!(one(issue_list::handle_key(Key::Char('y'), &core)), AppAction::CopyId(ref id) if id == "a-2"));
    assert!(matches!(
        one(issue_list::handle_key(Key::Char('E'), &core)),
        AppAction::OpenEstimateInput { ref issue_id, current: Some(30) } if issue_id == "a-2"
    ));
    assert!(matches!(one(issue_list::handle_key(Key::Char('q'), &core)), AppAction::QuickCreate));
    assert!(issue_list::handle_key(Key::Char('z'), &core).is_empty());
}

#[test]
fn list_with_nothing_selected_gives_nothing() {
    let core = Core::new();
    assert!(issue_list::handle_key(Key::Enter, &core).is_empty());
    assert!(issue_list::handle_key(Key::Char('a'), &core).is_empty());
    assert!(issue_list::handle_key(Key::Char('s'), &core).is_empty());
    assert!(issue_list::handle_key(Key::Char('p'), &core).is_empty());
}

#[test]
fn ai_selector_items() {
    let core = list_core();
    let def = issue_list::build_ai_selector(&core).unwrap();
    assert_eq!(
        labels(&def),
        vec![
            ("e".to_string(), "enrich".to_string()),
            ("i".to_string(), "implement".to_string()),
            ("s".to_string(), "split".to_string())
        ]
    );
    assert!(matches!(def.items[1].action, AppAction::StartImplement { ref issue_id, epic_id: None } if issue_id == "a-2"));
    assert_eq!(def.initial_cursor, 0);
}

#[test]
fn status_and_priority_selectors() {
    let core = list_core();
    let def = issue_list::build_status_selector(&core).unwrap();
    let ls: Vec<String> = def.items.iter().map(|i| i.label.clone()).collect();
    assert_eq!(ls, vec!["open", "in_progress", "deferred", "closed"]);
    assert!(matches!(def.items[3].action, AppAction::SetStatus { ref status, .. } if status == "closed"));
    let def = issue_list::build_priority_selector(&core).unwrap();
    assert_eq!(def.initial_cursor, 2);
    assert_eq!(
        labels(&def),
        (0..5).map(|p| (p.to_string(), format!("P{p}"))).collect::<Vec<_>>()
    );
    assert!(matches!(def.items[4].action, AppAction::SetPriority { priority: 4, .. }));
    let menu = issue_list::build_filter_menu_selector();
    assert!(matches!(menu.items[2].action, AppAction::ClearFilter));
}

#[test]
fn detail_keys() {
    let mut core = Core::new();
    core.view = Screen::IssueDetail { issue_id: "d-1".into(), scroll_offset: 0, diff: None };
    assert!(matches!(one(issue_detail::handle_key(Key::Esc, &core)), AppAction::Back));
    assert!(matches!(one(issue_detail::handle_key(Key::Char('e'), &core)), AppAction::EditDescription(ref id) if id == "d-1"));
    assert!(matches!(one(issue_detail::handle_key(Key::Char('m'), &core)), AppAction::OpenConfirm(ConfirmAction::Merge)));
    assert!(matches!(one(issue_detail::handle_key(Key::Char('d'), &core)), AppAction::OpenConfirm(ConfirmAction::Discard)));
    assert!(matches!(one(issue_detail::handle_key(Key::Char('w'), &core)), AppAction::StartSession(ref id) if id == "d-1"));
    assert!(matches!(one(issue_detail::handle_key(Key::Char('j'), &core)), AppAction::NavigateIssue { forward: true }));
    assert!(matches!(one(issue_detail::handle_key(Key::Char('k'), &core)), AppAction::NavigateIssue { forward: false }));
    assert!(matches!(one(issue_detail::handle_key(Key::Char('c'), &core)), AppAction::CopyResumeCommand(_)));
    assert!(issue_detail::handle_key(Key::Enter, &core).is_empty());
    assert_eq!(issue_detail::current_issue_id_for_edit(&core).as_deref(), Some("d-1"));
}

#[test]
fn epic_keys() {
    let mut core = Core::new();
    core.view = Screen::EpicDetail {
        epic_id: "e-1".into(),
        children: vec![issue("e-1.1", "closed"), issue("e-1.2", "open")],
        ready_ids: vec![],
        child_selected: 1,
        scroll_offset: 0,
    };
    assert!(matches!(one(epic_detail::handle_key(Key::Enter, &core)), AppAction::OpenChildDetail(ref id) if id == "e-1.2"));
    assert!(matches!(one(epic_detail::handle_key(Key::Char('e'), &core)), AppAction::EditDescription(ref id) if id == "e-1"));
    assert!(epic_detail::handle_key(Key::Char('m'), &core).is_empty());
    if let Screen::EpicDetail { children, .. } = &mut core.view {
        children[1].status = "closed".into();
    }
    assert!(matches!(one(epic_detail::handle_key(Key::Char('m'), &core)), AppAction::OpenConfirm(ConfirmAction::MergeEpic)));
    assert!(matches!(one(epic_detail::handle_key(Key::Char('k'), &core)), AppAction::Previous));
    assert_eq!(epic_detail::selected_child_id(&core).as_deref(), Some("e-1.2"));
}

#[test]
fn implement_from_an_epic_child_targets_the_epic() {
    let mut core = Core::new();
    core.view_stack.push(Screen::EpicDetail {
        epic_id: "e-1".into(),
        children: vec![issue("e-1.1", "open")],
        ready_ids: vec![],
        child_selected: 0,
        scroll_offset: 0,
    });
    core.view = Screen::IssueDetail { issue_id: "e-1.1".into(), scroll_offset: 0, diff: None };
    let def = issue_list::build_ai_selector(&core).unwrap();
    assert!(matches!(
        def.items[1].action,
        AppAction::StartImplement { ref issue_id, epic_id: Some(ref e) } if issue_id == "e-1.1" && e == "e-1"
    ));
}
