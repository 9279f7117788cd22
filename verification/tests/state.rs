use strand::ai::enrich::{enrich_update, issue_is_enriched, EnrichResult, EnrichUpdate, Solution};
use strand::ai::implement::manager::ImplManager;
use strand::ai::implement::worktree::base_branch;
use strand::ai::implement::ImplEvent;
use strand::page::epic_detail::epic_key_hints;
use strand::action::state::{
    clamp_selection, clear_filter, close_key_bar, leave_issue_detail, open_confirm, open_selector,
};
use strand::action::{AppAction, SelectorDef, SelectorItem};
use strand::bd::Issue;
use strand::core_state::overlay::Overlay;
use strand::core_state::view::{ConfirmAction, Screen};
use strand::core_state::Core;
use strand::selector::{ExecuteSelector, Key, SelectorResult, ToggleResult, ToggleSelector, ToggleTarget};

fn issue(id: &str) -> Issue {
    Issue {
        id: id.into(),
        title: id.into(),
        status: "open".into(),
        priority: None,
        description: None,
        labels: vec![],
        issue_type: None,
        updated_at: None,
        estimate: None,
    }
}

fn item(shortcut: &str, label: &str, action: AppAction) -> SelectorItem {
    SelectorItem { shortcut: shortcut.into(), label: label.into(), action }
}

#[test]
fn confirm_opens_and_closes_the_key_bar() {
    let mut core = Core::new();
    open_confirm(&mut core, ConfirmAction::Merge);
    assert!(matches!(core.overlay, Overlay::Confirm(ConfirmAction::Merge)));
    assert_eq!(core.notification.as_deref(), Some("Merge? (y/n)"));
    close_key_bar(&mut core);
    assert!(matches!(core.overlay, Overlay::Closed));
    assert!(core.notification.is_none());
}

#[test]
fn selector_opens_with_a_clamped_cursor() {
    let mut core = Core::new();
    let def = SelectorDef {
        items: vec![item("a", "one", AppAction::Back), item("b", "two", AppAction::Next)],
        initial_cursor: 5,
    };
    open_selector(&mut core, def);
    match &core.overlay {
        Overlay::Selector(sel) => {
            assert_eq!(sel.items.len(), 2);
            assert_eq!(sel.cursor, 1);
        }
        _ => panic!("no selector"),
    }
}

#[test]
fn clearing_the_filter_resets_the_cursor() {
    let mut core = Core::new();
    core.filter.insert_status("open".into());
    core.filter.insert_label("bug".into());
    core.issue_store.selected = 3;
    clear_filter(&mut core);
    assert!(!core.filter.is_active());
    assert_eq!(core.issue_store.selected, 0);
}

#[test]
fn leaving_an_issue_page_goes_back_only_from_there() {
    let mut core = Core::new();
    core.view_stack.push(Screen::IssueList);
    core.view = Screen::IssueDetail { issue_id: "a".into(), scroll_offset: 0, diff: None };
    leave_issue_detail(&mut core);
    assert!(matches!(core.view, Screen::IssueList));
    assert!(core.view_stack.is_empty());

    core.view_stack.push(Screen::IssueList);
    core.view = Screen::EpicDetail {
        epic_id: "e".into(),
        children: vec![],
        ready_ids: vec![],
        child_selected: 0,
        scroll_offset: 0,
    };
    leave_issue_detail(&mut core);
    assert!(matches!(core.view, Screen::EpicDetail { .. }));
    assert_eq!(core.view_stack.len(), 1);
}

#[test]
fn reloading_keeps_the_cursor_on_a_row() {
    let mut core = Core::new();
    core.issue_store.issues = vec![issue("a"), issue("b")];
    core.issue_store.selected = 7;
    clamp_selection(&mut core);
    assert_eq!(core.issue_store.selected, 1);
    core.issue_store.issues = vec![];
    clamp_selection(&mut core);
    assert_eq!(core.issue_store.selected, 0);
    core.issue_store.issues = vec![issue("a"), issue("b"), issue("c")];
    core.issue_store.selected = 1;
    clamp_selection(&mut core);
    assert_eq!(core.issue_store.selected, 1);
}

#[test]
fn a_copied_selector_action_keeps_every_item() {
    let inner = SelectorDef {
        items: vec![item("x", "first", AppAction::CopyId("7".into())), item("y", "second", AppAction::Back)],
        initial_cursor: 1,
    };
    let action = AppAction::OpenSelector(inner);
    match action.clone() {
        AppAction::OpenSelector(d) => {
            assert_eq!(d.initial_cursor, 1);
            assert_eq!(d.items.len(), 2);
            assert_eq!(d.items[0].shortcut, "x");
            assert_eq!(d.items[0].label, "first");
            assert!(matches!(d.items[0].action, AppAction::CopyId(ref s) if s == "7"));
            assert_eq!(d.items[1].label, "second");
            assert!(matches!(d.items[1].action, AppAction::Back));
        }
        _ => panic!("not a selector"),
    }
}

#[test]
fn selectors_clamp_a_cursor_left_out_of_range() {
    let mut sel = ExecuteSelector {
        items: vec![item("a", "one", AppAction::Back), item("b", "two", AppAction::Next)],
        cursor: 9,
    };
    assert!(matches!(sel.handle_key(Key::Right), SelectorResult::Continue));
    assert_eq!(sel.cursor, 1);
    assert!(matches!(sel.handle_key(Key::Enter), SelectorResult::Selected(AppAction::Next)));

    let mut t = ToggleSelector {
        target: ToggleTarget::FilterLabel,
        items: vec![("bug".into(), false)],
        cursor: 4,
    };
    assert!(matches!(t.handle_key(Key::Enter), ToggleResult::Toggled));
    assert_eq!(t.items, vec![("bug".to_string(), false)]);
    assert!(matches!(t.handle_key(Key::Char('l')), ToggleResult::Continue));
    assert_eq!(t.cursor, 0);
}

#[test]
fn epic_hints_offer_continue_and_merge_when_they_apply() {

    let mut core = Core::new();
    let mut done = issue("e.1");
    done.status = "closed".into();
    core.view = Screen::EpicDetail {
        epic_id: "e".into(),
        children: vec![done],
        ready_ids: vec![],
        child_selected: 0,
        scroll_offset: 0,
    };
    let mut m = ImplManager::new();
    let keys: Vec<&str> = epic_key_hints(&core, &m).iter().map(|(k, _)| *k).collect();
    assert_eq!(keys, vec!["Enter", "Esc", "q", "y", "e", "E", "a", "s", "w", "m"]);

    m.start(&issue("e"), Some("/w/strand-impl-e".into()));
    m.handle_event_at(
        ImplEvent::Completed { issue_id: "e".into(), summary: "s".into(), session_id: Some("abc".into()) },
        "t".into(),
    );
    let hints = epic_key_hints(&core, &m);
    assert_eq!(hints[9], ("c", "continue"));
    assert_eq!(hints[10], ("m", "merge to master"));
}

#[test]
fn base_branch_falls_back_to_master() {
    assert_eq!(base_branch(Some("strand-epic-e".into()), true), "strand-epic-e");
    assert_eq!(base_branch(Some("strand-epic-e".into()), false), "master");
    assert_eq!(base_branch(None, true), "master");
}

#[test]
fn enriched_label_is_recognised() {
    let mut i = issue("a");
    assert!(!issue_is_enriched(&i));
    i.labels = vec!["bug".into(), "strand-enriched".into()];
    assert!(issue_is_enriched(&i));
}

#[test]
fn enrich_update_follows_the_mode_and_the_label() {
    let mut i = issue("a");
    i.description = Some("Original".into());
    match enrich_update(&i, true, "answer", None) {
        EnrichUpdate::Describe(d) => assert_eq!(d, "Original\n\n---\nanswer"),
        _ => panic!("expected a description"),
    }
    let parsed = EnrichResult {
        problems: vec!["P".into()],
        solutions: vec![Solution { label: "A".into(), title: "T".into(), description: "D".into() }],
    };
    match enrich_update(&i, false, "ignored", Some(&parsed)) {
        EnrichUpdate::Describe(d) => assert!(d.starts_with("Original\n\n---\n### 課題\n- P")),
        _ => panic!("expected a description"),
    }
    assert!(matches!(enrich_update(&i, false, "x", None), EnrichUpdate::Unreadable));
    i.labels = vec!["strand-enriched".into()];
    assert!(matches!(enrich_update(&i, true, "x", None), EnrichUpdate::Unchanged));
}
