use strand::action::{AppAction, SelectorDef, SelectorItem};
use strand::bd::Issue;
use strand::core_state::overlay::Overlay;
use strand::core_state::view::ConfirmAction;
use strand::core_state::Core;
use strand::keybar::{
    handle_overlay_key, open_filter_label_toggle, open_filter_status_toggle,
    sync_keybar_to_filter, OverlayOutcome,
};
use strand::selector::Key;

fn labeled(id: &str, labels: &[&str]) -> Issue {
    Issue {
        id: id.into(),
        title: id.into(),
        status: "open".into(),
        priority: None,
        description: None,
        labels: labels.iter().map(|l| l.to_string()).collect(),
        issue_type: None,
        updated_at: None,
        estimate: None,
    }
}

#[test]
fn closed_bar_passes_keys_on() {
    let mut core = Core::new();
    assert!(matches!(handle_overlay_key(Key::Enter, &mut core), OverlayOutcome::NotConsumed));
}

#[test]
fn status_toggle_syncs_filter() {
    let mut core = Core::new();
    core.issue_store.selected = 3;
    open_filter_status_toggle(&mut core);
    match &core.overlay {
        Overlay::ToggleSelector(sel) => {
            let names: Vec<&str> = sel.items.iter().map(|(n, _)| n.as_str()).collect();
            assert_eq!(names, vec!["open", "in_progress", "deferred", "closed"]);
            assert!(sel.items.iter().all(|(_, on)| !on));
        }
        _ => panic!("toggle expected"),
    }
    assert!(matches!(handle_overlay_key(Key::Right, &mut core), OverlayOutcome::Consumed));
    assert!(matches!(handle_overlay_key(Key::Enter, &mut core), OverlayOutcome::Consumed));
    assert_eq!(core.filter.statuses, vec!["in_progress"]);
    assert_eq!(core.issue_store.selected, 0);
    assert!(matches!(handle_overlay_key(Key::Esc, &mut core), OverlayOutcome::Consumed));
    assert!(matches!(core.overlay, Overlay::Closed));
    open_filter_status_toggle(&mut core);
    match &core.overlay {
        Overlay::ToggleSelector(sel) => assert!(sel.items[1].1 && !sel.items[0].1),
        _ => panic!("toggle expected"),
    }
}

#[test]
fn label_toggle_lists_user_labels() {
    let mut core = Core::new();
    core.issue_store.issues = vec![labeled("a", &["ui", "strand-unread"]), labeled("b", &["bug"])];
    core.filter.insert_label("ui".into());
    open_filter_label_toggle(&mut core);
    match &core.overlay {
        Overlay::ToggleSelector(sel) => {
            assert_eq!(sel.items, vec![("bug".to_string(), false), ("ui".to_string(), true)]);
        }
        _ => panic!("toggle expected"),
    }
    handle_overlay_key(Key::Char(' '), &mut core);
    let mut labels = core.filter.labels.clone();
    labels.sort();
    assert_eq!(labels, vec!["bug", "ui"]);
    sync_keybar_to_filter(&mut core);
    assert_eq!(core.filter.labels.len(), 2);
}

#[test]
fn selector_hands_over_the_choice() {
    let mut core = Core::new();
    core.notification = Some("pick".into());
    core.overlay = Overlay::open_selector(SelectorDef {
        items: vec![SelectorItem { shortcut: "x".into(), label: "x".into(), action: AppAction::ReloadIssues }],
        initial_cursor: 0,
    });
    assert!(matches!(handle_overlay_key(Key::Char('x'), &mut core), OverlayOutcome::Action(AppAction::ReloadIssues)));
    assert!(matches!(core.overlay, Overlay::Closed));
    assert!(core.notification.is_none());
}

#[test]
fn empty_selector_ignores_enter() {
    let mut core = Core::new();
    core.overlay = Overlay::open_selector(SelectorDef { items: vec![], initial_cursor: 0 });
    assert!(matches!(handle_overlay_key(Key::Enter, &mut core), OverlayOutcome::Consumed));
    assert!(matches!(core.overlay, Overlay::Selector(_)));
    assert!(matches!(handle_overlay_key(Key::Esc, &mut core), OverlayOutcome::Consumed));
    assert!(matches!(core.overlay, Overlay::Closed));
}

#[test]
fn confirmation_needs_y() {
    let mut core = Core::new();
    core.overlay = Overlay::Confirm(ConfirmAction::Discard);
    assert!(matches!(
        handle_overlay_key(Key::Char('y'), &mut core),
        OverlayOutcome::Action(AppAction::Confirm(ConfirmAction::Discard))
    ));
    assert!(matches!(core.overlay, Overlay::Closed));
    core.overlay = Overlay::Confirm(ConfirmAction::Merge);
    assert!(matches!(handle_overlay_key(Key::Char('n'), &mut core), OverlayOutcome::Consumed));
    assert!(matches!(core.overlay, Overlay::Closed));
}

#[test]
fn overlay_key_actions() {
    let mut o = Overlay::Confirm(ConfirmAction::Retry);
    let acts = o.handle_key(Key::Char('y'));
    assert_eq!(acts.len(), 2);
    assert!(matches!(acts[0], AppAction::CloseKeyBar));
    assert!(matches!(acts[1], AppAction::Confirm(ConfirmAction::Retry)));
    let mut closed = Overlay::Closed;
    assert!(closed.handle_key(Key::Enter).is_empty());

    let mut sel = Overlay::open_selector(SelectorDef {
        items: vec![SelectorItem { shortcut: "q".into(), label: "quick".into(), action: AppAction::QuickCreate }],
        initial_cursor: 0,
    });
    let acts = sel.handle_key(Key::Enter);
    assert_eq!(acts.len(), 2);
    assert!(matches!(acts[0], AppAction::CloseKeyBar));
    assert!(matches!(acts[1], AppAction::QuickCreate));
    assert!(sel.handle_key(Key::Left).is_empty());
    let acts = sel.handle_key(Key::Esc);
    assert!(matches!(acts[..], [AppAction::CloseKeyBar]));

    let mut toggle = Overlay::ToggleSelector(strand::selector::ToggleSelector::new(
        strand::selector::ToggleTarget::FilterLabel,
        vec![("bug".into(), false)],
    ));
    assert!(matches!(toggle.handle_key(Key::Char(' '))[..], [AppAction::SyncFilter]));
    assert!(matches!(toggle.handle_key(Key::Esc)[..], [AppAction::CloseKeyBar]));
    assert!(toggle.handle_key(Key::Char('x')).is_empty());
}
