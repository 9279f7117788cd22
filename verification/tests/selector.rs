use strand::action::{AppAction, SelectorDef, SelectorItem};
use strand::selector::{
    ExecuteSelector, Key, SelectorResult, ToggleResult, ToggleSelector, ToggleTarget,
};

fn test_selector(items: &[(&str, &str)]) -> ExecuteSelector {
    ExecuteSelector::from_def(SelectorDef {
        items: items
            .iter()
            .map(|(s, l)| SelectorItem {
                shortcut: s.to_string(),
                label: l.to_string(),
                action: AppAction::Notify(l.to_string()),
            })
            .collect(),
        initial_cursor: 0,
    })
}

#[test]
fn execute_selector_shortcut() {
    let mut sel = test_selector(&[("e", "enrich"), ("i", "implement"), ("s", "split")]);
    assert!(matches!(
        sel.handle_key(Key::Char('i')),
        SelectorResult::Selected(AppAction::Notify(ref s)) if s == "implement"
    ));
}

#[test]
fn execute_selector_cursor_move_and_enter() {
    let mut sel = test_selector(&[("e", "enrich"), ("i", "implement"), ("s", "split")]);
    sel.handle_key(Key::Right);
    sel.handle_key(Key::Right);
    assert_eq!(sel.cursor, 2);
    assert!(matches!(
        sel.handle_key(Key::Enter),
        SelectorResult::Selected(AppAction::Notify(ref s)) if s == "split"
    ));
}

#[test]
fn execute_selector_cursor_clamp() {
    let mut sel = test_selector(&[("e", "enrich"), ("i", "implement"), ("s", "split")]);
    sel.handle_key(Key::Left);
    assert_eq!(sel.cursor, 0);
    for _ in 0..10 {
        sel.handle_key(Key::Right);
    }
    assert_eq!(sel.cursor, 2);
}

#[test]
fn toggle_selector_basic() {
    let mut sel = ToggleSelector::new(
        ToggleTarget::FilterStatus,
        vec![("open".into(), false), ("closed".into(), false)],
    );
    sel.handle_key(Key::Char(' '));
    assert!(sel.items[0].1);
    assert!(!sel.items[1].1);
    assert_eq!(sel.selected_labels(), vec!["open"]);
}

#[test]
fn toggle_selector_move_and_toggle() {
    let mut sel = ToggleSelector::new(
        ToggleTarget::FilterStatus,
        vec![("a".into(), false), ("b".into(), false), ("c".into(), false)],
    );
    sel.handle_key(Key::Right);
    sel.handle_key(Key::Char(' '));
    sel.handle_key(Key::Right);
    sel.handle_key(Key::Char(' '));
    assert_eq!(sel.selected_labels(), vec!["b", "c"]);
}

#[test]
fn execute_selector_esc_and_unknown_keys() {
    let mut sel = test_selector(&[("e", "enrich")]);
    assert!(matches!(sel.handle_key(Key::Esc), SelectorResult::Cancelled));
    assert!(matches!(sel.handle_key(Key::Char('z')), SelectorResult::Continue));
    assert!(matches!(sel.handle_key(Key::Other), SelectorResult::Continue));
}

#[test]
fn execute_selector_initial_cursor_is_clamped() {
    let sel = ExecuteSelector::from_def(SelectorDef {
        items: vec![SelectorItem {
            shortcut: "a".into(),
            label: "a".into(),
            action: AppAction::Next,
        }],
        initial_cursor: 7,
    });
    assert_eq!(sel.cursor, 0);
}

#[test]
fn toggling_twice_restores_items() {
    let mut sel = ToggleSelector::new(
        ToggleTarget::FilterLabel,
        vec![("a".into(), true), ("b".into(), false)],
    );
    assert!(matches!(sel.handle_key(Key::Enter), ToggleResult::Toggled));
    assert!(matches!(sel.handle_key(Key::Enter), ToggleResult::Toggled));
    assert_eq!(sel.selected_labels(), vec!["a"]);
    assert!(matches!(sel.handle_key(Key::Esc), ToggleResult::Done));
}

#[test]
fn right_then_left_returns() {
    let mut sel = test_selector(&[("a", "a"), ("b", "b"), ("c", "c")]);
    sel.handle_key(Key::Char('l'));
    sel.handle_key(Key::Char('h'));
    assert_eq!(sel.cursor, 0);
}
