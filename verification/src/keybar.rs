//! The key bar's share of the keys: while a selector or a confirmation is open it handles
//! them, and the toggle-selectors edit the list filter.

use vstd::prelude::*;
use vstd::string::*;

use crate::action::AppAction;
use crate::core_state::filter::{statuses, unique_strings, user_labels_of};
use crate::core_state::overlay::Overlay;
use crate::core_state::Core;
use crate::selector::{
    execute_key_ok, selected_spec, toggle_key_ok, ExecuteSelector, Key, SelectorResult,
    ToggleResult, ToggleSelector, ToggleTarget,
};
use crate::text::{contains_str, sorted_elements, views};

verus! {

/// What the key bar made of a key.
pub enum OverlayOutcome {
    /// No key bar is open: the page handles the key.
    NotConsumed,
    /// The key bar took the key; nothing further to run.
    Consumed,
    /// The key bar chose this action.
    Action(AppAction),
}

/// The items of a toggle-selector by their views.
pub open spec fn toggle_items_view(items: Seq<(String, bool)>) -> Seq<(Seq<char>, bool)> {
    items.map_values(|p: (String, bool)| (p.0@, p.1))
}

/// Each value with whether it is among `chosen`.
pub open spec fn marked(values: Seq<Seq<char>>, chosen: Seq<Seq<char>>) -> Seq<(Seq<char>, bool)> {
    values.map_values(|v: Seq<char>| (v, chosen.contains(v)))
}

proof fn lemma_marked_push(s: Seq<Seq<char>>, x: Seq<char>, chosen: Seq<Seq<char>>)
    ensures
        marked(s.push(x), chosen) == marked(s, chosen).push((x, chosen.contains(x))),
{
    assert(marked(s.push(x), chosen) =~= marked(s, chosen).push((x, chosen.contains(x))));
}

/// The parts of the state that the filter edits leave alone.
pub open spec fn same_but_filter(a: Core, b: Core) -> bool {
    &&& a.issue_store.issues == b.issue_store.issues
    &&& a.view == b.view
    &&& a.view_stack == b.view_stack
    &&& a.notification == b.notification
}

/// Copies the choices of the open toggle-selector into the filter it edits, and puts the list
/// cursor back on the first row.
pub fn sync_keybar_to_filter(core: &mut Core)
    requires
        old(core).filter.wf(),
    ensures
        final(core).filter.wf(),
        final(core).issue_store.selected == 0,
        same_but_filter(*old(core), *final(core)),
        final(core).overlay == old(core).overlay,
        final(core).filter.available_labels@ == old(core).filter.available_labels@,
        match old(core).overlay {
            Overlay::ToggleSelector(sel) => match sel.target {
                ToggleTarget::FilterStatus => views(final(core).filter.statuses@).to_set()
                    == selected_spec(sel.items@).to_set() && final(core).filter.labels@ == old(
                    core,
                ).filter.labels@,
                ToggleTarget::FilterLabel => views(final(core).filter.labels@).to_set()
                    == selected_spec(sel.items@).to_set() && final(core).filter.statuses@ == old(
                    core,
                ).filter.statuses@,
            },
            _ => final(core).filter.statuses@ == old(core).filter.statuses@
                && final(core).filter.labels@ == old(core).filter.labels@,
        },
{
    let chosen = match &core.overlay {
        Overlay::ToggleSelector(sel) => {
            let labels = sel.selected_labels();
            Some((sel.target, unique_strings(&labels)))
        },
        _ => None,
    };
    match chosen {
        Some((ToggleTarget::FilterStatus, vals)) => {
            core.filter.statuses = vals;
        },
        Some((ToggleTarget::FilterLabel, vals)) => {
            core.filter.labels = vals;
        },
        None => {},
    }
    core.issue_store.selected = 0;
}

/// The status toggle lists the four statuses, each marked when the filter chooses it.
pub open spec fn status_toggle_items(chosen: Seq<Seq<char>>) -> Seq<(Seq<char>, bool)> {
    marked(seq!["open"@, "in_progress"@, "deferred"@, "closed"@], chosen)
}

/// Opens the status toggle over the filter's statuses.
pub fn open_filter_status_toggle(core: &mut Core)
    ensures
        same_but_filter(*old(core), *final(core)),
        final(core).filter == old(core).filter,
        final(core).issue_store == old(core).issue_store,
        final(core).overlay matches Overlay::ToggleSelector(sel) && sel.wf() && sel.target
            == ToggleTarget::FilterStatus && sel.cursor == 0 && toggle_items_view(sel.items@)
            == status_toggle_items(views(old(core).filter.statuses@)),
{
    let all = statuses();
    let mut items: Vec<(String, bool)> = Vec::new();
    let mut i: usize = 0;
    while i < all.len()
        invariant
            i <= all@.len(),
            items@.len() == i,
            views(all@) == seq!["open"@, "in_progress"@, "deferred"@, "closed"@],
            toggle_items_view(items@) == marked(views(all@).take(i as int), views(core.filter.statuses@)),
        decreases all@.len() - i,
    {
        let on = contains_str(&core.filter.statuses, all[i].as_str());
        let name = all[i].clone();
        let ghost before = items@;
        items.push((name, on));
        assert(items@[i as int].0@ == views(all@)[i as int]);
        assert(toggle_items_view(items@) =~= toggle_items_view(before).push(
            (views(all@)[i as int], on),
        ));
        proof {
            assert(views(all@).take(i + 1) =~= views(all@).take(i as int).push(views(all@)[i as int]));
            lemma_marked_push(views(all@).take(i as int), views(all@)[i as int], views(core.filter.statuses@));
        }
        assert(toggle_items_view(items@) =~= marked(views(all@).take(i + 1), views(core.filter.statuses@)));
        i = i + 1;
    }
    assert(views(all@).take(all@.len() as int) =~= views(all@));
    core.overlay = Overlay::ToggleSelector(ToggleSelector::new(ToggleTarget::FilterStatus, items));
}

/// Refreshes the labels on offer and opens the label toggle over them, each marked when the
/// filter chooses it.
pub fn open_filter_label_toggle(core: &mut Core)
    ensures
        same_but_filter(*old(core), *final(core)),
        final(core).issue_store == old(core).issue_store,
        final(core).filter.statuses@ == old(core).filter.statuses@,
        final(core).filter.labels@ == old(core).filter.labels@,
        views(final(core).filter.available_labels@) == sorted_elements(
            user_labels_of(crate::bd::issue_views(old(core).issue_store.issues@)),
        ),
        final(core).overlay matches Overlay::ToggleSelector(sel) && sel.wf() && sel.target
            == ToggleTarget::FilterLabel && sel.cursor == 0 && toggle_items_view(sel.items@)
            == marked(views(final(core).filter.available_labels@), views(old(core).filter.labels@)),
{
    core.filter.refresh_labels(&core.issue_store.issues);
    let mut items: Vec<(String, bool)> = Vec::new();
    let mut i: usize = 0;
    while i < core.filter.available_labels.len()
        invariant
            i <= core.filter.available_labels@.len(),
            items@.len() == i,
            toggle_items_view(items@) == marked(
                views(core.filter.available_labels@).take(i as int),
                views(core.filter.labels@),
            ),
        decreases core.filter.available_labels@.len() - i,
    {
        let l = &core.filter.available_labels[i];
        let on = contains_str(&core.filter.labels, l.as_str());
        let name = l.clone();
        let ghost before = items@;
        items.push((name, on));
        assert(items@[i as int].0@ == views(core.filter.available_labels@)[i as int]);
        assert(toggle_items_view(items@) =~= toggle_items_view(before).push(
            (views(core.filter.available_labels@)[i as int], on),
        ));
        proof {
            let av = views(core.filter.available_labels@);
            assert(av.take(i + 1) =~= av.take(i as int).push(av[i as int]));
            lemma_marked_push(av.take(i as int), av[i as int], views(core.filter.labels@));
        }
        assert(toggle_items_view(items@) =~= marked(
            views(core.filter.available_labels@).take(i + 1),
            views(core.filter.labels@),
        ));
        i = i + 1;
    }
    assert(views(core.filter.available_labels@).take(core.filter.available_labels@.len() as int)
        =~= views(core.filter.available_labels@));
    core.overlay = Overlay::ToggleSelector(ToggleSelector::new(ToggleTarget::FilterLabel, items));
}

/// The actions an execute-selector's answer stands for: close the bar and run the chosen
/// action, close the bar, or nothing yet.
pub open spec fn selector_actions(res: SelectorResult, r: Seq<AppAction>) -> bool {
    match res {
        SelectorResult::Continue => r.len() == 0,
        SelectorResult::Cancelled => r == seq![AppAction::CloseKeyBar],
        SelectorResult::Selected(a) => r == seq![AppAction::CloseKeyBar, a],
    }
}

/// The actions a toggle-selector's answer stands for: copy the choices into the filter, close
/// the bar, or nothing.
pub open spec fn toggle_actions(res: ToggleResult, r: Seq<AppAction>) -> bool {
    match res {
        ToggleResult::Continue => r.len() == 0,
        ToggleResult::Toggled => r == seq![AppAction::SyncFilter],
        ToggleResult::Done => r == seq![AppAction::CloseKeyBar],
    }
}

/// An Enter or Space on a selector with no items: there is nothing to pick.
pub open spec fn picks_from_empty(sel: ExecuteSelector, key: Key) -> bool {
    sel.items@.len() == 0 && (key == Key::Enter || key == Key::Char(' '))
}

/// A list of up to two actions.
fn actions_of(first: Option<AppAction>, second: Option<AppAction>) -> (r: Vec<AppAction>)
    ensures
        r@ == match (first, second) {
            (Some(a), Some(b)) => seq![a, b],
            (Some(a), None) => seq![a],
            (None, Some(b)) => seq![b],
            (None, None) => Seq::empty(),
        },
{
    let mut r: Vec<AppAction> = Vec::new();
    if let Some(a) = first {
        r.push(a);
    }
    if let Some(b) = second {
        r.push(b);
    }
    assert(r@ =~= match (first, second) {
        (Some(a), Some(b)) => seq![a, b],
        (Some(a), None) => seq![a],
        (None, Some(b)) => seq![b],
        (None, None) => Seq::empty(),
    });
    r
}

impl Overlay {
    /// The actions a key stands for while the key bar is open: a selector's choice (after
    /// closing the bar), a toggle's sync of the filter, a confirmation with `y` (after closing
    /// the bar); any other key closes a confirmation.
    pub fn handle_key(&mut self, key: Key) -> (r: Vec<AppAction>)
        requires
            match *old(self) {
                Overlay::Selector(s) => s.wf(),
                Overlay::ToggleSelector(t) => t.wf(),
                _ => true,
            },
        ensures
            match *old(self) {
                Overlay::Closed => r@.len() == 0 && *final(self) == *old(self),
                Overlay::Selector(s0) => *final(self) matches Overlay::Selector(s1) && s1.wf() && if picks_from_empty(
                    s0,
                    key,
                ) {
                    r@.len() == 0 && s1 == s0
                } else {
                    exists|res: SelectorResult|
                        #[trigger] execute_key_ok(s0, key, s1, res) && selector_actions(res, r@)
                },
                Overlay::ToggleSelector(t0) => *final(self) matches Overlay::ToggleSelector(t1)
                    && t1.wf() && exists|res: ToggleResult|
                    #[trigger] toggle_key_ok(t0, key, t1, res) && toggle_actions(res, r@),
                Overlay::Confirm(c) => *final(self) == *old(self) && r@ == if key == Key::Char(
                    'y',
                ) {
                    seq![AppAction::CloseKeyBar, AppAction::Confirm(c)]
                } else {
                    seq![AppAction::CloseKeyBar]
                },
            },
    {
        match self {
            Overlay::Closed => actions_of(None, None),
            Overlay::Selector(sel) => {
                if sel.items.len() == 0 && (key == Key::Enter || key == Key::Char(' ')) {
                    return actions_of(None, None);
                }
                let ghost s0 = *sel;
                let res = sel.handle_key(key);
                let ghost res_g = res;
                let r = match res {
                    SelectorResult::Continue => actions_of(None, None),
                    SelectorResult::Cancelled => actions_of(Some(AppAction::CloseKeyBar), None),
                    SelectorResult::Selected(a) => actions_of(Some(AppAction::CloseKeyBar), Some(a)),
                };
                assert(execute_key_ok(s0, key, *sel, res_g) && selector_actions(res_g, r@));
                r
            },
            Overlay::ToggleSelector(sel) => {
                let ghost t0 = *sel;
                let res = sel.handle_key(key);
                let ghost res_g = res;
                let r = match res {
                    ToggleResult::Continue => actions_of(None, None),
                    ToggleResult::Toggled => actions_of(Some(AppAction::SyncFilter), None),
                    ToggleResult::Done => actions_of(Some(AppAction::CloseKeyBar), None),
                };
                assert(toggle_key_ok(t0, key, *sel, res_g) && toggle_actions(res_g, r@));
                r
            },
            Overlay::Confirm(c) => {
                if key == Key::Char('y') {
                    actions_of(Some(AppAction::CloseKeyBar), Some(AppAction::Confirm(*c)))
                } else {
                    actions_of(Some(AppAction::CloseKeyBar), None)
                }
            },
        }
    }
}

/// The open selector is well formed.
pub open spec fn overlay_wf(o: Overlay) -> bool {
    match o {
        Overlay::Selector(s) => s.wf(),
        Overlay::ToggleSelector(t) => t.wf(),
        _ => true,
    }
}

/// The state after closing the key bar: no bar, no notification, the rest as before.
pub open spec fn closed_bar(c: Core) -> Core {
    Core { overlay: Overlay::Closed, notification: None, ..c }
}

/// The filter after copying the choices of toggle-selector `t` into it, with the list cursor
/// back on the first row.
pub open spec fn synced(before: Core, t: ToggleSelector, after: Core) -> bool {
    &&& after.filter.wf()
    &&& after.issue_store.selected == 0
    &&& same_but_filter(before, after)
    &&& after.filter.available_labels@ == before.filter.available_labels@
    &&& match t.target {
        ToggleTarget::FilterStatus => views(after.filter.statuses@).to_set() == selected_spec(
            t.items@,
        ).to_set() && after.filter.labels@ == before.filter.labels@,
        ToggleTarget::FilterLabel => views(after.filter.labels@).to_set() == selected_spec(
            t.items@,
        ).to_set() && after.filter.statuses@ == before.filter.statuses@,
    }
}

/// What the key bar does with a key: with no bar open the page gets it; a selector moves,
/// closes, or closes and hands over the chosen action; a toggle moves, flips and syncs the
/// filter, or closes; a confirmation closes, handing over the confirmed operation on `y`.
pub open spec fn overlay_key_ok(before: Core, key: Key, after: Core, r: OverlayOutcome) -> bool {
    match before.overlay {
        Overlay::Closed => r is NotConsumed && after == before,
        Overlay::Selector(s0) => if picks_from_empty(s0, key) {
            r is Consumed && after == before
        } else {
            exists|s1: ExecuteSelector, res: SelectorResult|
                #[trigger] execute_key_ok(s0, key, s1, res) && s1.wf() && match res {
                    SelectorResult::Continue => r is Consumed && after == Core {
                        overlay: Overlay::Selector(s1),
                        ..before
                    },
                    SelectorResult::Cancelled => r is Consumed && after == closed_bar(before),
                    SelectorResult::Selected(a) => r == OverlayOutcome::Action(a) && after
                        == closed_bar(before),
                }
        },
        Overlay::ToggleSelector(t0) => exists|t1: ToggleSelector, res: ToggleResult|
            #[trigger] toggle_key_ok(t0, key, t1, res) && t1.wf() && match res {
                ToggleResult::Continue => r is Consumed && after == Core {
                    overlay: Overlay::ToggleSelector(t1),
                    ..before
                },
                ToggleResult::Toggled => r is Consumed && after.overlay == Overlay::ToggleSelector(
                    t1,
                ) && synced(before, t1, after),
                ToggleResult::Done => r is Consumed && after == closed_bar(before),
            },
        Overlay::Confirm(c) => after == closed_bar(before) && r == if key == Key::Char('y') {
            OverlayOutcome::Action(AppAction::Confirm(c))
        } else {
            OverlayOutcome::Consumed
        },
    }
}

/// What the key bar decided, before it is applied to the state.
enum Step {
    Keep(OverlayOutcome),
    Close(OverlayOutcome),
    Sync,
}

/// Lets the open key bar handle a key.
pub fn handle_overlay_key(key: Key, core: &mut Core) -> (r: OverlayOutcome)
    requires
        old(core).filter.wf(),
        overlay_wf(old(core).overlay),
    ensures
        final(core).filter.wf(),
        overlay_wf(final(core).overlay),
        overlay_key_ok(*old(core), key, *final(core), r),
{
    let step = match &mut core.overlay {
        Overlay::Closed => Step::Keep(OverlayOutcome::NotConsumed),
        Overlay::Selector(sel) => {
            if sel.items.len() == 0 && (key == Key::Enter || key == Key::Char(' ')) {
                Step::Keep(OverlayOutcome::Consumed)
            } else {
                match sel.handle_key(key) {
                    SelectorResult::Continue => Step::Keep(OverlayOutcome::Consumed),
                    SelectorResult::Cancelled => Step::Close(OverlayOutcome::Consumed),
                    SelectorResult::Selected(a) => Step::Close(OverlayOutcome::Action(a)),
                }
            }
        },
        Overlay::ToggleSelector(sel) => match sel.handle_key(key) {
            ToggleResult::Continue => Step::Keep(OverlayOutcome::Consumed),
            ToggleResult::Toggled => Step::Sync,
            ToggleResult::Done => Step::Close(OverlayOutcome::Consumed),
        },
        Overlay::Confirm(c) => {
            if key == Key::Char('y') {
                Step::Close(OverlayOutcome::Action(AppAction::Confirm(*c)))
            } else {
                Step::Close(OverlayOutcome::Consumed)
            }
        },
    };
    match step {
        Step::Keep(o) => o,
        Step::Close(o) => {
            core.overlay = Overlay::Closed;
            core.notification = None;
            o
        },
        Step::Sync => {
            sync_keybar_to_filter(core);
            OverlayOutcome::Consumed
        },
    }
}

} // verus!
