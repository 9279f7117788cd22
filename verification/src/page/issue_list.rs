//! Keys of the issue list, and the selectors that several pages open.

use vstd::prelude::*;
use vstd::string::*;

use crate::action::{action_views, item_is, ActionView, AppAction, SelectorDef, SelectorItem};
use crate::core_state::parent_epic_spec;
use crate::core_state::Core;
use crate::selector::Key;
use crate::text::{decimal, digit};

verus! {

/// A selector item.
fn item(shortcut: &str, label: &str, action: AppAction) -> (r: SelectorItem)
    ensures
        r.shortcut@ == shortcut@,
        r.label@ == label@,
        r.action == action,
{
    SelectorItem { shortcut: String::from_str(shortcut), label: String::from_str(label), action }
}

/// The AI selector for issue `id`: enrich, implement (on the epic's branch when there is
/// one) and split.
pub open spec fn ai_selector_ok(d: SelectorDef, id: Seq<char>, epic: Option<Seq<char>>) -> bool {
    &&& d.initial_cursor == 0
    &&& d.items@.len() == 3
    &&& item_is(d.items@[0], "e"@, "enrich"@, ActionView::StartEnrich(id))
    &&& item_is(
        d.items@[1],
        "i"@,
        "implement"@,
        ActionView::StartImplement { issue_id: id, epic_id: epic },
    )
    &&& item_is(d.items@[2], "s"@, "split"@, ActionView::StartSplit(id))
}

/// The AI selector for the issue of the current page, if there is one.
pub fn build_ai_selector(core: &Core) -> (r: Option<SelectorDef>)
    ensures
        match core.current_issue_id_spec() {
            None => r is None,
            Some(id) => r matches Some(d) && ai_selector_ok(
                d,
                id,
                parent_epic_spec(core.view_stack@),
            ),
        },
{
    let issue_id = match core.current_issue_id() {
        Some(id) => id,
        None => return None,
    };
    let epic_id = core.find_parent_epic_id();
    let mut items: Vec<SelectorItem> = Vec::new();
    items.push(item("e", "enrich", AppAction::StartEnrich(issue_id.clone())));
    items.push(
        item(
            "i",
            "implement",
            AppAction::StartImplement { issue_id: issue_id.clone(), epic_id },
        ),
    );
    items.push(item("s", "split", AppAction::StartSplit(issue_id)));
    Some(SelectorDef { items, initial_cursor: 0 })
}

/// The status selector for issue `id`: open, in progress, deferred, closed.
pub open spec fn status_selector_ok(d: SelectorDef, id: Seq<char>) -> bool {
    &&& d.initial_cursor == 0
    &&& d.items@.len() == 4
    &&& item_is(
        d.items@[0],
        "o"@,
        "open"@,
        ActionView::SetStatus { issue_id: id, status: "open"@ },
    )
    &&& item_is(
        d.items@[1],
        "p"@,
        "in_progress"@,
        ActionView::SetStatus { issue_id: id, status: "in_progress"@ },
    )
    &&& item_is(
        d.items@[2],
        "d"@,
        "deferred"@,
        ActionView::SetStatus { issue_id: id, status: "deferred"@ },
    )
    &&& item_is(
        d.items@[3],
        "c"@,
        "closed"@,
        ActionView::SetStatus { issue_id: id, status: "closed"@ },
    )
}

/// The status selector for the issue of the current page, if there is one.
pub fn build_status_selector(core: &Core) -> (r: Option<SelectorDef>)
    ensures
        match core.current_issue_id_spec() {
            None => r is None,
            Some(id) => r matches Some(d) && status_selector_ok(d, id),
        },
{
    let issue_id = match core.current_issue_id() {
        Some(id) => id,
        None => return None,
    };
    let mut items: Vec<SelectorItem> = Vec::new();
    items.push(
        item(
            "o",
            "open",
            AppAction::SetStatus { issue_id: issue_id.clone(), status: String::from_str("open") },
        ),
    );
    items.push(
        item(
            "p",
            "in_progress",
            AppAction::SetStatus {
                issue_id: issue_id.clone(),
                status: String::from_str("in_progress"),
            },
        ),
    );
    items.push(
        item(
            "d",
            "deferred",
            AppAction::SetStatus {
                issue_id: issue_id.clone(),
                status: String::from_str("deferred"),
            },
        ),
    );
    items.push(
        item(
            "c",
            "closed",
            AppAction::SetStatus { issue_id, status: String::from_str("closed") },
        ),
    );
    Some(SelectorDef { items, initial_cursor: 0 })
}

/// The priority selector for issue `id`: `0` to `4` set priorities P0 to P4; the cursor starts
/// on P2.
pub open spec fn priority_selector_ok(d: SelectorDef, id: Seq<char>) -> bool {
    &&& d.initial_cursor == 2
    &&& d.items@.len() == 5
    &&& forall|p: int|
        0 <= p < 5 ==> item_is(
            #[trigger] d.items@[p],
            decimal(p as nat),
            "P"@ + decimal(p as nat),
            ActionView::SetPriority { issue_id: id, priority: p as u8 },
        )
}

/// The priority selector for the issue of the current page, if there is one.
pub fn build_priority_selector(core: &Core) -> (r: Option<SelectorDef>)
    ensures
        match core.current_issue_id_spec() {
            None => r is None,
            Some(id) => r matches Some(d) && priority_selector_ok(d, id),
        },
{
    let issue_id = match core.current_issue_id() {
        Some(id) => id,
        None => return None,
    };
    let mut items: Vec<SelectorItem> = Vec::new();
    let mut p: u8 = 0;
    while p < 5
        invariant
            p <= 5,
            items@.len() == p,
            forall|q: int|
                0 <= q < p ==> item_is(
                    #[trigger] items@[q],
                    decimal(q as nat),
                    "P"@ + decimal(q as nat),
                    ActionView::SetPriority { issue_id: issue_id@, priority: q as u8 },
                ),
        decreases 5 - p,
    {
        let mut shortcut = String::new();
        crate::text::push_char(&mut shortcut, digit(p as usize));
        let mut label = String::from_str("P");
        crate::text::push_char(&mut label, digit(p as usize));
        assert(decimal(p as nat) == seq![crate::text::digit_char(p as int)]);
        assert(shortcut@ =~= decimal(p as nat));
        assert(label@ =~= "P"@ + decimal(p as nat));
        items.push(
            SelectorItem {
                shortcut,
                label,
                action: AppAction::SetPriority { issue_id: issue_id.clone(), priority: p },
            },
        );
        p = p + 1;
    }
    Some(SelectorDef { items, initial_cursor: 2 })
}

/// The filter menu: edit the status filter, edit the label filter, clear the filter.
pub open spec fn filter_menu_ok(d: SelectorDef) -> bool {
    &&& d.initial_cursor == 0
    &&& d.items@.len() == 3
    &&& item_is(d.items@[0], "s"@, "status"@, ActionView::OpenFilterStatusToggle)
    &&& item_is(d.items@[1], "l"@, "label"@, ActionView::OpenFilterLabelToggle)
    &&& item_is(d.items@[2], "c"@, "clear"@, ActionView::ClearFilter)
}

/// The filter menu.
pub fn build_filter_menu_selector() -> (d: SelectorDef)
    ensures
        filter_menu_ok(d),
{
    let mut items: Vec<SelectorItem> = Vec::new();
    items.push(item("s", "status", AppAction::OpenFilterStatusToggle));
    items.push(item("l", "label", AppAction::OpenFilterLabelToggle));
    items.push(item("c", "clear", AppAction::ClearFilter));
    SelectorDef { items, initial_cursor: 0 }
}

/// What a key does on the issue list.
pub open spec fn list_key_ok(core: Core, key: Key, r: Seq<AppAction>) -> bool {
    let sel = core.issue_store.selected;
    let shown = core.displayed();
    let id = core.current_issue_id_spec();
    match key {
        Key::Down | Key::Char('j') => action_views(r) == seq![ActionView::Next],
        Key::Up | Key::Char('k') => action_views(r) == seq![ActionView::Previous],
        Key::Enter => action_views(r) == if sel < shown.len() {
            seq![ActionView::OpenDetail(shown[sel as int].id)]
        } else {
            Seq::empty()
        },
        Key::Char('y') => action_views(r) == match id {
            Some(i) => seq![ActionView::CopyId(i)],
            None => Seq::empty(),
        },
        Key::Char('a') => match id {
            Some(i) => r.len() == 1 && (r[0] matches AppAction::OpenSelector(d) && ai_selector_ok(
                d,
                i,
                parent_epic_spec(core.view_stack@),
            )),
            None => r.len() == 0,
        },
        Key::Char('s') => match id {
            Some(i) => r.len() == 1 && (r[0] matches AppAction::OpenSelector(d)
                && status_selector_ok(d, i)),
            None => r.len() == 0,
        },
        Key::Char('p') => match id {
            Some(i) => r.len() == 1 && (r[0] matches AppAction::OpenSelector(d)
                && priority_selector_ok(d, i)),
            None => r.len() == 0,
        },
        Key::Char('E') => action_views(r) == if sel < shown.len() {
            seq![
                ActionView::OpenEstimateInput {
                    issue_id: shown[sel as int].id,
                    current: shown[sel as int].estimate,
                },
            ]
        } else {
            Seq::empty()
        },
        Key::Char('f') => r.len() == 1 && (r[0] matches AppAction::OpenSelector(d)
            && filter_menu_ok(d)),
        Key::Char('q') => action_views(r) == seq![ActionView::QuickCreate],
        _ => r.len() == 0,
    }
}

/// One action, or none.
pub(crate) fn single(a: Option<AppAction>) -> (r: Vec<AppAction>)
    ensures
        match a {
            Some(x) => r@ == seq![x] && action_views(r@) == seq![x@],
            None => r@.len() == 0 && action_views(r@) == Seq::<ActionView>::empty(),
        },
{
    let mut r: Vec<AppAction> = Vec::new();
    if let Some(x) = a {
        r.push(x);
        assert(r@ =~= seq![x]);
        assert(action_views(r@) =~= seq![x@]);
    } else {
        assert(action_views(r@) =~= Seq::<ActionView>::empty());
    }
    r
}

/// The actions a key stands for on the issue list.
pub fn handle_key(key: Key, core: &Core) -> (r: Vec<AppAction>)
    ensures
        list_key_ok(*core, key, r@),
{
    match key {
        Key::Down | Key::Char('j') => single(Some(AppAction::Next)),
        Key::Up | Key::Char('k') => single(Some(AppAction::Previous)),
        Key::Enter => match core.issue_store.selected_issue(&core.filter) {
            Some(issue) => single(Some(AppAction::OpenDetail(issue.id.clone()))),
            None => single(None),
        },
        Key::Char('y') => match core.current_issue_id() {
            Some(id) => single(Some(AppAction::CopyId(id))),
            None => single(None),
        },
        Key::Char('a') => match build_ai_selector(core) {
            Some(def) => single(Some(AppAction::OpenSelector(def))),
            None => single(None),
        },
        Key::Char('s') => match build_status_selector(core) {
            Some(def) => single(Some(AppAction::OpenSelector(def))),
            None => single(None),
        },
        Key::Char('p') => match build_priority_selector(core) {
            Some(def) => single(Some(AppAction::OpenSelector(def))),
            None => single(None),
        },
        Key::Char('E') => match core.issue_store.selected_issue(&core.filter) {
            Some(issue) => single(
                Some(
                    AppAction::OpenEstimateInput {
                        issue_id: issue.id.clone(),
                        current: issue.estimate,
                    },
                ),
            ),
            None => single(None),
        },
        Key::Char('f') => single(Some(AppAction::OpenSelector(build_filter_menu_selector()))),
        Key::Char('q') => single(Some(AppAction::QuickCreate)),
        _ => single(None),
    }
}

} // verus!
