//! Keys of the epic detail page.

use vstd::prelude::*;
use vstd::string::*;

use super::issue_detail::on_current;
use super::issue_list::{
    ai_selector_ok, build_ai_selector, build_status_selector, single, status_selector_ok,
};
use crate::action::{action_views, ActionView, AppAction};
use crate::bd::opt_view;
use crate::ai::implement::manager::ImplManager;
use crate::core_state::view::{ConfirmAction, Screen};
use crate::core_state::{parent_epic_spec, Core};
use crate::selector::Key;

verus! {

/// The child under the cursor of the epic page.
pub open spec fn selected_child_spec(core: Core) -> Option<Seq<char>> {
    match core.view {
        Screen::EpicDetail { children, child_selected, .. } => if child_selected
            < children@.len() {
            Some(children@[child_selected as int].id@)
        } else {
            None
        },
        _ => None,
    }
}

/// The id of the child under the cursor of the epic page.
pub fn selected_child_id(core: &Core) -> (r: Option<String>)
    ensures
        opt_view(r) == selected_child_spec(*core),
{
    match &core.view {
        Screen::EpicDetail { children, child_selected, .. } => {
            if *child_selected < children.len() {
                Some(children[*child_selected].id.clone())
            } else {
                None
            }
        },
        _ => None,
    }
}

/// The issue an edit on the epic page applies to: the epic, else the current issue.
pub open spec fn epic_edit_target_spec(core: Core) -> Option<Seq<char>> {
    match core.view {
        Screen::EpicDetail { epic_id, .. } => Some(epic_id@),
        _ => core.current_issue_id_spec(),
    }
}

/// The issue an edit on the epic page applies to.
pub fn epic_id_for_edit(core: &Core) -> (r: Option<String>)
    ensures
        opt_view(r) == epic_edit_target_spec(*core),
{
    match &core.view {
        Screen::EpicDetail { epic_id, .. } => Some(epic_id.clone()),
        _ => core.current_issue_id(),
    }
}

/// Every child of the epic page is closed (and there is at least one).
pub open spec fn children_all_closed(core: Core) -> bool {
    match core.view {
        Screen::EpicDetail { children, .. } => children@.len() > 0 && forall|k: int|
            0 <= k < children@.len() ==> (#[trigger] children@[k]).status@ == "closed"@,
        _ => false,
    }
}

/// What a key does on the epic detail page.
pub open spec fn epic_key_ok(core: Core, key: Key, r: Seq<AppAction>) -> bool {
    let id = core.current_issue_id_spec();
    match key {
        Key::Esc => action_views(r) == seq![ActionView::Back],
        Key::Down | Key::Char('j') => action_views(r) == seq![ActionView::Next],
        Key::Up | Key::Char('k') => action_views(r) == seq![ActionView::Previous],
        Key::Enter => action_views(r) == on_current(
            selected_child_spec(core),
            |i: Seq<char>| ActionView::OpenChildDetail(i),
        ),
        Key::Char('y') => action_views(r) == on_current(id, |i: Seq<char>| ActionView::CopyId(i)),
        Key::Char('e') => action_views(r) == on_current(
            epic_edit_target_spec(core),
            |i: Seq<char>| ActionView::EditDescription(i),
        ),
        Key::Char('a') => match id {
            Some(i) => r.len() == 1 && (r[0] matches AppAction::OpenSelector(d) && ai_selector_ok(
                d,
                i,
                parent_epic_spec(core.view_stack@),
            )),
            None => r.len() == 0,
        },
        Key::Char('m') => action_views(r) == if children_all_closed(core) {
            seq![ActionView::OpenConfirm(ConfirmAction::MergeEpic)]
        } else {
            Seq::empty()
        },
        Key::Char('s') => match id {
            Some(i) => r.len() == 1 && (r[0] matches AppAction::OpenSelector(d)
                && status_selector_ok(d, i)),
            None => r.len() == 0,
        },
        Key::Char('p') => action_views(r) == on_current(
            id,
            |i: Seq<char>| ActionView::CopyWorktreePath(i),
        ),
        Key::Char('c') => action_views(r) == on_current(
            id,
            |i: Seq<char>| ActionView::CopyResumeCommand(i),
        ),
        Key::Char('q') => action_views(r) == seq![ActionView::QuickCreate],
        _ => r.len() == 0,
    }
}

/// The actions a key stands for on the epic detail page.
pub fn handle_key(key: Key, core: &Core) -> (r: Vec<AppAction>)
    ensures
        epic_key_ok(*core, key, r@),
{
    match key {
        Key::Esc => single(Some(AppAction::Back)),
        Key::Down | Key::Char('j') => single(Some(AppAction::Next)),
        Key::Up | Key::Char('k') => single(Some(AppAction::Previous)),
        Key::Enter => match selected_child_id(core) {
            Some(id) => single(Some(AppAction::OpenChildDetail(id))),
            None => single(None),
        },
        Key::Char('y') => match core.current_issue_id() {
            Some(id) => single(Some(AppAction::CopyId(id))),
            None => single(None),
        },
        Key::Char('e') => match epic_id_for_edit(core) {
            Some(id) => single(Some(AppAction::EditDescription(id))),
            None => single(None),
        },
        Key::Char('a') => match build_ai_selector(core) {
            Some(def) => single(Some(AppAction::OpenSelector(def))),
            None => single(None),
        },
        Key::Char('m') => {
            if core.all_children_closed() {
                single(Some(AppAction::OpenConfirm(ConfirmAction::MergeEpic)))
            } else {
                single(None)
            }
        },
        Key::Char('s') => match build_status_selector(core) {
            Some(def) => single(Some(AppAction::OpenSelector(def))),
            None => single(None),
        },
        Key::Char('p') => match core.current_issue_id() {
            Some(id) => single(Some(AppAction::CopyWorktreePath(id))),
            None => single(None),
        },
        Key::Char('c') => match core.current_issue_id() {
            Some(id) => single(Some(AppAction::CopyResumeCommand(id))),
            None => single(None),
        },
        Key::Char('q') => single(Some(AppAction::QuickCreate)),
        _ => single(None),
    }
}

/// The key and the word of each hint, taken by their views.
pub open spec fn hint_views(v: Seq<(&str, &str)>) -> Seq<(Seq<char>, Seq<char>)> {
    v.map_values(|p: (&str, &str)| (p.0@, p.1@))
}

/// The key hints of the epic page: the fixed keys, then `c` when the epic's implementation
/// has a session to continue, then `m` when every child is closed.
pub open spec fn epic_hints_spec(can_continue: bool, all_closed: bool) -> Seq<(Seq<char>, Seq<char>)> {
    let base = seq![
        ("Enter"@, "open issue"@),
        ("Esc"@, "back"@),
        ("q"@, "create"@),
        ("y"@, "copy id"@),
        ("e"@, "edit"@),
        ("E"@, "estimate"@),
        ("a"@, "ai"@),
        ("s"@, "status"@),
        ("w"@, "session"@),
    ];
    let with_continue = if can_continue {
        base.push(("c"@, "continue"@))
    } else {
        base
    };
    if all_closed {
        with_continue.push(("m"@, "merge to master"@))
    } else {
        with_continue
    }
}

/// The implementation job of the issue the page is about has a session to continue.
pub open spec fn has_session(core: Core, impl_manager: ImplManager) -> bool {
    match core.current_issue_id_spec() {
        Some(id) => impl_manager.jobs().contains_key(id) && impl_manager.jobs()[id].session_id is Some,
        None => false,
    }
}

/// The key hints shown on the epic page.
pub fn epic_key_hints(core: &Core, impl_manager: &ImplManager) -> (r: Vec<(&'static str, &'static str)>)
    requires
        impl_manager.wf(),
    ensures
        hint_views(r@) == epic_hints_spec(
            has_session(*core, *impl_manager),
            match core.view {
                Screen::EpicDetail { children, .. } => children@.len() > 0 && forall|k: int|
                    0 <= k < children@.len() ==> (#[trigger] children@[k]).status@ == "closed"@,
                _ => false,
            },
        ),
{
    let mut keys: Vec<(&'static str, &'static str)> = vec![
        ("Enter", "open issue"),
        ("Esc", "back"),
        ("q", "create"),
        ("y", "copy id"),
        ("e", "edit"),
        ("E", "estimate"),
        ("a", "ai"),
        ("s", "status"),
        ("w", "session"),
    ];
    let ghost base = hint_views(keys@);
    assert(base =~= seq![
        ("Enter"@, "open issue"@),
        ("Esc"@, "back"@),
        ("q"@, "create"@),
        ("y"@, "copy id"@),
        ("e"@, "edit"@),
        ("E"@, "estimate"@),
        ("a"@, "ai"@),
        ("s"@, "status"@),
        ("w"@, "session"@),
    ]);
    let mut can_continue = false;
    match core.current_issue_id() {
        Some(issue_id) => {
            match impl_manager.get_job(issue_id.as_str()) {
                Some(job) => {
                    if job.session_id.is_some() {
                        can_continue = true;
                    }
                },
                None => {},
            }
        },
        None => {},
    }
    if can_continue {
        let ghost before = keys@;
        keys.push(("c", "continue"));
        assert(hint_views(keys@) =~= hint_views(before).push(("c"@, "continue"@)));
    }
    let closed = core.all_children_closed();
    if closed {
        let ghost before = keys@;
        keys.push(("m", "merge to master"));
        assert(hint_views(keys@) =~= hint_views(before).push(("m"@, "merge to master"@)));
    }
    keys
}

} // verus!
