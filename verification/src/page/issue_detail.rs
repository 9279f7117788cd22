//! Keys of the issue detail page.

use vstd::prelude::*;
use vstd::string::*;

use super::issue_list::{
    ai_selector_ok, build_ai_selector, build_status_selector, single, status_selector_ok,
};
use crate::action::{action_views, ActionView, AppAction};
use crate::bd::opt_view;
use crate::core_state::view::{ConfirmAction, Screen};
use crate::core_state::{parent_epic_spec, Core};
use crate::selector::Key;

verus! {

/// The issue an edit applies to: the open issue, else the current one.
pub open spec fn edit_target_spec(core: Core) -> Option<Seq<char>> {
    match core.view {
        Screen::IssueDetail { issue_id, .. } => Some(issue_id@),
        _ => core.current_issue_id_spec(),
    }
}

/// The issue an edit applies to.
pub fn current_issue_id_for_edit(core: &Core) -> (r: Option<String>)
    ensures
        opt_view(r) == edit_target_spec(*core),
{
    match &core.view {
        Screen::IssueDetail { issue_id, .. } => Some(issue_id.clone()),
        _ => core.current_issue_id(),
    }
}

/// The action on the current issue, or none.
pub open spec fn on_current(id: Option<Seq<char>>, f: spec_fn(Seq<char>) -> ActionView) -> Seq<
    ActionView,
> {
    match id {
        Some(i) => seq![f(i)],
        None => Seq::empty(),
    }
}

/// What a key does on the issue detail page.
pub open spec fn detail_key_ok(core: Core, key: Key, r: Seq<AppAction>) -> bool {
    let id = core.current_issue_id_spec();
    match key {
        Key::Esc => action_views(r) == seq![ActionView::Back],
        Key::Down => action_views(r) == seq![ActionView::Next],
        Key::Up => action_views(r) == seq![ActionView::Previous],
        Key::Char('y') => action_views(r) == on_current(id, |i: Seq<char>| ActionView::CopyId(i)),
        Key::Char('e') => action_views(r) == on_current(
            edit_target_spec(core),
            |i: Seq<char>| ActionView::EditDescription(i),
        ),
        Key::Char('m') => action_views(r) == seq![ActionView::OpenConfirm(ConfirmAction::Merge)],
        Key::Char('d') => action_views(r) == seq![ActionView::OpenConfirm(ConfirmAction::Discard)],
        Key::Char('a') => match id {
            Some(i) => r.len() == 1 && (r[0] matches AppAction::OpenSelector(d) && ai_selector_ok(
                d,
                i,
                parent_epic_spec(core.view_stack@),
            )),
            None => r.len() == 0,
        },
        Key::Char('s') => match id {
            Some(i) => r.len() == 1 && (r[0] matches AppAction::OpenSelector(d)
                && status_selector_ok(d, i)),
            None => r.len() == 0,
        },
        Key::Char('p') => action_views(r) == on_current(
            id,
            |i: Seq<char>| ActionView::CopyWorktreePath(i),
        ),
        Key::Char('c') => action_views(r) == on_current(
            id,
            |i: Seq<char>| ActionView::CopyResumeCommand(i),
        ),
        Key::Char('w') => action_views(r) == on_current(
            id,
            |i: Seq<char>| ActionView::StartSession(i),
        ),
        Key::Char('q') => action_views(r) == seq![ActionView::QuickCreate],
        Key::Char('j') => action_views(r) == seq![ActionView::NavigateIssue { forward: true }],
        Key::Char('k') => action_views(r) == seq![ActionView::NavigateIssue { forward: false }],
        _ => r.len() == 0,
    }
}

/// The actions a key stands for on the issue detail page.
pub fn handle_key(key: Key, core: &Core) -> (r: Vec<AppAction>)
    ensures
        detail_key_ok(*core, key, r@),
{
    match key {
        Key::Esc => single(Some(AppAction::Back)),
        Key::Down => single(Some(AppAction::Next)),
        Key::Up => single(Some(AppAction::Previous)),
        Key::Char('y') => match core.current_issue_id() {
            Some(id) => single(Some(AppAction::CopyId(id))),
            None => single(None),
        },
        Key::Char('e') => match current_issue_id_for_edit(core) {
            Some(id) => single(Some(AppAction::EditDescription(id))),
            None => single(None),
        },
        Key::Char('m') => single(Some(AppAction::OpenConfirm(ConfirmAction::Merge))),
        Key::Char('d') => single(Some(AppAction::OpenConfirm(ConfirmAction::Discard))),
        Key::Char('a') => match build_ai_selector(core) {
            Some(def) => single(Some(AppAction::OpenSelector(def))),
            None => single(None),
        },
        Key::Char('s') => match build_status_selector(core) {
            Some(def) => single(Some(AppAction::OpenSelector(def))),
            None => single(None),
        },
        Key::Char('p') => match core.current_issue_id() {
            Some(id) => single(Some(AppAction::CopyWorktreePath(id))),
            None => single(None),
        },
        Key::Char('c') => match core.current_issue_id() {
            Some(id) => single(Some(AppAction::CopyResumeCommand(id))),
            None => single(None),
        },
        Key::Char('w') => match core.current_issue_id() {
            Some(id) => single(Some(AppAction::StartSession(id))),
            None => single(None),
        },
        Key::Char('q') => single(Some(AppAction::QuickCreate)),
        Key::Char('j') => single(Some(AppAction::NavigateIssue { forward: true })),
        Key::Char('k') => single(Some(AppAction::NavigateIssue { forward: false })),
        _ => single(None),
    }
}

} // verus!
