//! The changes an action makes to the state alone, without asking `bd`, git or the agent.

use vstd::prelude::*;
use vstd::string::*;

use crate::action::navigate::back;
use crate::action::SelectorDef;
use crate::bd::opt_view;
use crate::core_state::overlay::Overlay;
use crate::core_state::view::{ConfirmAction, Screen};
use crate::core_state::Core;
use crate::text::to_owned_string;

verus! {

/// The question a confirmation asks.
pub open spec fn confirm_text(c: ConfirmAction) -> Seq<char> {
    match c {
        ConfirmAction::Merge => "Merge? (y/n)"@,
        ConfirmAction::Discard => "Discard? (y/n)"@,
        ConfirmAction::MergeEpic => "Merge epic to master? (y/n)"@,
        ConfirmAction::Retry => "Retry? (y/n)"@,
    }
}

/// Opens the key bar on the selector that `def` describes.
pub fn open_selector(core: &mut Core, def: SelectorDef)
    ensures
        match final(core).overlay {
            Overlay::Selector(sel) => sel.wf() && sel.items@ == def.items@ && sel.cursor == (
            if def.initial_cursor + 1 <= def.items@.len() {
                def.initial_cursor
            } else if def.items@.len() == 0 {
                0
            } else {
                (def.items@.len() - 1) as usize
            }),
            _ => false,
        },
        final(core).issue_store == old(core).issue_store,
        final(core).view == old(core).view,
        final(core).view_stack == old(core).view_stack,
        final(core).filter == old(core).filter,
        final(core).notification == old(core).notification,
{
    core.overlay = Overlay::open_selector(def);
}

/// Asks for a confirmation: the key bar waits for y/n and the question is shown.
pub fn open_confirm(core: &mut Core, confirm: ConfirmAction)
    ensures
        final(core).overlay == Overlay::Confirm(confirm),
        opt_view(final(core).notification) == Some(confirm_text(confirm)),
        final(core).issue_store == old(core).issue_store,
        final(core).view == old(core).view,
        final(core).view_stack == old(core).view_stack,
        final(core).filter == old(core).filter,
{
    core.notification = Some(to_owned_string(confirm.confirm_message()));
    core.overlay = Overlay::Confirm(confirm);
}

/// Closes the key bar and clears the notification line.
pub fn close_key_bar(core: &mut Core)
    ensures
        final(core).overlay is Closed,
        final(core).notification is None,
        final(core).issue_store == old(core).issue_store,
        final(core).view == old(core).view,
        final(core).view_stack == old(core).view_stack,
        final(core).filter == old(core).filter,
{
    core.overlay = Overlay::Closed;
    core.notification = None;
}

/// Chooses no status and no label and puts the list cursor on the first row.
pub fn clear_filter(core: &mut Core)
    ensures
        final(core).filter.wf(),
        final(core).filter.statuses@.len() == 0,
        final(core).filter.labels@.len() == 0,
        final(core).filter.available_labels@ == old(core).filter.available_labels@,
        final(core).issue_store.selected == 0,
        final(core).issue_store.issues == old(core).issue_store.issues,
        final(core).view == old(core).view,
        final(core).view_stack == old(core).view_stack,
        final(core).overlay == old(core).overlay,
        final(core).notification == old(core).notification,
{
    core.filter.clear();
    core.issue_store.selected = 0;
}

/// Leaves an issue page for the page below it (after its issue was merged or closed); on
/// any other page nothing changes.
pub fn leave_issue_detail(core: &mut Core)
    ensures
        old(core).view is IssueDetail && old(core).view_stack@.len() > 0 ==> final(core).view
            == old(core).view_stack@.last() && final(core).view_stack@
            == old(core).view_stack@.drop_last(),
        !(old(core).view is IssueDetail && old(core).view_stack@.len() > 0) ==> final(core).view
            == old(core).view && final(core).view_stack@ == old(core).view_stack@,
        final(core).issue_store == old(core).issue_store,
        final(core).overlay == old(core).overlay,
        final(core).filter == old(core).filter,
        final(core).notification == old(core).notification,
{
    if let Screen::IssueDetail { .. } = &core.view {
        back(core);
    }
}

/// After the issue list was reloaded with `len` issues: a cursor past the end moves to the
/// last row (to 0 when the list is empty).
pub fn clamp_selection(core: &mut Core)
    ensures
        final(core).issue_store.selected == (if old(core).issue_store.selected
            >= old(core).issue_store.issues@.len() {
            if old(core).issue_store.issues@.len() == 0 {
                0
            } else {
                old(core).issue_store.issues@.len() - 1
            }
        } else {
            old(core).issue_store.selected as int
        }),
        final(core).issue_store.issues == old(core).issue_store.issues,
        final(core).view == old(core).view,
        final(core).view_stack == old(core).view_stack,
        final(core).overlay == old(core).overlay,
        final(core).filter == old(core).filter,
        final(core).notification == old(core).notification,
{
    let len = core.issue_store.issues.len();
    if core.issue_store.selected >= len {
        core.issue_store.selected = if len == 0 {
            0
        } else {
            len - 1
        };
    }
}

} // verus!
