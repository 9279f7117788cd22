//! Moving between rows and pages. The `bd` queries that some moves need are made by the
//! caller, which hands their answers in.

use vstd::prelude::*;
use vstd::string::*;

use crate::bd::{issue_views, Issue};
use crate::core_state::view::Screen;
use crate::core_state::{index_of_id, position_of_id, Core};
use crate::selector::{cursor_left, cursor_right};
use crate::text::str_eq;

verus! {

/// The page after one step down: the next child on an epic page, one line further on an issue
/// page.
pub open spec fn screen_next(s: Screen) -> Screen {
    match s {
        Screen::EpicDetail { epic_id, children, ready_ids, child_selected, scroll_offset } =>
            Screen::EpicDetail {
            epic_id,
            children,
            ready_ids,
            child_selected: cursor_right(child_selected, children@.len()),
            scroll_offset,
        },
        Screen::IssueDetail { issue_id, scroll_offset, diff } => Screen::IssueDetail {
            issue_id,
            scroll_offset: if scroll_offset < u16::MAX {
                (scroll_offset + 1) as u16
            } else {
                scroll_offset
            },
            diff,
        },
        Screen::IssueList => Screen::IssueList,
    }
}

/// The page after one step up.
pub open spec fn screen_previous(s: Screen) -> Screen {
    match s {
        Screen::EpicDetail { epic_id, children, ready_ids, child_selected, scroll_offset } =>
            Screen::EpicDetail {
            epic_id,
            children,
            ready_ids,
            child_selected: cursor_left(child_selected),
            scroll_offset,
        },
        Screen::IssueDetail { issue_id, scroll_offset, diff } => Screen::IssueDetail {
            issue_id,
            scroll_offset: if scroll_offset > 0 {
                (scroll_offset - 1) as u16
            } else {
                0
            },
            diff,
        },
        Screen::IssueList => Screen::IssueList,
    }
}

/// The page for an issue: its epic page when it has children, else its issue page.
pub open spec fn detail_screen(issue_id: String, children: Vec<Issue>, ready_ids: Vec<String>) -> Screen {
    if children@.len() == 0 {
        Screen::IssueDetail { issue_id, scroll_offset: 0, diff: None }
    } else {
        Screen::EpicDetail { epic_id: issue_id, children, ready_ids, child_selected: 0, scroll_offset: 0 }
    }
}

/// One step down among `n` rows from `k`: the next row, but not past the last one.
pub open spec fn next_index(k: int, n: int) -> int {
    if k + 1 < n {
        k + 1
    } else {
        n - 1
    }
}

/// On an epic page with children, the child selected after one step down is `next_index` of
/// the one before, and on a child.
pub open spec fn next_child_exact(before: Screen, after: Screen) -> bool {
    match before {
        Screen::EpicDetail { children, child_selected, .. } => children@.len() > 0 ==> match after {
            Screen::EpicDetail { child_selected: c, .. } => c < children@.len() && c == next_index(
                child_selected as int,
                children@.len() as int,
            ),
            _ => false,
        },
        _ => true,
    }
}

/// Takes the current page out of `core`, leaving the issue list in its place.
fn take_view(core: &mut Core) -> (s: Screen)
    ensures
        s == old(core).view,
        final(core).view is IssueList,
        final(core).issue_store == old(core).issue_store,
        final(core).view_stack == old(core).view_stack,
        final(core).overlay == old(core).overlay,
        final(core).filter == old(core).filter,
        final(core).notification == old(core).notification,
{
    let mut s = Screen::IssueList;
    std::mem::swap(&mut s, &mut core.view);
    s
}

/// One step down: the next row of the list (among those displayed), the next child, or one
/// line further.
pub fn next(core: &mut Core)
    ensures
        old(core).view is IssueList ==> final(core).issue_store.selected == cursor_right(
            old(core).issue_store.selected,
            old(core).displayed().len(),
        ) && final(core).view == old(core).view,
        !(old(core).view is IssueList) ==> final(core).view == screen_next(old(core).view)
            && final(core).issue_store.selected == old(core).issue_store.selected,
        old(core).view is IssueList && old(core).displayed().len() > 0 ==> {
            &&& final(core).issue_store.selected < old(core).displayed().len()
            &&& final(core).issue_store.selected == next_index(
                old(core).issue_store.selected as int,
                old(core).displayed().len() as int,
            )
        },
        next_child_exact(old(core).view, final(core).view),
        final(core).issue_store.issues == old(core).issue_store.issues,
        final(core).view_stack == old(core).view_stack,
        final(core).overlay == old(core).overlay,
        final(core).filter == old(core).filter,
        final(core).notification == old(core).notification,
{
    let v = take_view(core);
    match v {
        Screen::IssueList => {
            let shown = core.issue_store.displayed_issues(&core.filter);
            let len = shown.len();
            proof {
                assert(len == old(core).displayed().len());
            }
            let sel = core.issue_store.selected;
            if len > 0 {
                core.issue_store.selected = if sel < len - 1 {
                    sel + 1
                } else {
                    len - 1
                };
            }
            core.view = Screen::IssueList;
        },
        Screen::EpicDetail { epic_id, children, ready_ids, child_selected, scroll_offset } => {
            let n = children.len();
            let cs = if n == 0 {
                child_selected
            } else if child_selected < n - 1 {
                child_selected + 1
            } else {
                n - 1
            };
            core.view = Screen::EpicDetail { epic_id, children, ready_ids, child_selected: cs, scroll_offset };
        },
        Screen::IssueDetail { issue_id, scroll_offset, diff } => {
            let so = if scroll_offset < u16::MAX {
                scroll_offset + 1
            } else {
                scroll_offset
            };
            core.view = Screen::IssueDetail { issue_id, scroll_offset: so, diff };
        },
    }
}

/// One step up: the previous row of the list, the previous child, or one line back.
pub fn previous(core: &mut Core)
    ensures
        old(core).view is IssueList ==> final(core).issue_store.selected == (if old(core).displayed().len() > 0 {
            cursor_left(old(core).issue_store.selected)
        } else {
            old(core).issue_store.selected
        }) && final(core).view == old(core).view,
        !(old(core).view is IssueList) ==> final(core).view == screen_previous(old(core).view)
            && final(core).issue_store.selected == old(core).issue_store.selected,
        final(core).issue_store.issues == old(core).issue_store.issues,
        final(core).view_stack == old(core).view_stack,
        final(core).overlay == old(core).overlay,
        final(core).filter == old(core).filter,
        final(core).notification == old(core).notification,
{
    let v = take_view(core);
    match v {
        Screen::IssueList => {
            let len = core.issue_store.displayed_issues(&core.filter).len();
            let sel = core.issue_store.selected;
            if len > 0 && sel > 0 {
                core.issue_store.selected = sel - 1;
            }
            core.view = Screen::IssueList;
        },
        Screen::EpicDetail { epic_id, children, ready_ids, child_selected, scroll_offset } => {
            let cs = if child_selected > 0 {
                child_selected - 1
            } else {
                0
            };
            core.view = Screen::EpicDetail { epic_id, children, ready_ids, child_selected: cs, scroll_offset };
        },
        Screen::IssueDetail { issue_id, scroll_offset, diff } => {
            let so = if scroll_offset > 0 {
                scroll_offset - 1
            } else {
                0
            };
            core.view = Screen::IssueDetail { issue_id, scroll_offset: so, diff };
        },
    }
}

/// Back to the page below on the stack (nothing happens when the stack is empty).
pub fn back(core: &mut Core)
    ensures
        old(core).view_stack@.len() > 0 ==> final(core).view == old(core).view_stack@.last()
            && final(core).view_stack@ == old(core).view_stack@.drop_last(),
        old(core).view_stack@.len() == 0 ==> final(core).view == old(core).view
            && final(core).view_stack@ == old(core).view_stack@,
        final(core).issue_store == old(core).issue_store,
        final(core).overlay == old(core).overlay,
        final(core).filter == old(core).filter,
        final(core).notification == old(core).notification,
{
    match core.view_stack.pop() {
        Some(prev) => {
            core.view = prev;
        },
        None => {},
    }
}

/// Opens the page of an issue on top of the current one. `children` and `ready_ids` are what
/// `bd` reports for the issue.
pub fn push_view(core: &mut Core, issue_id: String, children: Vec<Issue>, ready_ids: Vec<String>)
    ensures
        final(core).view_stack@ == old(core).view_stack@.push(old(core).view),
        final(core).view == detail_screen(issue_id, children, ready_ids),
        final(core).issue_store == old(core).issue_store,
        final(core).overlay == old(core).overlay,
        final(core).filter == old(core).filter,
        final(core).notification == old(core).notification,
{
    let old_view = take_view(core);
    core.view_stack.push(old_view);
    show_issue(core, issue_id, children, ready_ids);
}

/// Replaces the current page by the page of an issue.
pub fn show_issue(core: &mut Core, issue_id: String, children: Vec<Issue>, ready_ids: Vec<String>)
    ensures
        final(core).view == detail_screen(issue_id, children, ready_ids),
        final(core).view_stack == old(core).view_stack,
        final(core).issue_store == old(core).issue_store,
        final(core).overlay == old(core).overlay,
        final(core).filter == old(core).filter,
        final(core).notification == old(core).notification,
{
    if children.len() == 0 {
        core.view = Screen::IssueDetail { issue_id, scroll_offset: 0, diff: None };
    } else {
        core.view = Screen::EpicDetail {
            epic_id: issue_id,
            children,
            ready_ids,
            child_selected: 0,
            scroll_offset: 0,
        };
    }
}

/// On an epic page, replaces its children and ready ids by a fresh answer of `bd`
/// (the state part of reloading the children).
pub fn set_children(core: &mut Core, new_children: Vec<Issue>, new_ready: Vec<String>)
    ensures
        match old(core).view {
            Screen::EpicDetail { epic_id, children, ready_ids, child_selected, scroll_offset } =>
                final(core).view == Screen::EpicDetail {
                epic_id,
                children: new_children,
                ready_ids: new_ready,
                child_selected,
                scroll_offset,
            },
            _ => final(core).view == old(core).view,
        },
        final(core).view_stack == old(core).view_stack,
        final(core).issue_store == old(core).issue_store,
        final(core).overlay == old(core).overlay,
        final(core).filter == old(core).filter,
        final(core).notification == old(core).notification,
{
    let v = take_view(core);
    match v {
        Screen::EpicDetail { epic_id, children, ready_ids, child_selected, scroll_offset } => {
            core.view = Screen::EpicDetail {
                epic_id,
                children: new_children,
                ready_ids: new_ready,
                child_selected,
                scroll_offset,
            };
        },
        other => {
            core.view = other;
        },
    }
}

/// The list and the index within it that moving between issues on an issue page walks, and
/// the index of the current issue there: the parent epic's children when the page below is an
/// epic page, else all loaded issues. An issue not found there stands at the remembered
/// cursor.
pub open spec fn navigation_base(core: Core) -> (Seq<Issue>, int) {
    let current = match core.view {
        Screen::IssueDetail { issue_id, .. } => issue_id@,
        _ => Seq::empty(),
    };
    if core.view_stack@.len() > 0 && core.view_stack@.last() is EpicDetail {
        match core.view_stack@.last() {
            Screen::EpicDetail { children, child_selected, .. } => {
                let k = index_of_id(issue_views(children@), current);
                (children@, if k >= 0 {
                    k
                } else {
                    child_selected as int
                })
            },
            _ => (Seq::empty(), 0),
        }
    } else {
        let k = index_of_id(issue_views(core.issue_store.issues@), current);
        (core.issue_store.issues@, if k >= 0 {
            k
        } else {
            core.issue_store.selected as int
        })
    }
}

/// The index one step forward or back from `idx` in a list of `len` issues.
pub open spec fn step_index(idx: int, len: int, forward: bool) -> int {
    if forward {
        if idx + 1 < len {
            idx + 1
        } else {
            len - 1
        }
    } else if idx > 0 {
        idx - 1
    } else {
        0
    }
}

/// Moving between issues from an issue page reaches an issue (it would not when backing off a
/// remembered cursor that lies past the end of the list).
pub open spec fn navigation_in_range(core: Core, forward: bool) -> bool {
    let (issues, idx) = navigation_base(core);
    issues.len() > 0 ==> step_index(idx, issues.len() as int, forward) < issues.len()
}

/// Where moving to the next (`forward`) or previous issue from an issue page leads: the new
/// index and the id of the issue there; `None` when not on an issue page, when the list is
/// empty, or when the step does not move.
pub fn navigate_target(core: &Core, forward: bool) -> (r: Option<(usize, String)>)
    requires
        navigation_in_range(*core, forward),
    ensures
        ({
            let (issues, idx) = navigation_base(*core);
            let n = step_index(idx, issues.len() as int, forward);
            match r {
                Some((k, id)) => core.view is IssueDetail && issues.len() > 0 && n != idx && k == n
                    && id@ == issues[n].id@,
                None => !(core.view is IssueDetail) || issues.len() == 0 || n == idx,
            }
        }),
{
    let current = match &core.view {
        Screen::IssueDetail { issue_id, .. } => issue_id.as_str(),
        _ => {
            return None;
        },
    };
    let parent_is_epic = core.view_stack.len() > 0 && match &core.view_stack[core.view_stack.len() - 1] {
        Screen::EpicDetail { .. } => true,
        _ => false,
    };
    let (issues, idx): (&Vec<Issue>, usize) = if parent_is_epic {
        match &core.view_stack[core.view_stack.len() - 1] {
            Screen::EpicDetail { children, child_selected, .. } => {
                let k = match position_of_id(children, current) {
                    Some(k) => k,
                    None => *child_selected,
                };
                (children, k)
            },
            _ => {
                return None;
            },
        }
    } else {
        let k = match position_of_id(&core.issue_store.issues, current) {
            Some(k) => k,
            None => core.issue_store.selected,
        };
        (&core.issue_store.issues, k)
    };
    if issues.len() == 0 {
        return None;
    }
    let n = if forward {
        if idx < issues.len() - 1 {
            idx + 1
        } else {
            issues.len() - 1
        }
    } else if idx > 0 {
        idx - 1
    } else {
        0
    };
    if n == idx {
        return None;
    }
    Some((n, issues[n].id.clone()))
}

/// Whether moving between issues from the current page stays within the list it walks (the
/// condition `navigate_target` needs).
pub fn can_navigate(core: &Core, forward: bool) -> (b: bool)
    ensures
        b == navigation_in_range(*core, forward),
{
    proof {
        reveal_strlit("");
        assert(""@ =~= Seq::<char>::empty());
    }
    let current = match &core.view {
        Screen::IssueDetail { issue_id, .. } => issue_id.as_str(),
        _ => "",
    };
    let parent_is_epic = core.view_stack.len() > 0 && match &core.view_stack[core.view_stack.len() - 1] {
        Screen::EpicDetail { .. } => true,
        _ => false,
    };
    let (len, idx): (usize, usize) = if parent_is_epic {
        match &core.view_stack[core.view_stack.len() - 1] {
            Screen::EpicDetail { children, child_selected, .. } => {
                let k = match position_of_id(children, current) {
                    Some(k) => k,
                    None => *child_selected,
                };
                (children.len(), k)
            },
            _ => (0, 0),
        }
    } else {
        let k = match position_of_id(&core.issue_store.issues, current) {
            Some(k) => k,
            None => core.issue_store.selected,
        };
        (core.issue_store.issues.len(), k)
    };
    if len == 0 {
        return true;
    }
    if forward {
        true
    } else if idx > 0 {
        idx - 1 < len
    } else {
        true
    }
}

/// Records the cursor after moving between issues: in the parent epic page when the page
/// below is one, else in the list.
pub fn set_navigation_cursor(core: &mut Core, new_idx: usize)
    ensures
        (old(core).view_stack@.len() > 0 && old(core).view_stack@.last() is EpicDetail) ==> ({
            match old(core).view_stack@.last() {
                Screen::EpicDetail { epic_id, children, ready_ids, scroll_offset, .. } =>
                    final(core).view_stack@ == old(core).view_stack@.drop_last().push(
                    Screen::EpicDetail {
                        epic_id,
                        children,
                        ready_ids,
                        child_selected: new_idx,
                        scroll_offset,
                    },
                ) && final(core).issue_store == old(core).issue_store,
                _ => false,
            }
        }),
        !(old(core).view_stack@.len() > 0 && old(core).view_stack@.last() is EpicDetail) ==> (
        final(core).view_stack@ == old(core).view_stack@ && final(core).issue_store.selected
            == new_idx && final(core).issue_store.issues == old(core).issue_store.issues),
        final(core).view == old(core).view,
        final(core).overlay == old(core).overlay,
        final(core).filter == old(core).filter,
        final(core).notification == old(core).notification,
{
    let top = core.view_stack.pop();
    match top {
        Some(Screen::EpicDetail { epic_id, children, ready_ids, scroll_offset, .. }) => {
            core.view_stack.push(
                Screen::EpicDetail { epic_id, children, ready_ids, child_selected: new_idx, scroll_offset },
            );
        },
        Some(other) => {
            core.view_stack.push(other);
            assert(core.view_stack@ =~= old(core).view_stack@);
            core.issue_store.selected = new_idx;
        },
        None => {
            core.issue_store.selected = new_idx;
        },
    }
}

/// The list cursor after an issue left the list: one back when it would point past the end.
pub fn selected_after_removal(selected: usize, len: usize) -> (r: usize)
    ensures
        r == (if selected >= len && selected > 0 {
            selected - 1
        } else {
            selected as int
        }),
{
    if selected >= len && selected > 0 {
        selected - 1
    } else {
        selected
    }
}

/// Removes the `strand-unread` label from the issue at `index` of the loaded issues (opening
/// an issue marks it read).
pub fn clear_unread(core: &mut Core, index: usize)
    ensures
        index < old(core).issue_store.issues@.len() ==> ({
            let before = old(core).issue_store.issues@[index as int]@;
            let after = final(core).issue_store.issues@[index as int]@;
            &&& after.labels == before.labels.filter(|l: Seq<char>| l != "strand-unread"@)
            &&& after.id == before.id && after.title == before.title && after.status == before.status
            &&& after.priority == before.priority && after.description == before.description
            &&& after.issue_type == before.issue_type && after.updated_at == before.updated_at
            &&& after.estimate == before.estimate
        }),
        final(core).issue_store.issues@.len() == old(core).issue_store.issues@.len(),
        forall|k: int|
            0 <= k < old(core).issue_store.issues@.len() && k != index
                ==> #[trigger] final(core).issue_store.issues@[k] == old(core).issue_store.issues@[k],
        index >= old(core).issue_store.issues@.len() ==> final(core).issue_store.issues
            == old(core).issue_store.issues,
        final(core).issue_store.selected == old(core).issue_store.selected,
        final(core).view == old(core).view,
        final(core).view_stack == old(core).view_stack,
        final(core).overlay == old(core).overlay,
        final(core).filter == old(core).filter,
        final(core).notification == old(core).notification,
{
    if index < core.issue_store.issues.len() {
        let mut issue = core.issue_store.issues.remove(index);
        let labels = retain_not(&issue.labels, "strand-unread");
        issue.labels = labels;
        core.issue_store.issues.insert(index, issue);
        assert forall|k: int|
            0 <= k < old(core).issue_store.issues@.len() && k != index implies core.issue_store.issues@[k]
            == old(core).issue_store.issues@[k] by {
        }
    }
}

/// The strings of `v` that differ from `x`, in their order.
fn retain_not(v: &Vec<String>, x: &str) -> (r: Vec<String>)
    ensures
        crate::text::views(r@) == crate::text::views(v@).filter(|l: Seq<char>| l != x@),
{
    let ghost pred = |l: Seq<char>| l != x@;
    let mut r: Vec<String> = Vec::new();
    let mut i: usize = 0;
    while i < v.len()
        invariant
            i <= v@.len(),
            pred == (|l: Seq<char>| l != x@),
            crate::text::views(r@) == crate::text::views(v@.take(i as int)).filter(pred),
        decreases v@.len() - i,
    {
        let ghost before = crate::text::views(v@.take(i as int));
        proof {
            crate::text::lemma_views_take(v@, i as int);
            reveal_with_fuel(Seq::filter, 1);
            assert(before.push(v@[i as int]@).drop_last() =~= before);
        }
        if !str_eq(v[i].as_str(), x) {
            let s = v[i].clone();
            proof {
                crate::text::lemma_views_push(r@, s);
            }
            r.push(s);
        }
        i = i + 1;
    }
    assert(v@.take(v@.len() as int) =~= v@);
    r
}

/// Moving between issues from an issue page moves by one: forward from any issue but the last
/// it reaches the very next one, back from any issue but the first it reaches the one before,
/// and at either end it stays.
pub proof fn law_navigation_moves_to_the_neighbour(idx: int, len: int)
    requires
        0 <= idx < len,
    ensures
        idx + 1 < len ==> step_index(idx, len, true) == idx + 1,
        idx > 0 ==> step_index(idx, len, false) == idx - 1,
        idx + 1 == len ==> step_index(idx, len, true) == idx,
        idx == 0 ==> step_index(idx, len, false) == idx,
{
}

/// One step forward from an issue page that is not on the last issue leads to the next issue
/// of the list it was opened from: its index is one more, and the id is that issue's.
pub proof fn law_navigate_forward_is_next_issue(core: Core)
    requires
        core.view is IssueDetail,
        0 <= navigation_base(core).1,
        navigation_base(core).1 + 1 < navigation_base(core).0.len(),
    ensures
        step_index(navigation_base(core).1, navigation_base(core).0.len() as int, true)
            == navigation_base(core).1 + 1,
        step_index(navigation_base(core).1, navigation_base(core).0.len() as int, true)
            != navigation_base(core).1,
{
}

/// One step up after one step down on an epic page returns to the child one started on, when
/// that child is not the last one.
pub proof fn law_previous_undoes_next(s: Screen)
    requires
        s matches Screen::EpicDetail { children, child_selected, .. } && child_selected + 1
            < children@.len() <= usize::MAX,
    ensures
        screen_previous(screen_next(s)) == s,
{
}

/// Opening a page and going back restores the page and the stack as they were: the page
/// pushed is the one `back` returns to, and the stack below it is the old stack.
pub proof fn law_back_undoes_push(stack: Seq<Screen>, view: Screen)
    ensures
        stack.push(view).len() > 0,
        stack.push(view).last() == view,
        stack.push(view).drop_last() == stack,
{
    assert(stack.push(view).drop_last() =~= stack);
}

} // verus!
