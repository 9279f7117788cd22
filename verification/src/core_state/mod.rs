//! The state that the pages show and the actions change.

pub mod filter;
pub mod issue_store;
pub mod overlay;
pub mod view;

use vstd::prelude::*;
use vstd::string::*;

use crate::bd::{issue_views, opt_view, Issue, IssueView};
use crate::text::str_eq;
use filter::Filter;
use issue_store::{displayed_spec, IssueStore};
use overlay::Overlay;
use view::Screen;

verus! {

/// Which key handler gets the next key.
#[derive(Debug, Clone, Copy, PartialEq, Eq, Structural)]
pub enum Layer {
    KeyBar,
    IssueList,
    IssueDetail,
    EpicDetail,
}

/// Index of the first issue whose id is `id`, or -1.
pub open spec fn index_of_id(issues: Seq<IssueView>, id: Seq<char>) -> int
    decreases issues.len(),
{
    if issues.len() == 0 {
        -1
    } else if issues[0].id == id {
        0
    } else {
        let r = index_of_id(issues.drop_first(), id);
        if r < 0 {
            -1
        } else {
            r + 1
        }
    }
}

/// The issue with id `id` among the children of the epic pages on `stack`, searching from
/// the top of the stack.
pub open spec fn find_in_stack_spec(stack: Seq<Screen>, id: Seq<char>) -> Option<IssueView>
    decreases stack.len(),
{
    if stack.len() == 0 {
        None
    } else {
        match stack.last() {
            Screen::EpicDetail { children, .. } => {
                let k = index_of_id(issue_views(children@), id);
                if k >= 0 {
                    Some(issue_views(children@)[k])
                } else {
                    find_in_stack_spec(stack.drop_last(), id)
                }
            },
            _ => find_in_stack_spec(stack.drop_last(), id),
        }
    }
}

/// The id of the nearest epic page on `stack`, from the top.
pub open spec fn parent_epic_spec(stack: Seq<Screen>) -> Option<Seq<char>>
    decreases stack.len(),
{
    if stack.len() == 0 {
        None
    } else {
        match stack.last() {
            Screen::EpicDetail { epic_id, .. } => Some(epic_id@),
            _ => parent_epic_spec(stack.drop_last()),
        }
    }
}

/// The view of an optional issue.
pub open spec fn opt_issue_view(o: Option<Issue>) -> Option<IssueView> {
    match o {
        Some(i) => Some(i@),
        None => None,
    }
}

proof fn lemma_index_of_id(issues: Seq<IssueView>, id: Seq<char>)
    ensures
        -1 <= index_of_id(issues, id) < issues.len(),
        index_of_id(issues, id) >= 0 ==> issues[index_of_id(issues, id)].id == id,
        forall|k: int|
            0 <= k < issues.len() && (index_of_id(issues, id) < 0 || k < index_of_id(issues, id))
                ==> #[trigger] issues[k].id != id,
    decreases issues.len(),
{
    if issues.len() > 0 && issues[0].id != id {
        lemma_index_of_id(issues.drop_first(), id);
        assert forall|k: int|
            0 <= k < issues.len() && (index_of_id(issues, id) < 0 || k < index_of_id(issues, id))
                implies #[trigger] issues[k].id != id by {
            if k > 0 {
                assert(issues[k] == issues.drop_first()[k - 1]);
            }
        }
    }
}

/// Position of the first issue of `issues` whose id is `id`.
pub fn position_of_id(issues: &Vec<Issue>, id: &str) -> (r: Option<usize>)
    ensures
        match r {
            Some(k) => k == index_of_id(issue_views(issues@), id@) && k < issues@.len(),
            None => index_of_id(issue_views(issues@), id@) < 0,
        },
{
    let ghost iv = issue_views(issues@);
    proof {
        lemma_index_of_id(iv, id@);
    }
    let mut i: usize = 0;
    while i < issues.len()
        invariant
            i <= issues@.len(),
            iv == issue_views(issues@),
            forall|k: int| 0 <= k < i ==> #[trigger] iv[k].id != id@,
            -1 <= index_of_id(iv, id@) < iv.len(),
            index_of_id(iv, id@) >= 0 ==> iv[index_of_id(iv, id@)].id == id@,
            forall|k: int|
                0 <= k < iv.len() && (index_of_id(iv, id@) < 0 || k < index_of_id(iv, id@))
                    ==> #[trigger] iv[k].id != id@,
        decreases issues@.len() - i,
    {
        if str_eq(issues[i].id.as_str(), id) {
            assert(iv[i as int].id == id@);
            return Some(i);
        }
        i = i + 1;
    }
    None
}

/// The application state that the pages read and the actions change.
pub struct Core {
    pub issue_store: IssueStore,
    pub view: Screen,
    pub view_stack: Vec<Screen>,
    pub overlay: Overlay,
    pub filter: Filter,
    pub notification: Option<String>,
}

impl Core {
    /// The start state: the issue list, no issues, nothing open.
    pub fn new() -> (c: Core)
        ensures
            c.issue_store.issues@.len() == 0,
            c.issue_store.selected == 0,
            c.view is IssueList,
            c.view_stack@.len() == 0,
            c.overlay is Closed,
            c.filter.wf(),
            c.filter.statuses@.len() == 0,
            c.filter.labels@.len() == 0,
            c.filter.available_labels@.len() == 0,
            c.notification is None,
    {
        Core {
            issue_store: IssueStore::new(),
            view: Screen::IssueList,
            view_stack: Vec::new(),
            overlay: Overlay::Closed,
            filter: Filter::new(),
            notification: None,
        }
    }

    /// The issues the list shows under the current filter.
    pub open spec fn displayed(&self) -> Seq<IssueView> {
        displayed_spec(issue_views(self.issue_store.issues@), self.filter)
    }

    /// The issue the current page is about: the open issue or epic, or on the list the
    /// selected issue.
    pub open spec fn current_issue_id_spec(&self) -> Option<Seq<char>> {
        match self.view {
            Screen::IssueDetail { issue_id, .. } => Some(issue_id@),
            Screen::EpicDetail { epic_id, .. } => Some(epic_id@),
            Screen::IssueList => if self.issue_store.selected < self.displayed().len() {
                Some(self.displayed()[self.issue_store.selected as int].id)
            } else {
                None
            },
        }
    }

    /// The id of the issue the current page is about.
    pub fn current_issue_id(&self) -> (r: Option<String>)
        ensures
            opt_view(r) == self.current_issue_id_spec(),
    {
        match &self.view {
            Screen::IssueDetail { issue_id, .. } => Some(issue_id.clone()),
            Screen::EpicDetail { epic_id, .. } => Some(epic_id.clone()),
            Screen::IssueList => match self.issue_store.selected_issue(&self.filter) {
                Some(i) => Some(i.id.clone()),
                None => None,
            },
        }
    }

    /// Finds an issue by id, among the loaded issues and all children: first the loaded
    /// issues, then the children of the current page when it is an epic page, then those of
    /// the epic pages on the stack, from the top.
    pub fn find_issue(&self, issue_id: &str) -> (r: Option<Issue>)
        ensures
            opt_issue_view(r) == ({
                let k = index_of_id(issue_views(self.issue_store.issues@), issue_id@);
                if k >= 0 {
                    Some(issue_views(self.issue_store.issues@)[k])
                } else {
                    find_in_stack_spec(self.view_stack@.push(self.view), issue_id@)
                }
            }),
    {
        proof {
            assert(self.view_stack@.push(self.view).drop_last() =~= self.view_stack@);
        }
        match position_of_id(&self.issue_store.issues, issue_id) {
            Some(k) => Some(self.issue_store.issues[k].clone()),
            None => {
                match &self.view {
                    Screen::EpicDetail { children, .. } => {
                        match position_of_id(children, issue_id) {
                            Some(k) => {
                                return Some(children[k].clone());
                            },
                            None => {},
                        }
                    },
                    _ => {},
                }
                self.find_issue_in_stack(issue_id)
            },
        }
    }

    /// Finds an issue among the children of the epic pages on the stack, from the top.
    pub fn find_issue_in_stack(&self, issue_id: &str) -> (r: Option<Issue>)
        ensures
            opt_issue_view(r) == find_in_stack_spec(self.view_stack@, issue_id@),
    {
        let mut j: usize = self.view_stack.len();
        assert(self.view_stack@.take(j as int) =~= self.view_stack@);
        while j > 0
            invariant
                j <= self.view_stack@.len(),
                find_in_stack_spec(self.view_stack@, issue_id@) == find_in_stack_spec(
                    self.view_stack@.take(j as int),
                    issue_id@,
                ),
            decreases j,
        {
            let ghost pre = self.view_stack@.take(j as int);
            assert(pre.drop_last() =~= self.view_stack@.take(j - 1));
            assert(pre.last() == self.view_stack@[j - 1]);
            match &self.view_stack[j - 1] {
                Screen::EpicDetail { children, .. } => {
                    match position_of_id(children, issue_id) {
                        Some(k) => {
                            return Some(children[k].clone());
                        },
                        None => {},
                    }
                },
                _ => {},
            }
            j = j - 1;
        }
        None
    }

    /// The id of the nearest epic page on the stack.
    pub fn find_parent_epic_id(&self) -> (r: Option<String>)
        ensures
            opt_view(r) == parent_epic_spec(self.view_stack@),
    {
        let mut j: usize = self.view_stack.len();
        assert(self.view_stack@.take(j as int) =~= self.view_stack@);
        while j > 0
            invariant
                j <= self.view_stack@.len(),
                parent_epic_spec(self.view_stack@) == parent_epic_spec(
                    self.view_stack@.take(j as int),
                ),
            decreases j,
        {
            let ghost pre = self.view_stack@.take(j as int);
            assert(pre.drop_last() =~= self.view_stack@.take(j - 1));
            assert(pre.last() == self.view_stack@[j - 1]);
            match &self.view_stack[j - 1] {
                Screen::EpicDetail { epic_id, .. } => {
                    return Some(epic_id.clone());
                },
                _ => {},
            }
            j = j - 1;
        }
        None
    }

    /// On an epic page with children: whether every child is closed.
    #[verifier::loop_isolation(false)]
    pub fn all_children_closed(&self) -> (b: bool)
        ensures
            b == match self.view {
                Screen::EpicDetail { children, .. } => children@.len() > 0 && forall|k: int|
                    0 <= k < children@.len() ==> (#[trigger] children@[k]).status@ == "closed"@,
                _ => false,
            },
    {
        match &self.view {
            Screen::EpicDetail { children, .. } => {
                if children.len() == 0 {
                    return false;
                }
                let mut i: usize = 0;
                while i < children.len()
                    invariant
                        i <= children@.len(),
                        forall|k: int|
                            0 <= k < i ==> (#[trigger] children@[k]).status@ == "closed"@,
                    decreases children@.len() - i,
                {
                    if !str_eq(children[i].status.as_str(), "closed") {
                        assert(children@[i as int].status@ != "closed"@);
                        return false;
                    }
                    i = i + 1;
                }
                true
            },
            _ => false,
        }
    }

    /// Shows `msg` in the notification line.
    pub fn notify(&mut self, msg: String)
        ensures
            opt_view(final(self).notification) == Some(msg@),
            final(self).issue_store == old(self).issue_store,
            final(self).view == old(self).view,
            final(self).view_stack == old(self).view_stack,
            final(self).overlay == old(self).overlay,
            final(self).filter == old(self).filter,
    {
        self.notification = Some(msg);
    }

    /// Which key handler gets the next key: an open key bar first, else the page.
    pub fn layer(&self) -> (l: Layer)
        ensures
            l == (if !(self.overlay is Closed) {
                Layer::KeyBar
            } else {
                match self.view {
                    Screen::IssueList => Layer::IssueList,
                    Screen::IssueDetail { .. } => Layer::IssueDetail,
                    Screen::EpicDetail { .. } => Layer::EpicDetail,
                }
            }),
    {
        match &self.overlay {
            Overlay::Closed => match &self.view {
                Screen::IssueList => Layer::IssueList,
                Screen::IssueDetail { .. } => Layer::IssueDetail,
                Screen::EpicDetail { .. } => Layer::EpicDetail,
            },
            _ => Layer::KeyBar,
        }
    }
}

} // verus!
