//! Every operation of strand as a value: key handlers return these, the event loop runs them.

pub mod impl_ops;
pub mod navigate;
pub mod state;

use vstd::prelude::*;
use vstd::string::*;

use crate::bd::opt_view;
use crate::core_state::view::ConfirmAction;

verus! {

/// One operation of strand. Key handlers only build these; running them is the caller's part.
#[derive(Debug)]
pub enum AppAction {
    // Navigation
    Next,
    Previous,
    OpenDetail(String),
    OpenChildDetail(String),
    Back,
    NavigateIssue { forward: bool },
    // Key bar (selectors and confirmation)
    OpenSelector(SelectorDef),
    OpenConfirm(ConfirmAction),
    CloseKeyBar,
    SyncFilter,
    Confirm(ConfirmAction),
    // AI workflows
    StartEnrich(String),
    StartImplement { issue_id: String, epic_id: Option<String> },
    StartSplit(String),
    StartSession(String),
    // Implementation operations
    MergeImpl(String),
    DiscardImpl(String),
    RetryImpl(String),
    MergeEpic(String),
    // State changes
    SetStatus { issue_id: String, status: String },
    SetPriority { issue_id: String, priority: u8 },
    OpenEstimateInput { issue_id: String, current: Option<u32> },
    // Editor
    QuickCreate,
    EditDescription(String),
    // Clipboard
    CopyId(String),
    CopyResumeCommand(String),
    CopyLogCommand(String),
    CopyWorktreePath(String),
    // Filter
    ClearFilter,
    OpenFilterStatusToggle,
    OpenFilterLabelToggle,
    // System
    Notify(String),
    ReloadIssues,
}

/// The definition of an execute-selector: its items and where the cursor starts.
#[derive(Debug)]
pub struct SelectorDef {
    pub items: Vec<SelectorItem>,
    pub initial_cursor: usize,
}

/// One choice of a selector: the key that picks it, its label and the action it stands for.
#[derive(Debug)]
pub struct SelectorItem {
    pub shortcut: String,
    pub label: String,
    pub action: AppAction,
}

/// An action with its text arguments taken by their views (a selector is kept as it is).
pub enum ActionView {
    Next,
    Previous,
    OpenDetail(Seq<char>),
    OpenChildDetail(Seq<char>),
    Back,
    NavigateIssue { forward: bool },
    OpenSelector(SelectorDef),
    OpenConfirm(ConfirmAction),
    CloseKeyBar,
    SyncFilter,
    Confirm(ConfirmAction),
    StartEnrich(Seq<char>),
    StartImplement { issue_id: Seq<char>, epic_id: Option<Seq<char>> },
    StartSplit(Seq<char>),
    StartSession(Seq<char>),
    MergeImpl(Seq<char>),
    DiscardImpl(Seq<char>),
    RetryImpl(Seq<char>),
    MergeEpic(Seq<char>),
    SetStatus { issue_id: Seq<char>, status: Seq<char> },
    SetPriority { issue_id: Seq<char>, priority: u8 },
    OpenEstimateInput { issue_id: Seq<char>, current: Option<u32> },
    QuickCreate,
    EditDescription(Seq<char>),
    CopyId(Seq<char>),
    CopyResumeCommand(Seq<char>),
    CopyLogCommand(Seq<char>),
    CopyWorktreePath(Seq<char>),
    ClearFilter,
    OpenFilterStatusToggle,
    OpenFilterLabelToggle,
    Notify(Seq<char>),
    ReloadIssues,
}

impl View for AppAction {
    type V = ActionView;

    open spec fn view(&self) -> ActionView {
        match self {
            AppAction::Next => ActionView::Next,
            AppAction::Previous => ActionView::Previous,
            AppAction::OpenDetail(s) => ActionView::OpenDetail(s@),
            AppAction::OpenChildDetail(s) => ActionView::OpenChildDetail(s@),
            AppAction::Back => ActionView::Back,
            AppAction::NavigateIssue { forward } => ActionView::NavigateIssue { forward: *forward },
            AppAction::OpenSelector(d) => ActionView::OpenSelector(*d),
            AppAction::OpenConfirm(c) => ActionView::OpenConfirm(*c),
            AppAction::CloseKeyBar => ActionView::CloseKeyBar,
            AppAction::SyncFilter => ActionView::SyncFilter,
            AppAction::Confirm(c) => ActionView::Confirm(*c),
            AppAction::StartEnrich(s) => ActionView::StartEnrich(s@),
            AppAction::StartImplement { issue_id, epic_id } => ActionView::StartImplement {
                issue_id: issue_id@,
                epic_id: opt_view(*epic_id),
            },
            AppAction::StartSplit(s) => ActionView::StartSplit(s@),
            AppAction::StartSession(s) => ActionView::StartSession(s@),
            AppAction::MergeImpl(s) => ActionView::MergeImpl(s@),
            AppAction::DiscardImpl(s) => ActionView::DiscardImpl(s@),
            AppAction::RetryImpl(s) => ActionView::RetryImpl(s@),
            AppAction::MergeEpic(s) => ActionView::MergeEpic(s@),
            AppAction::SetStatus { issue_id, status } => ActionView::SetStatus {
                issue_id: issue_id@,
                status: status@,
            },
            AppAction::SetPriority { issue_id, priority } => ActionView::SetPriority {
                issue_id: issue_id@,
                priority: *priority,
            },
            AppAction::OpenEstimateInput { issue_id, current } => ActionView::OpenEstimateInput {
                issue_id: issue_id@,
                current: *current,
            },
            AppAction::QuickCreate => ActionView::QuickCreate,
            AppAction::EditDescription(s) => ActionView::EditDescription(s@),
            AppAction::CopyId(s) => ActionView::CopyId(s@),
            AppAction::CopyResumeCommand(s) => ActionView::CopyResumeCommand(s@),
            AppAction::CopyLogCommand(s) => ActionView::CopyLogCommand(s@),
            AppAction::CopyWorktreePath(s) => ActionView::CopyWorktreePath(s@),
            AppAction::ClearFilter => ActionView::ClearFilter,
            AppAction::OpenFilterStatusToggle => ActionView::OpenFilterStatusToggle,
            AppAction::OpenFilterLabelToggle => ActionView::OpenFilterLabelToggle,
            AppAction::Notify(s) => ActionView::Notify(s@),
            AppAction::ReloadIssues => ActionView::ReloadIssues,
        }
    }
}

/// The views of a sequence of actions.
pub open spec fn action_views(v: Seq<AppAction>) -> Seq<ActionView> {
    v.map_values(|a: AppAction| a@)
}

/// A selector item with this shortcut, label and action.
pub open spec fn item_is(it: SelectorItem, shortcut: Seq<char>, label: Seq<char>, action: ActionView) -> bool {
    it.shortcut@ == shortcut && it.label@ == label && it.action@ == action
}

/// `a` is a copy of `b`: the same action with the same arguments; a selector it opens has
/// the same initial cursor and, item by item, the same shortcuts, labels and actions.
pub open spec fn is_copy_of(a: AppAction, b: AppAction) -> bool
    decreases b,
{
    match b {
        AppAction::OpenSelector(d) => match a {
            AppAction::OpenSelector(e) => e.initial_cursor == d.initial_cursor && e.items@.len()
                == d.items@.len() && forall|i: int|
                0 <= i < d.items@.len() ==> {
                    &&& e.items@[i].shortcut@ == d.items@[i].shortcut@
                    &&& e.items@[i].label@ == d.items@[i].label@
                    &&& #[trigger] is_copy_of(e.items@[i].action, d.items@[i].action)
                },
            _ => false,
        },
        _ => a == b,
    }
}

/// `e` is a copy of `d`: the same initial cursor and, item by item, the same shortcuts,
/// labels and actions.
pub open spec fn is_def_copy_of(e: SelectorDef, d: SelectorDef) -> bool {
    is_copy_of(AppAction::OpenSelector(e), AppAction::OpenSelector(d))
}

impl Clone for AppAction {
    fn clone(&self) -> (r: Self)
        ensures
            is_copy_of(r, *self),
    {
        copy_action(self)
    }
}

/// A copy of an action.
fn copy_action(a: &AppAction) -> (r: AppAction)
    ensures
        is_copy_of(r, *a),
    decreases a,
{
    match a {
            AppAction::Next => AppAction::Next,
            AppAction::Previous => AppAction::Previous,
            AppAction::OpenDetail(s) => AppAction::OpenDetail(s.clone()),
            AppAction::OpenChildDetail(s) => AppAction::OpenChildDetail(s.clone()),
            AppAction::Back => AppAction::Back,
            AppAction::NavigateIssue { forward } => AppAction::NavigateIssue { forward: *forward },
            AppAction::OpenSelector(d) => AppAction::OpenSelector(copy_def(d)),
            AppAction::OpenConfirm(c) => AppAction::OpenConfirm(*c),
            AppAction::CloseKeyBar => AppAction::CloseKeyBar,
            AppAction::SyncFilter => AppAction::SyncFilter,
            AppAction::Confirm(c) => AppAction::Confirm(*c),
            AppAction::StartEnrich(s) => AppAction::StartEnrich(s.clone()),
            AppAction::StartImplement { issue_id, epic_id } => AppAction::StartImplement {
                issue_id: issue_id.clone(),
                epic_id: clone_opt_string_eq(epic_id),
            },
            AppAction::StartSplit(s) => AppAction::StartSplit(s.clone()),
            AppAction::StartSession(s) => AppAction::StartSession(s.clone()),
            AppAction::MergeImpl(s) => AppAction::MergeImpl(s.clone()),
            AppAction::DiscardImpl(s) => AppAction::DiscardImpl(s.clone()),
            AppAction::RetryImpl(s) => AppAction::RetryImpl(s.clone()),
            AppAction::MergeEpic(s) => AppAction::MergeEpic(s.clone()),
            AppAction::SetStatus { issue_id, status } => AppAction::SetStatus {
                issue_id: issue_id.clone(),
                status: status.clone(),
            },
            AppAction::SetPriority { issue_id, priority } => AppAction::SetPriority {
                issue_id: issue_id.clone(),
                priority: *priority,
            },
            AppAction::OpenEstimateInput { issue_id, current } => AppAction::OpenEstimateInput {
                issue_id: issue_id.clone(),
                current: *current,
            },
            AppAction::QuickCreate => AppAction::QuickCreate,
            AppAction::EditDescription(s) => AppAction::EditDescription(s.clone()),
            AppAction::CopyId(s) => AppAction::CopyId(s.clone()),
            AppAction::CopyResumeCommand(s) => AppAction::CopyResumeCommand(s.clone()),
            AppAction::CopyLogCommand(s) => AppAction::CopyLogCommand(s.clone()),
            AppAction::CopyWorktreePath(s) => AppAction::CopyWorktreePath(s.clone()),
            AppAction::ClearFilter => AppAction::ClearFilter,
            AppAction::OpenFilterStatusToggle => AppAction::OpenFilterStatusToggle,
            AppAction::OpenFilterLabelToggle => AppAction::OpenFilterLabelToggle,
            AppAction::Notify(s) => AppAction::Notify(s.clone()),
            AppAction::ReloadIssues => AppAction::ReloadIssues,
    }
}

/// A copy of an optional string, equal to the original.
fn clone_opt_string_eq(o: &Option<String>) -> (r: Option<String>)
    ensures
        r == *o,
{
    match o {
        Some(s) => Some(s.clone()),
        None => None,
    }
}

impl Clone for SelectorItem {
    fn clone(&self) -> (r: Self)
        ensures
            r.shortcut == self.shortcut,
            r.label == self.label,
            is_copy_of(r.action, self.action),
    {
        SelectorItem {
            shortcut: self.shortcut.clone(),
            label: self.label.clone(),
            action: copy_action(&self.action),
        }
    }
}

impl Clone for SelectorDef {
    fn clone(&self) -> (r: Self)
        ensures
            is_def_copy_of(r, *self),
    {
        copy_def(self)
    }
}

/// A copy of a selector definition.
fn copy_def(d: &SelectorDef) -> (r: SelectorDef)
    ensures
        is_def_copy_of(r, *d),
    decreases d,
{
    let mut items: Vec<SelectorItem> = Vec::new();
    let mut i: usize = 0;
    while i < d.items.len()
        invariant
            i <= d.items@.len(),
            items@.len() == i,
            forall|k: int|
                #![trigger items@[k]]
                0 <= k < i ==> {
                    &&& items@[k].shortcut@ == d.items@[k].shortcut@
                    &&& items@[k].label@ == d.items@[k].label@
                    &&& is_copy_of(items@[k].action, d.items@[k].action)
                },
        decreases d.items@.len() - i,
    {
        let item = &d.items[i];
        assert(decreases_to!(d => d.items));
        assert(decreases_to!(d.items => d.items@));
        assert(decreases_to!(d.items@ => d.items@[i as int]));
        let ghost before = items@;
        let copied = SelectorItem {
            shortcut: item.shortcut.clone(),
            label: item.label.clone(),
            action: copy_action(&item.action),
        };
        items.push(copied);
        proof {
            assert forall|k: int| #![trigger items@[k]] 0 <= k < i + 1 implies {
                &&& items@[k].shortcut@ == d.items@[k].shortcut@
                &&& items@[k].label@ == d.items@[k].label@
                &&& is_copy_of(items@[k].action, d.items@[k].action)
            } by {
                if k < i {
                    assert(items@[k] == before[k]);
                    assert(is_copy_of(before[k].action, d.items@[k].action));
                    assert(before[k].label@ == d.items@[k].label@);
                } else {
                    assert(items@[k] == copied);
                    assert(copied.label@ == d.items@[k].label@);
                    assert(copied.shortcut@ == d.items@[k].shortcut@);
                    assert(is_copy_of(copied.action, d.items@[k].action));
                }
            }
        }
        i = i + 1;
    }
    let r = SelectorDef { items, initial_cursor: d.initial_cursor };
    proof {
        assert(is_copy_of(AppAction::OpenSelector(r), AppAction::OpenSelector(*d)));
    }
    r
}

} // verus!
