//! The loaded issues and the list cursor.

use vstd::prelude::*;

use super::filter::{filter_matches, Filter};
use crate::bd::{issue_views, lemma_issue_views_take, Issue, IssueView};
use crate::text::views;

verus! {

/// The issues the list shows: those the filter passes, in their order.
pub open spec fn displayed_spec(issues: Seq<IssueView>, filter: Filter) -> Seq<IssueView> {
    issues.filter(|i: IssueView| filter_matches(views(filter.statuses@), views(filter.labels@), i))
}

/// The views of a sequence of issue references.
pub open spec fn ref_issue_views(v: Seq<&Issue>) -> Seq<IssueView> {
    v.map_values(|i: &Issue| i@)
}

/// The loaded top-level issues and the index of the selected one among those displayed.
pub struct IssueStore {
    pub issues: Vec<Issue>,
    pub selected: usize,
}

impl IssueStore {
    /// No issues, first row selected.
    pub fn new() -> (s: IssueStore)
        ensures
            s.issues@.len() == 0,
            s.selected == 0,
    {
        IssueStore { issues: Vec::new(), selected: 0 }
    }

    /// The issues that pass `filter`, in their order.
    pub fn displayed_issues<'a>(&'a self, filter: &Filter) -> (r: Vec<&'a Issue>)
        ensures
            ref_issue_views(r@) == displayed_spec(issue_views(self.issues@), *filter),
    {
        let ghost pred = |i: IssueView|
            filter_matches(views(filter.statuses@), views(filter.labels@), i);
        let mut r: Vec<&'a Issue> = Vec::new();
        let mut i: usize = 0;
        while i < self.issues.len()
            invariant
                i <= self.issues@.len(),
                pred == (|i: IssueView|
                    filter_matches(views(filter.statuses@), views(filter.labels@), i)),
                ref_issue_views(r@) == issue_views(self.issues@.take(i as int)).filter(pred),
            decreases self.issues@.len() - i,
        {
            let ghost before = issue_views(self.issues@.take(i as int));
            let ghost cur = self.issues@[i as int]@;
            proof {
                lemma_issue_views_take(self.issues@, i as int);
                reveal_with_fuel(Seq::filter, 1);
                assert(before.push(cur).drop_last() =~= before);
            }
            let issue = &self.issues[i];
            if filter.matches(issue) {
                r.push(issue);
                assert(ref_issue_views(r@) =~= ref_issue_views(r@.drop_last()).push(cur));
            }
            i = i + 1;
        }
        assert(self.issues@.take(self.issues@.len() as int) =~= self.issues@);
        r
    }

    /// The selected issue among the displayed ones, if the cursor is on one.
    pub fn selected_issue<'a>(&'a self, filter: &Filter) -> (r: Option<&'a Issue>)
        ensures
            match r {
                Some(i) => self.selected < displayed_spec(issue_views(self.issues@), *filter).len()
                    && i@ == displayed_spec(issue_views(self.issues@), *filter)[self.selected as int],
                None => self.selected >= displayed_spec(issue_views(self.issues@), *filter).len(),
            },
    {
        let d = self.displayed_issues(filter);
        if self.selected < d.len() {
            Some(d[self.selected])
        } else {
            None
        }
    }
}

/// With no status and no label chosen the list shows every issue, and whatever it shows
/// passes the filter.
pub proof fn law_displayed_is_filtered(issues: Seq<IssueView>, filter: Filter)
    ensures
        filter.statuses@.len() == 0 && filter.labels@.len() == 0 ==> displayed_spec(issues, filter)
            == issues,
        forall|k: int|
            0 <= k < displayed_spec(issues, filter).len() ==> filter_matches(
                views(filter.statuses@),
                views(filter.labels@),
                #[trigger] displayed_spec(issues, filter)[k],
            ),
{
    let pred = |i: IssueView| filter_matches(views(filter.statuses@), views(filter.labels@), i);
    assert forall|k: int| 0 <= k < issues.filter(pred).len() implies pred(
        #[trigger] issues.filter(pred)[k],
    ) by {
        issues.lemma_filter_pred(pred, k);
    }
    if filter.statuses@.len() == 0 && filter.labels@.len() == 0 {
        assert forall|i: IssueView| #[trigger] pred(i) by {}
        lemma_filter_all(issues, pred);
    }
}

proof fn lemma_filter_all(s: Seq<IssueView>, pred: spec_fn(IssueView) -> bool)
    requires
        forall|i: IssueView| #[trigger] pred(i),
    ensures
        s.filter(pred) == s,
    decreases s.len(),
{
    reveal_with_fuel(Seq::filter, 1);
    if s.len() > 0 {
        lemma_filter_all(s.drop_last(), pred);
        assert(s.drop_last().push(s.last()) =~= s);
    } else {
        assert(s.filter(pred) =~= s);
    }
}

} // verus!
