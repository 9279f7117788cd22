//! The issue-list filter: statuses (OR), labels (OR), both together (AND).

use vstd::prelude::*;
use vstd::string::*;

use crate::bd::{Issue, IssueView};
use crate::text::{
    contains_str, has_prefix, insert_sorted, join, join_spec, lemma_sorted_elements_is,
    lemma_views_push, sorted_elements, sorted_strings, starts_with, strictly_sorted, to_owned_string,
    views,
};

verus! {

/// The statuses an issue can have, in the order the status toggle lists them.
pub fn statuses() -> (r: Vec<String>)
    ensures
        views(r@) == seq!["open"@, "in_progress"@, "deferred"@, "closed"@],
{
    let mut r: Vec<String> = Vec::new();
    r.push(to_owned_string("open"));
    r.push(to_owned_string("in_progress"));
    r.push(to_owned_string("deferred"));
    r.push(to_owned_string("closed"));
    assert(views(r@) =~= seq!["open"@, "in_progress"@, "deferred"@, "closed"@]);
    r
}

/// A label that the user set, as opposed to one that strand manages (`strand-*`).
pub open spec fn is_user_label(l: Seq<char>) -> bool {
    !has_prefix(l, "strand-"@)
}

/// The filter condition: the status is one of `statuses` (or none are chosen), and some user
/// label of the issue is one of `labels` (or none are chosen).
pub open spec fn filter_matches(
    statuses: Seq<Seq<char>>,
    labels: Seq<Seq<char>>,
    issue: IssueView,
) -> bool {
    &&& (statuses.len() == 0 || statuses.contains(issue.status))
    &&& (labels.len() == 0 || exists|l: Seq<char>|
        labels.contains(l) && issue.labels.contains(l) && is_user_label(l))
}

/// Every user label that some issue of `issues` carries.
pub open spec fn user_labels_of(issues: Seq<IssueView>) -> Set<Seq<char>> {
    Set::new(
        |l: Seq<char>|
            is_user_label(l) && exists|i: int| 0 <= i < issues.len() && issues[i].labels.contains(l),
    )
}

/// The text that shows the active filter: `status:a,b` and `label:x,y`, each sorted, joined by
/// a space; only the parts with a choice appear.
pub open spec fn display_spec(statuses: Seq<Seq<char>>, labels: Seq<Seq<char>>) -> Seq<char> {
    let s_part = "status:"@ + join_spec(sorted_elements(statuses.to_set()), ","@);
    let l_part = "label:"@ + join_spec(sorted_elements(labels.to_set()), ","@);
    let parts = (if statuses.len() > 0 {
        seq![s_part]
    } else {
        Seq::empty()
    }) + (if labels.len() > 0 {
        seq![l_part]
    } else {
        Seq::empty()
    });
    join_spec(parts, " "@)
}

/// The filter state of the issue list.
pub struct Filter {
    pub statuses: Vec<String>,
    pub labels: Vec<String>,
    pub available_labels: Vec<String>,
}

impl Filter {
    /// The chosen statuses and labels are sets: no value occurs twice.
    pub open spec fn wf(&self) -> bool {
        views(self.statuses@).no_duplicates() && views(self.labels@).no_duplicates()
    }

    /// An empty filter.
    pub fn new() -> (f: Filter)
        ensures
            f.wf(),
            f.statuses@.len() == 0,
            f.labels@.len() == 0,
            f.available_labels@.len() == 0,
    {
        Filter { statuses: Vec::new(), labels: Vec::new(), available_labels: Vec::new() }
    }

    /// Whether a status or a label is chosen.
    pub fn is_active(&self) -> (b: bool)
        ensures
            b == (self.statuses@.len() > 0 || self.labels@.len() > 0),
    {
        self.statuses.len() > 0 || self.labels.len() > 0
    }

    /// Whether `issue` passes the filter (statuses: OR, labels: OR, the two: AND).
    pub fn matches(&self, issue: &Issue) -> (b: bool)
        ensures
            b == filter_matches(views(self.statuses@), views(self.labels@), issue@),
    {
        if self.statuses.len() > 0 && !contains_str(&self.statuses, issue.status.as_str()) {
            return false;
        }
        if self.labels.len() == 0 {
            return true;
        }
        let mut i: usize = 0;
        while i < self.labels.len()
            invariant
                i <= self.labels@.len(),
                views(self.statuses@).len() == 0 || views(self.statuses@).contains(issue@.status),
                forall|k: int|
                    0 <= k < i ==> !(issue@.labels.contains(#[trigger] views(self.labels@)[k])
                        && is_user_label(views(self.labels@)[k])),
            decreases self.labels@.len() - i,
        {
            let l = self.labels[i].as_str();
            if !starts_with(l, "strand-") && contains_str(&issue.labels, l) {
                assert(views(self.labels@)[i as int] == l@);
                assert(views(self.labels@).contains(l@) && issue@.labels.contains(l@)
                    && is_user_label(l@));
                return true;
            }
            i = i + 1;
        }
        assert forall|l: Seq<char>|
            views(self.labels@).contains(l) implies !(issue@.labels.contains(l) && is_user_label(
            l,
        )) by {
            let k = choose|k: int| 0 <= k < views(self.labels@).len() && views(self.labels@)[k] == l;
        }
        false
    }

    /// Chooses no status and no label.
    pub fn clear(&mut self)
        ensures
            final(self).wf(),
            final(self).statuses@.len() == 0,
            final(self).labels@.len() == 0,
            final(self).available_labels@ == old(self).available_labels@,
    {
        self.statuses = Vec::new();
        self.labels = Vec::new();
    }

    /// Adds `status` to the chosen statuses (a set).
    pub fn insert_status(&mut self, status: String)
        requires
            old(self).wf(),
        ensures
            final(self).wf(),
            views(final(self).statuses@).to_set() == views(old(self).statuses@).to_set().insert(
                status@,
            ),
            final(self).labels@ == old(self).labels@,
            final(self).available_labels@ == old(self).available_labels@,
    {
        insert_unique(&mut self.statuses, status);
    }

    /// Adds `label` to the chosen labels (a set).
    pub fn insert_label(&mut self, label: String)
        requires
            old(self).wf(),
        ensures
            final(self).wf(),
            views(final(self).labels@).to_set() == views(old(self).labels@).to_set().insert(
                label@,
            ),
            final(self).statuses@ == old(self).statuses@,
            final(self).available_labels@ == old(self).available_labels@,
    {
        insert_unique(&mut self.labels, label);
    }

    /// Collects the user labels of `issues` into `available_labels`, sorted, each once.
    pub fn refresh_labels(&mut self, issues: &Vec<Issue>)
        ensures
            views(final(self).available_labels@) == sorted_elements(
                user_labels_of(crate::bd::issue_views(issues@)),
            ),
            views(final(self).available_labels@).to_set() == user_labels_of(
                crate::bd::issue_views(issues@),
            ),
            strictly_sorted(views(final(self).available_labels@)),
            final(self).statuses@ == old(self).statuses@,
            final(self).labels@ == old(self).labels@,
    {
        let ghost iv = crate::bd::issue_views(issues@);
        let mut acc: Vec<String> = Vec::new();
        let mut i: usize = 0;
        assert(views(acc@).to_set() =~= Set::<Seq<char>>::empty());
        assert(user_labels_of(iv.take(0)) =~= Set::<Seq<char>>::empty());
        while i < issues.len()
            invariant
                i <= issues@.len(),
                iv == crate::bd::issue_views(issues@),
                strictly_sorted(views(acc@)),
                views(acc@).to_set() == user_labels_of(iv.take(i as int)),
            decreases issues@.len() - i,
        {
            let labels = &issues[i].labels;
            let mut j: usize = 0;
            while j < labels.len()
                invariant
                    i < issues@.len(),
                    j <= labels@.len(),
                    labels == issues@[i as int].labels,
                    iv == crate::bd::issue_views(issues@),
                    strictly_sorted(views(acc@)),
                    views(acc@).to_set() == user_labels_of(iv.take(i as int)).union(
                        Set::new(
                            |l: Seq<char>|
                                is_user_label(l) && views(labels@).take(j as int).contains(l),
                        ),
                    ),
                decreases labels@.len() - j,
            {
                let l = labels[j].as_str();
                let user = !starts_with(l, "strand-");
                let ghost before = views(acc@).to_set();
                if user {
                    insert_sorted(&mut acc, to_owned_string(l));
                }
                proof {
                    let t0 = views(labels@).take(j as int);
                    let t1 = views(labels@).take(j + 1);
                    assert(t1 =~= t0.push(l@));
                    assert forall|m: Seq<char>| t1.contains(m) <==> (t0.contains(m) || m == l@) by {
                        if t1.contains(m) {
                            let k = choose|k: int| 0 <= k < t1.len() && t1[k] == m;
                            if k < t0.len() {
                                assert(t0[k] == m);
                            }
                        }
                        if t0.contains(m) {
                            let k = choose|k: int| 0 <= k < t0.len() && t0[k] == m;
                            assert(t1[k] == m);
                        }
                        if m == l@ {
                            assert(t1[t0.len() as int] == m);
                        }
                    }
                    assert(views(acc@).to_set() =~= user_labels_of(iv.take(i as int)).union(
                        Set::new(|m: Seq<char>| is_user_label(m) && t1.contains(m)),
                    ));
                }
                j = j + 1;
            }
            proof {
                assert(views(labels@).take(labels@.len() as int) =~= views(labels@));
                assert(iv.take(i + 1) =~= iv.take(i as int).push(iv[i as int]));
                assert(iv[i as int].labels == views(labels@));
                let p0 = iv.take(i as int);
                let p1 = iv.take(i + 1);
                assert forall|m: Seq<char>|
                    user_labels_of(p1).contains(m) <==> (user_labels_of(p0).contains(m) || (
                    is_user_label(m) && views(labels@).contains(m))) by {
                    if user_labels_of(p1).contains(m) {
                        let a = choose|a: int| 0 <= a < p1.len() && p1[a].labels.contains(m);
                        if a < p0.len() {
                            assert(p0[a].labels.contains(m));
                        }
                    }
                    if user_labels_of(p0).contains(m) {
                        let a = choose|a: int| 0 <= a < p0.len() && p0[a].labels.contains(m);
                        assert(p1[a].labels.contains(m));
                    }
                    if is_user_label(m) && views(labels@).contains(m) {
                        assert(p1[p0.len() as int].labels.contains(m));
                    }
                }
                assert(views(acc@).to_set() =~= user_labels_of(p1));
            }
            i = i + 1;
        }
        assert(iv.take(issues@.len() as int) =~= iv);
        proof {
            lemma_sorted_elements_is(user_labels_of(iv), views(acc@));
        }
        self.available_labels = acc;
    }

    /// The text that shows the active filter, e.g. `status:closed,open label:bug`.
    pub fn display_text(&self) -> (r: String)
        ensures
            r@ == display_spec(views(self.statuses@), views(self.labels@)),
            (r@.len() == 0) == (self.statuses@.len() == 0 && self.labels@.len() == 0),
    {
        let mut parts: Vec<String> = Vec::new();
        let ghost sv = views(self.statuses@);
        let ghost lv = views(self.labels@);
        if self.statuses.len() > 0 {
            let sorted = sorted_strings(&self.statuses);
            let mut part = to_owned_string("status:");
            let joined = join(&sorted, ",");
            part.append(joined.as_str());
            proof {
                lemma_views_push(parts@, part);
            }
            parts.push(part);
        }
        if self.labels.len() > 0 {
            let sorted = sorted_strings(&self.labels);
            let mut part = to_owned_string("label:");
            let joined = join(&sorted, ",");
            part.append(joined.as_str());
            proof {
                lemma_views_push(parts@, part);
            }
            parts.push(part);
        }
        let r = join(&parts, " ");
        proof {
            let s_part = "status:"@ + join_spec(sorted_elements(sv.to_set()), ","@);
            let l_part = "label:"@ + join_spec(sorted_elements(lv.to_set()), ","@);
            let expected = (if sv.len() > 0 {
                seq![s_part]
            } else {
                Seq::empty()
            }) + (if lv.len() > 0 {
                seq![l_part]
            } else {
                Seq::empty()
            });
            assert(views(parts@) =~= expected);
            reveal_strlit("status:");
            reveal_strlit("label:");
            assert(s_part.len() > 0);
            assert(l_part.len() > 0);
            if expected.len() == 2 {
                assert(expected.drop_last() =~= seq![s_part]);
            }
        }
        r
    }
}

/// Adds `x` to `v` unless an equal string is there.
fn insert_unique(v: &mut Vec<String>, x: String)
    requires
        views(old(v)@).no_duplicates(),
    ensures
        views(final(v)@).no_duplicates(),
        views(final(v)@).to_set() == views(old(v)@).to_set().insert(x@),
{
    if contains_str(v, x.as_str()) {
        assert(views(v@).to_set().insert(x@) =~= views(v@).to_set());
        return ;
    }
    let ghost before = views(v@);
    proof {
        lemma_views_push(v@, x);
        before.lemma_push_to_set_commute(x@);
    }
    v.push(x);
    assert forall|a: int, b: int|
        0 <= a < views(v@).len() && 0 <= b < views(v@).len() && a != b implies views(v@)[a]
        != views(v@)[b] by {
        if a < before.len() && b < before.len() {
        } else if a == before.len() {
            assert(before.contains(before[b]));
        } else {
            assert(before.contains(before[a]));
        }
    }
}

/// The distinct strings among `v`, each once.
pub fn unique_strings(v: &Vec<&str>) -> (r: Vec<String>)
    ensures
        views(r@).no_duplicates(),
        views(r@).to_set() == crate::selector::str_views(v@).to_set(),
{
    let mut r: Vec<String> = Vec::new();
    let mut i: usize = 0;
    assert(views(r@).to_set() =~= crate::selector::str_views(v@).take(0).to_set());
    while i < v.len()
        invariant
            i <= v@.len(),
            views(r@).no_duplicates(),
            views(r@).to_set() == crate::selector::str_views(v@).take(i as int).to_set(),
        decreases v@.len() - i,
    {
        proof {
            assert(crate::selector::str_views(v@).take(i + 1) =~= crate::selector::str_views(
                v@,
            ).take(i as int).push(v@[i as int]@));
            crate::selector::str_views(v@).take(i as int).lemma_push_to_set_commute(v@[i as int]@);
        }
        insert_unique(&mut r, String::from_str(v[i]));
        i = i + 1;
    }
    assert(crate::selector::str_views(v@).take(v@.len() as int) =~= crate::selector::str_views(v@));
    r
}

} // verus!
