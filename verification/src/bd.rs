//! The issue record that the `bd` tool reports, and the pure parts of its commands.

use vstd::prelude::*;
use vstd::string::*;

use crate::text::{chars_of, last_index_of, lemma_views_push, lemma_views_take, str_eq, views};

verus! {

/// One issue as `bd list --json` / `bd show --json` reports it.
#[derive(Debug)]
pub struct Issue {
    pub id: String,
    pub title: String,
    pub status: String,
    pub priority: Option<u8>,
    pub description: Option<String>,
    pub labels: Vec<String>,
    pub issue_type: Option<String>,
    pub updated_at: Option<String>,
    pub estimate: Option<u32>,
}

/// The mathematical value of an [`Issue`].
pub struct IssueView {
    pub id: Seq<char>,
    pub title: Seq<char>,
    pub status: Seq<char>,
    pub priority: Option<u8>,
    pub description: Option<Seq<char>>,
    pub labels: Seq<Seq<char>>,
    pub issue_type: Option<Seq<char>>,
    pub updated_at: Option<Seq<char>>,
    pub estimate: Option<u32>,
}

/// The view of an optional string.
pub open spec fn opt_view(o: Option<String>) -> Option<Seq<char>> {
    match o {
        Some(s) => Some(s@),
        None => None,
    }
}

impl View for Issue {
    type V = IssueView;

    open spec fn view(&self) -> IssueView {
        IssueView {
            id: self.id@,
            title: self.title@,
            status: self.status@,
            priority: self.priority,
            description: opt_view(self.description),
            labels: views(self.labels@),
            issue_type: opt_view(self.issue_type),
            updated_at: opt_view(self.updated_at),
            estimate: self.estimate,
        }
    }
}

/// The views of a sequence of issues.
pub open spec fn issue_views(v: Seq<Issue>) -> Seq<IssueView> {
    v.map_values(|i: Issue| i@)
}

/// A copy of an optional string.
pub fn clone_opt_string(o: &Option<String>) -> (r: Option<String>)
    ensures
        opt_view(r) == opt_view(*o),
{
    match o {
        Some(s) => Some(s.clone()),
        None => None,
    }
}

/// A copy of a vector of strings.
pub fn clone_strings(v: &Vec<String>) -> (r: Vec<String>)
    ensures
        views(r@) == views(v@),
{
    let mut r: Vec<String> = Vec::new();
    let mut i: usize = 0;
    while i < v.len()
        invariant
            i <= v@.len(),
            views(r@) == views(v@.take(i as int)),
        decreases v@.len() - i,
    {
        let s = v[i].clone();
        proof {
            lemma_views_push(r@, s);
            lemma_views_take(v@, i as int);
        }
        r.push(s);
        i = i + 1;
    }
    assert(v@.take(v@.len() as int) =~= v@);
    r
}

impl Clone for Issue {
    fn clone(&self) -> (r: Self)
        ensures
            r@ == self@,
    {
        Issue {
            id: self.id.clone(),
            title: self.title.clone(),
            status: self.status.clone(),
            priority: self.priority,
            description: clone_opt_string(&self.description),
            labels: clone_strings(&self.labels),
            issue_type: clone_opt_string(&self.issue_type),
            updated_at: clone_opt_string(&self.updated_at),
            estimate: self.estimate,
        }
    }
}

/// The views grow by the view of a pushed issue.
pub proof fn lemma_issue_views_push(v: Seq<Issue>, x: Issue)
    ensures
        issue_views(v.push(x)) == issue_views(v).push(x@),
{
    assert(issue_views(v.push(x)) =~= issue_views(v).push(x@));
}

/// The views of a prefix grow by the view of the next issue.
pub proof fn lemma_issue_views_take(v: Seq<Issue>, i: int)
    requires
        0 <= i < v.len(),
    ensures
        issue_views(v.take(i + 1)) == issue_views(v.take(i)).push(v[i]@),
{
    assert(issue_views(v.take(i + 1)) =~= issue_views(v.take(i)).push(v[i]@));
}

/// The part of an issue id after its last `-` (the whole id when it has none).
pub open spec fn short_id_spec(id: Seq<char>) -> Seq<char> {
    id.skip(last_index_of(id, '-') + 1)
}

/// The short form of an issue id: what follows its last `-`, or the id itself.
pub fn short_id(id: &str) -> (r: &str)
    ensures
        r@ == short_id_spec(id@),
{
    let v = chars_of(id);
    let mut j: usize = v.len();
    assert(id@.take(j as int) =~= id@);
    while j > 0 && v[j - 1] != '-'
        invariant
            v@ == id@,
            j <= v@.len(),
            last_index_of(id@, '-') == last_index_of(id@.take(j as int), '-'),
        decreases j,
    {
        assert(id@.take(j as int).drop_last() =~= id@.take(j - 1));
        j = j - 1;
    }
    proof {
        if j > 0 {
            assert(id@.take(j as int).last() == '-');
        }
        crate::text::lemma_last_index_of_bounds(id@, '-');
    }
    id.substring_char(j, v.len())
}

/// The short id is the part after the last `-`: it holds no `-`, and it is what follows
/// `prefix-` when that part holds none.
pub proof fn law_short_id(prefix: Seq<char>, tail: Seq<char>, id: Seq<char>)
    ensures
        forall|k: int| 0 <= k < short_id_spec(id).len() ==> short_id_spec(id)[k] != '-',
        (forall|k: int| 0 <= k < tail.len() ==> tail[k] != '-') ==> short_id_spec(
            prefix + "-"@ + tail,
        ) == tail,
{
    crate::text::lemma_last_index_of_bounds(id, '-');
    assert forall|k: int| 0 <= k < short_id_spec(id).len() implies short_id_spec(id)[k] != '-' by {
        assert(short_id_spec(id)[k] == id[k + last_index_of(id, '-') + 1]);
    }
    if forall|k: int| 0 <= k < tail.len() ==> tail[k] != '-' {
        reveal_strlit("-");
        assert(prefix + "-"@ + tail =~= prefix.push('-') + tail);
        crate::text::lemma_last_index_of_after(prefix, '-', tail);
        assert((prefix.push('-') + tail).skip(prefix.len() + 1int) =~= tail);
    }
}

/// An issue that `bd::list_issues` keeps: not closed, and of type epic.
pub open spec fn is_open_epic(i: IssueView) -> bool {
    i.status != "closed"@ && i.issue_type == Some("epic"@)
}

/// Whether an issue is a not-closed epic.
pub fn issue_is_open_epic(issue: &Issue) -> (b: bool)
    ensures
        b == is_open_epic(issue@),
{
    if str_eq(issue.status.as_str(), "closed") {
        return false;
    }
    match &issue.issue_type {
        Some(t) => str_eq(t.as_str(), "epic"),
        None => false,
    }
}

/// An epic is on the top-level list exactly when it is not closed, whatever other status it
/// has (open, in progress, blocked, ...); an issue of another type never is.
pub proof fn law_open_epic_is_any_unclosed_epic(i: IssueView)
    ensures
        i.issue_type == Some("epic"@) ==> (is_open_epic(i) <==> i.status != "closed"@),
        i.issue_type != Some("epic"@) ==> !is_open_epic(i),
{
}

/// The issues the top-level list keeps of `issues`, in their order.
pub open spec fn open_epics_spec(issues: Seq<IssueView>) -> Seq<IssueView> {
    issues.filter(|i: IssueView| is_open_epic(i))
}

/// Every epic of the input that is not closed is kept by the top-level filter, and everything
/// kept is such an epic from the input.
pub proof fn law_open_epics_keep_every_unclosed_epic(issues: Seq<IssueView>)
    ensures
        forall|k: int|
            0 <= k < issues.len() && (#[trigger] issues[k]).issue_type == Some("epic"@)
                && issues[k].status != "closed"@ ==> open_epics_spec(issues).contains(issues[k]),
        forall|k: int|
            0 <= k < open_epics_spec(issues).len() ==> {
                &&& (#[trigger] open_epics_spec(issues)[k]).issue_type == Some("epic"@)
                &&& open_epics_spec(issues)[k].status != "closed"@
                &&& issues.contains(open_epics_spec(issues)[k])
            },
{
    let pred = |i: IssueView| is_open_epic(i);
    issues.filter_lemma(pred);
    assert(open_epics_spec(issues) == issues.filter(pred));
    assert forall|k: int| 0 <= k < issues.filter(pred).len() implies issues.contains(
        #[trigger] issues.filter(pred)[k],
    ) by {
        let x = issues.filter(pred)[k];
        assert(issues.filter(pred).contains(x));
        issues.lemma_filter_contains_rev(pred, x);
    }
}

/// The issues that the top-level list shows: the not-closed epics, in their order.
pub fn open_epics(issues: Vec<Issue>) -> (r: Vec<Issue>)
    ensures
        issue_views(r@) == issue_views(issues@).filter(|i: IssueView| is_open_epic(i)),
{
    let ghost pred = |i: IssueView| is_open_epic(i);
    let mut r: Vec<Issue> = Vec::new();
    let mut i: usize = 0;
    while i < issues.len()
        invariant
            i <= issues@.len(),
            pred == (|i: IssueView| is_open_epic(i)),
            issue_views(r@) == issue_views(issues@.take(i as int)).filter(pred),
        decreases issues@.len() - i,
    {
        let ghost before = issue_views(issues@.take(i as int));
        let ghost cur = issues@[i as int]@;
        proof {
            lemma_issue_views_take(issues@, i as int);
            reveal_with_fuel(Seq::filter, 1);
            assert(before.push(cur).drop_last() =~= before);
            assert(before.push(cur).filter(pred) == if pred(cur) {
                before.filter(pred).push(cur)
            } else {
                before.filter(pred)
            });
        }
        let keep = issue_is_open_epic(&issues[i]);
        if keep {
            let x = issues[i].clone();
            proof {
                lemma_issue_views_push(r@, x);
            }
            r.push(x);
        }
        i = i + 1;
    }
    assert(issues@.take(issues@.len() as int) =~= issues@);
    r
}

/// The description after appending `content` to `current` (`bd::append_to_description`).
pub open spec fn appended_description_spec(current: Option<Seq<char>>, content: Seq<char>) -> Seq<
    char,
> {
    let base = match current {
        Some(d) => d,
        None => Seq::empty(),
    };
    base + "\n\n"@ + content
}

/// The description after appending `content` to the current one, separated by a blank line.
pub fn appended_description(current: &Option<String>, content: &str) -> (r: String)
    ensures
        r@ == appended_description_spec(opt_view(*current), content@),
{
    let mut r = match current {
        Some(d) => d.clone(),
        None => String::new(),
    };
    r.append("\n\n");
    r.append(content);
    r
}

} // verus!
