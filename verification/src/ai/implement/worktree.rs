//! Reading the worktrees that implementation jobs left behind, from the porcelain listing of
//! `git worktree list`.

use vstd::prelude::*;
use vstd::string::*;

use super::{branch_name, branch_name_spec, epic_branch_name, epic_branch_name_spec, ImplJob, ImplJobView, ImplStatus, ImplStatusView};
use crate::bd::{opt_view, short_id, short_id_spec};
use crate::paths::{file_name_of, path_file_name};
use crate::text::{
    chars_of, has_prefix, last_index_of, lines, lines_spec, starts_with, str_eq, trim, trim_spec,
    views,
};

verus! {

/// Index of the first blank line separator (`\n\n`) in `s`, or -1.
pub open spec fn blank_line_index(s: Seq<char>) -> int
    decreases s.len(),
{
    if s.len() < 2 {
        -1
    } else if s[0] == '\n' && s[1] == '\n' {
        0
    } else {
        let r = blank_line_index(s.drop_first());
        if r < 0 {
            -1
        } else {
            r + 1
        }
    }
}

/// A blank line separator starts at `k` in `s`.
pub open spec fn blank_at(s: Seq<char>, k: int) -> bool {
    0 <= k && k + 1 < s.len() && s[k] == '\n' && s[k + 1] == '\n'
}

/// `blank_line_index` is -1 or the first place where a blank line separator starts.
pub proof fn lemma_blank_line_index(s: Seq<char>)
    ensures
        -1 <= blank_line_index(s),
        blank_line_index(s) >= 0 ==> blank_at(s, blank_line_index(s)),
        forall|k: int|
            0 <= k && (blank_line_index(s) < 0 || k < blank_line_index(s)) ==> !blank_at(s, k),
    decreases s.len(),
{
    if s.len() >= 2 && !(s[0] == '\n' && s[1] == '\n') {
        let t = s.drop_first();
        lemma_blank_line_index(t);
        assert forall|k: int|
            0 <= k && (blank_line_index(s) < 0 || k < blank_line_index(s)) implies !blank_at(
            s,
            k,
        ) by {
            if k > 0 {
                assert(!blank_at(t, k - 1));
                if k + 1 < s.len() {
                    assert(t[k - 1] == s[k] && t[k] == s[k + 1]);
                }
            }
        }
        if blank_line_index(s) >= 0 {
            let r = blank_line_index(t);
            assert(t[r] == s[r + 1] && t[r + 1] == s[r + 2]);
        }
    }
}

/// The pieces of `s` between blank line separators, as `str::split("\n\n")` yields them.
pub open spec fn blocks_spec(s: Seq<char>) -> Seq<Seq<char>>
    decreases s.len(),
{
    let i = blank_line_index(s);
    if i < 0 {
        seq![s]
    } else {
        proof {
            lemma_blank_line_index(s);
        }
        seq![s.take(i)] + blocks_spec(s.skip(i + 2))
    }
}

/// The pieces of `s` between blank line separators.
pub fn split_blocks(s: &str) -> (r: Vec<String>)
    ensures
        views(r@) == blocks_spec(s@),
{
    let v = chars_of(s);
    let mut r: Vec<String> = Vec::new();
    let mut start: usize = 0;
    let mut i: usize = 0;
    assert(s@.skip(0) =~= s@);
    assert(views(r@) =~= Seq::<Seq<char>>::empty());
    while i < v.len()
        invariant
            v@ == s@,
            start <= i <= v@.len(),
            forall|k: int| start <= k < i ==> !blank_at(s@, k),
            blocks_spec(s@) == views(r@) + blocks_spec(s@.skip(start as int)),
        decreases v@.len() - i,
    {
        if v[i] == '\n' && i + 1 < v.len() && v[i + 1] == '\n' {
            let ghost t = s@.skip(start as int);
            proof {
                lemma_blank_line_index(t);
                assert forall|k: int| 0 <= k < i - start implies !blank_at(t, k) by {
                    assert(!blank_at(s@, k + start));
                    if k + 1 < t.len() {
                        assert(t[k] == s@[k + start] && t[k + 1] == s@[k + start + 1]);
                    }
                }
                assert(blank_at(t, i - start)) by {
                    assert(t[i - start] == s@[i as int] && t[i - start + 1] == s@[i + 1]);
                }
                assert(blank_line_index(t) == i - start);
                assert(t.take(i - start) =~= s@.subrange(start as int, i as int));
                assert(t.skip(i - start + 2) =~= s@.skip(i + 2));
            }
            let piece = crate::text::string_from_chars(&v, start, i);
            proof {
                crate::text::lemma_views_push(r@, piece);
                assert(views(r@.push(piece)) + blocks_spec(s@.skip(i + 2)) =~= views(r@) + (seq![
                    t.take(i - start),
                ] + blocks_spec(s@.skip(i + 2))));
            }
            r.push(piece);
            start = i + 2;
            i = i + 2;
        } else {
            i = i + 1;
        }
    }
    let ghost t = s@.skip(start as int);
    proof {
        lemma_blank_line_index(t);
        if blank_line_index(t) >= 0 {
            let b = blank_line_index(t);
            assert(t[b] == s@[b + start] && t[b + 1] == s@[b + start + 1]);
            assert(blank_at(s@, b + start));
        }
        assert(t =~= s@.subrange(start as int, v@.len() as int));
    }
    let piece = crate::text::string_from_chars(&v, start, v.len());
    proof {
        crate::text::lemma_views_push(r@, piece);
        assert(views(r@.push(piece)) =~= views(r@) + blocks_spec(t));
    }
    r.push(piece);
    r
}

/// The path on the first `worktree <path>` line among `ls`.
pub open spec fn first_worktree_line(ls: Seq<Seq<char>>) -> Option<Seq<char>>
    decreases ls.len(),
{
    if ls.len() == 0 {
        None
    } else if has_prefix(ls[0], "worktree "@) {
        Some(ls[0].skip(9))
    } else {
        first_worktree_line(ls.drop_first())
    }
}

/// The first id among `ids` whose short form is `sid`.
pub open spec fn id_with_short_id(ids: Seq<Seq<char>>, sid: Seq<char>) -> Option<Seq<char>>
    decreases ids.len(),
{
    if ids.len() == 0 {
        None
    } else if short_id_spec(ids[0]) == sid {
        Some(ids[0])
    } else {
        id_with_short_id(ids.drop_first(), sid)
    }
}

/// A listing block that describes the worktree of one of `ids`: its path and the issue id,
/// when the block names a worktree whose directory is `strand-impl-<short id>` of one of them.
pub open spec fn worktree_candidate(block: Seq<char>, ids: Seq<Seq<char>>) -> Option<
    (Seq<char>, Seq<char>),
> {
    match first_worktree_line(lines_spec(block)) {
        None => None,
        Some(path) => match path_file_name(path) {
            None => None,
            Some(name) => if has_prefix(name, "strand-impl-"@) {
                match id_with_short_id(ids, name.skip(12)) {
                    Some(id) => Some((path, id)),
                    None => None,
                }
            } else {
                None
            },
        },
    }
}

/// The implementation worktrees in a listing, in order: path and issue id of each.
pub open spec fn candidates_spec(blocks: Seq<Seq<char>>, ids: Seq<Seq<char>>) -> Seq<
    (Seq<char>, Seq<char>),
>
    decreases blocks.len(),
{
    if blocks.len() == 0 {
        Seq::empty()
    } else {
        let rest = candidates_spec(blocks.drop_last(), ids);
        match worktree_candidate(blocks.last(), ids) {
            Some(c) => rest.push(c),
            None => rest,
        }
    }
}

/// The candidates of a listing split in two are those of the first part followed by those of
/// the second: every block contributes its own candidate, whatever came before it.
pub proof fn law_candidates_concat(b1: Seq<Seq<char>>, b2: Seq<Seq<char>>, ids: Seq<Seq<char>>)
    ensures
        candidates_spec(b1 + b2, ids) == candidates_spec(b1, ids) + candidates_spec(b2, ids),
    decreases b2.len(),
{
    if b2.len() == 0 {
        assert(b1 + b2 =~= b1);
        assert(candidates_spec(b1, ids) + candidates_spec(b2, ids) =~= candidates_spec(b1, ids));
    } else {
        assert((b1 + b2).drop_last() =~= b1 + b2.drop_last());
        assert((b1 + b2).last() == b2.last());
        law_candidates_concat(b1, b2.drop_last(), ids);
        match worktree_candidate(b2.last(), ids) {
            Some(c) => {
                assert(candidates_spec(b1, ids) + candidates_spec(b2.drop_last(), ids).push(c)
                    =~= (candidates_spec(b1, ids) + candidates_spec(b2.drop_last(), ids)).push(c));
            },
            None => {},
        }
    }
}

/// A single block yields its candidate, or nothing.
pub proof fn law_candidates_single(b: Seq<char>, ids: Seq<Seq<char>>)
    ensures
        candidates_spec(seq![b], ids) == match worktree_candidate(b, ids) {
            Some(c) => seq![c],
            None => Seq::<(Seq<char>, Seq<char>)>::empty(),
        },
{
    assert(seq![b].drop_last() =~= Seq::<Seq<char>>::empty());
    assert(candidates_spec(Seq::<Seq<char>>::empty(), ids) == Seq::<(Seq<char>, Seq<char>)>::empty());
    assert(candidates_spec(seq![b], ids) == match worktree_candidate(b, ids) {
        Some(c) => candidates_spec(Seq::<Seq<char>>::empty(), ids).push(c),
        None => candidates_spec(Seq::<Seq<char>>::empty(), ids),
    });
    match worktree_candidate(b, ids) {
        Some(c) => {
            assert(Seq::<(Seq<char>, Seq<char>)>::empty().push(c) =~= seq![c]);
        },
        None => {},
    }
}

/// There are as many candidates as blocks that name a worktree of a known issue, and every
/// such block's candidate is among them.
pub proof fn law_candidates_count(blocks: Seq<Seq<char>>, ids: Seq<Seq<char>>)
    ensures
        candidates_spec(blocks, ids).len() == blocks.filter(
            |b: Seq<char>| worktree_candidate(b, ids) is Some,
        ).len(),
        forall|k: int|
            0 <= k < blocks.len() && (#[trigger] worktree_candidate(blocks[k], ids)) is Some
                ==> candidates_spec(blocks, ids).contains(worktree_candidate(blocks[k], ids)->0),
    decreases blocks.len(),
{
    let pred = |b: Seq<char>| worktree_candidate(b, ids) is Some;
    if blocks.len() > 0 {
        let init = blocks.drop_last();
        law_candidates_count(init, ids);
        reveal_with_fuel(Seq::filter, 1);
        assert(blocks.drop_last() =~= init);
        let rest = candidates_spec(init, ids);
        assert forall|k: int|
            0 <= k < blocks.len() && (#[trigger] worktree_candidate(blocks[k], ids)) is Some
                implies candidates_spec(blocks, ids).contains(
                worktree_candidate(blocks[k], ids)->0,
            ) by {
            let c = worktree_candidate(blocks[k], ids)->0;
            if k < init.len() {
                assert(init[k] == blocks[k]);
                assert(rest.contains(c));
                let j = choose|j: int| 0 <= j < rest.len() && rest[j] == c;
                match worktree_candidate(blocks.last(), ids) {
                    Some(d) => {
                        assert(rest.push(d)[j] == c);
                    },
                    None => {},
                }
            } else {
                assert(blocks[k] == blocks.last());
                assert(rest.push(c)[rest.len() as int] == c);
            }
        }
    }
}

/// The path of the first `worktree <path>` line of a block.
fn worktree_line_of(block: &str) -> (r: Option<String>)
    ensures
        opt_view(r) == first_worktree_line(lines_spec(block@)),
{
    let ls = lines(block);
    let mut i: usize = 0;
    assert(lines_spec(block@).skip(0) =~= lines_spec(block@));
    while i < ls.len()
        invariant
            i <= ls@.len(),
            views(ls@) == lines_spec(block@),
            first_worktree_line(lines_spec(block@)) == first_worktree_line(
                lines_spec(block@).skip(i as int),
            ),
        decreases ls@.len() - i,
    {
        let ghost rest = lines_spec(block@).skip(i as int);
        assert(rest[0] == ls@[i as int]@);
        assert(rest.drop_first() =~= lines_spec(block@).skip(i + 1));
        if starts_with(ls[i].as_str(), "worktree ") {
            proof {
                reveal_strlit("worktree ");
            }
            let n = chars_of(ls[i].as_str()).len();
            return Some(String::from_str(ls[i].as_str().substring_char(9, n)));
        }
        i = i + 1;
    }
    None
}

/// The first of `ids` whose short form is `sid`.
fn find_by_short_id(ids: &Vec<String>, sid: &str) -> (r: Option<String>)
    ensures
        opt_view(r) == id_with_short_id(views(ids@), sid@),
{
    let mut i: usize = 0;
    assert(views(ids@).skip(0) =~= views(ids@));
    while i < ids.len()
        invariant
            i <= ids@.len(),
            id_with_short_id(views(ids@), sid@) == id_with_short_id(views(ids@).skip(i as int), sid@),
        decreases ids@.len() - i,
    {
        let ghost rest = views(ids@).skip(i as int);
        assert(rest[0] == ids@[i as int]@);
        assert(rest.drop_first() =~= views(ids@).skip(i + 1));
        if str_eq(short_id(ids[i].as_str()), sid) {
            return Some(ids[i].clone());
        }
        i = i + 1;
    }
    None
}

/// The path and issue id a listing block describes, if it is an implementation worktree.
fn candidate_of(block: &str, ids: &Vec<String>) -> (r: Option<(String, String)>)
    ensures
        match r {
            Some((p, id)) => worktree_candidate(block@, views(ids@)) == Some((p@, id@)),
            None => worktree_candidate(block@, views(ids@)) is None,
        },
{
    let path = match worktree_line_of(block) {
        Some(p) => p,
        None => return None,
    };
    let name = match file_name_of(path.as_str()) {
        Some(n) => n,
        None => return None,
    };
    if !starts_with(name.as_str(), "strand-impl-") {
        return None;
    }
    proof {
        reveal_strlit("strand-impl-");
    }
    let n = chars_of(name.as_str()).len();
    let sid = name.as_str().substring_char(12, n);
    match find_by_short_id(ids, sid) {
        Some(id) => Some((path, id)),
        None => None,
    }
}

/// The implementation worktrees in the porcelain output of `git worktree list`: path and
/// issue id of each, for the issues among `issue_ids`.
pub fn worktree_candidates(listing: &str, issue_ids: &Vec<String>) -> (r: Vec<(String, String)>)
    ensures
        r@.map_values(|c: (String, String)| (c.0@, c.1@)) == candidates_spec(
            blocks_spec(listing@),
            views(issue_ids@),
        ),
{
    let blocks = split_blocks(listing);
    let ghost bs = views(blocks@);
    let mut r: Vec<(String, String)> = Vec::new();
    let mut i: usize = 0;
    while i < blocks.len()
        invariant
            i <= blocks@.len(),
            bs == views(blocks@),
            bs == blocks_spec(listing@),
            r@.map_values(|c: (String, String)| (c.0@, c.1@)) == candidates_spec(
                bs.take(i as int),
                views(issue_ids@),
            ),
        decreases blocks@.len() - i,
    {
        assert(bs.take(i + 1).drop_last() =~= bs.take(i as int));
        assert(bs.take(i + 1).last() == blocks@[i as int]@);
        let ghost before = r@;
        match candidate_of(blocks[i].as_str(), issue_ids) {
            Some(c) => {
                r.push(c);
                assert(r@.map_values(|c: (String, String)| (c.0@, c.1@)) =~= before.map_values(
                    |c: (String, String)| (c.0@, c.1@),
                ).push((r@.last().0@, r@.last().1@)));
            },
            None => {},
        }
        i = i + 1;
    }
    assert(bs.take(blocks@.len() as int) =~= bs);
    r
}

/// A child created under an epic gets the id `<epic id>.<n>`; the branch guessed for its
/// worktree is then the epic's branch, the one its implementation started from.
pub proof fn law_child_guess_is_epic_branch(epic_id: Seq<char>, n: Seq<char>)
    requires
        forall|k: int| 0 <= k < n.len() ==> n[k] != '.',
    ensures
        parent_epic_branch_spec(epic_id + "."@ + n) == Some(epic_branch_name_spec(epic_id)),
{
    reveal_strlit(".");
    assert(epic_id + "."@ + n =~= epic_id.push('.') + n);
    crate::text::lemma_last_index_of_after(epic_id, '.', n);
    assert((epic_id.push('.') + n).take(epic_id.len() as int) =~= epic_id);
}

/// Every worktree found belongs to one of the given issues, and its directory name is
/// `strand-impl-` and that issue's short id.
pub proof fn law_candidates_are_known(blocks: Seq<Seq<char>>, ids: Seq<Seq<char>>)
    ensures
        forall|i: int|
            0 <= i < candidates_spec(blocks, ids).len() ==> ids.contains(
                (#[trigger] candidates_spec(blocks, ids)[i]).1,
            ) && path_file_name(candidates_spec(blocks, ids)[i].0) == Some(
                "strand-impl-"@ + short_id_spec(candidates_spec(blocks, ids)[i].1),
            ),
    decreases blocks.len(),
{
    reveal_strlit("strand-impl-");
    if blocks.len() > 0 {
        let p = blocks.drop_last();
        law_candidates_are_known(p, ids);
        let rest = candidates_spec(p, ids);
        match worktree_candidate(blocks.last(), ids) {
            Some(c) => {
                let path = first_worktree_line(lines_spec(blocks.last())).unwrap();
                let name = path_file_name(path).unwrap();
                lemma_id_with_short_id(ids, name.skip(12));
                assert(name =~= "strand-impl-"@ + name.skip(12));
                assert forall|i: int|
                    0 <= i < candidates_spec(blocks, ids).len() implies ids.contains(
                    (#[trigger] candidates_spec(blocks, ids)[i]).1,
                ) && path_file_name(candidates_spec(blocks, ids)[i].0) == Some(
                    "strand-impl-"@ + short_id_spec(candidates_spec(blocks, ids)[i].1),
                ) by {
                    if i < rest.len() {
                        assert(candidates_spec(blocks, ids)[i] == rest[i]);
                    }
                }
            },
            None => {},
        }
    }
}

proof fn lemma_id_with_short_id(ids: Seq<Seq<char>>, sid: Seq<char>)
    ensures
        match id_with_short_id(ids, sid) {
            Some(id) => ids.contains(id) && short_id_spec(id) == sid,
            None => true,
        },
    decreases ids.len(),
{
    if ids.len() > 0 && short_id_spec(ids[0]) != sid {
        lemma_id_with_short_id(ids.drop_first(), sid);
        match id_with_short_id(ids, sid) {
            Some(id) => {
                let k = choose|k: int| 0 <= k < ids.drop_first().len() && ids.drop_first()[k] == id;
                assert(ids[k + 1] == id);
            },
            None => {},
        }
    } else if ids.len() > 0 {
        assert(ids[0] == ids[0]);
    }
}

/// The epic branch an issue's implementation may have started from: `epic/<parent id>`, the
/// parent id being the issue id up to its last `.`.
pub open spec fn parent_epic_branch_spec(issue_id: Seq<char>) -> Option<Seq<char>> {
    let d = last_index_of(issue_id, '.');
    if d < 0 {
        None
    } else {
        Some(epic_branch_name_spec(issue_id.take(d)))
    }
}

/// The epic branch an issue's implementation may have started from.
pub fn parent_epic_branch(issue_id: &str) -> (r: Option<String>)
    ensures
        opt_view(r) == parent_epic_branch_spec(issue_id@),
{
    let v = chars_of(issue_id);
    let mut j: usize = v.len();
    assert(issue_id@.take(j as int) =~= issue_id@);
    while j > 0 && v[j - 1] != '.'
        invariant
            v@ == issue_id@,
            j <= v@.len(),
            last_index_of(issue_id@, '.') == last_index_of(issue_id@.take(j as int), '.'),
        decreases j,
    {
        assert(issue_id@.take(j as int).drop_last() =~= issue_id@.take(j - 1));
        j = j - 1;
    }
    if j == 0 {
        return None;
    }
    assert(issue_id@.take(j as int).last() == '.');
    assert(issue_id@.take(j - 1) =~= issue_id@.subrange(0, j - 1));
    Some(epic_branch_name(issue_id.substring_char(0, j - 1)))
}

/// The branch the commits of a found worktree are counted from: the guessed epic branch when
/// it exists, else master.
pub fn base_branch(epic_branch: Option<String>, epic_branch_exists: bool) -> (r: String)
    ensures
        r@ == (match epic_branch {
            Some(b) => if epic_branch_exists {
                b@
            } else {
                "master"@
            },
            None => "master"@,
        }),
{
    match epic_branch {
        Some(b) => if epic_branch_exists {
            b
        } else {
            String::from_str("master")
        },
        None => String::from_str("master"),
    }
}

/// A command's output, trimmed, when anything is left.
pub open spec fn nonempty_trimmed_spec(s: Seq<char>) -> Option<Seq<char>> {
    if trim_spec(s).len() == 0 {
        None
    } else {
        Some(trim_spec(s))
    }
}

/// A command's output, trimmed, when anything is left.
pub fn nonempty_trimmed(s: &str) -> (r: Option<String>)
    ensures
        opt_view(r) == nonempty_trimmed_spec(s@),
{
    let t = trim(s);
    if chars_of(t).len() == 0 {
        None
    } else {
        Some(String::from_str(t))
    }
}

/// The job restored from a worktree left behind: done when its branch has commits of its own
/// (finished at `completed_at`), else interrupted; with the session recorded in the worktree.
pub open spec fn discovered_job_spec(
    path: Seq<char>,
    issue_id: Seq<char>,
    has_commits: bool,
    completed_at: Option<Seq<char>>,
    session_id: Option<Seq<char>>,
) -> ImplJobView {
    ImplJobView {
        issue_id,
        branch: branch_name_spec(issue_id),
        worktree_path: path,
        status: if has_commits {
            ImplStatusView::Done
        } else {
            ImplStatusView::Interrupted
        },
        completed_at: if has_commits {
            completed_at
        } else {
            None
        },
        session_id,
    }
}

/// The job restored from a worktree left behind.
pub fn discovered_job(
    path: String,
    issue_id: String,
    has_commits: bool,
    completed_at: Option<String>,
    session_id: Option<String>,
) -> (j: ImplJob)
    ensures
        j@ == discovered_job_spec(
            path@,
            issue_id@,
            has_commits,
            opt_view(completed_at),
            opt_view(session_id),
        ),
{
    let branch = branch_name(issue_id.as_str());
    ImplJob {
        issue_id,
        branch,
        worktree_path: path,
        status: if has_commits {
            ImplStatus::Done
        } else {
            ImplStatus::Interrupted
        },
        completed_at: if has_commits {
            completed_at
        } else {
            None
        },
        session_id,
    }
}

} // verus!
