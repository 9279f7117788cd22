//! The decisions behind the implementation operations: what may be merged, what the clipboard
//! gets.

use vstd::prelude::*;
use vstd::string::*;

use crate::ai::implement::manager::ImplManager;
use crate::bd::{issue_views, IssueView};
use crate::core_state::view::Screen;
use crate::core_state::Core;
use crate::text::{join, join_spec, str_eq, views};

verus! {

/// The ids of the children of the epic page that are not closed (none on another page).
pub open spec fn unclosed_spec(view: Screen) -> Seq<Seq<char>> {
    match view {
        Screen::EpicDetail { children, .. } => issue_views(children@).filter(
            |c: IssueView| c.status != "closed"@,
        ).map_values(|c: IssueView| c.id),
        _ => Seq::empty(),
    }
}

/// The ids of the children of the epic page that are not closed yet.
pub fn unclosed_children(core: &Core) -> (r: Vec<String>)
    ensures
        views(r@) == unclosed_spec(core.view),
{
    let mut r: Vec<String> = Vec::new();
    match &core.view {
        Screen::EpicDetail { children, .. } => {
            let ghost pred = |c: IssueView| c.status != "closed"@;
            let mut i: usize = 0;
            while i < children.len()
                invariant
                    i <= children@.len(),
                    pred == (|c: IssueView| c.status != "closed"@),
                    views(r@) == issue_views(children@.take(i as int)).filter(pred).map_values(
                        |c: IssueView| c.id,
                    ),
                decreases children@.len() - i,
            {
                let ghost before = issue_views(children@.take(i as int));
                let ghost cur = children@[i as int]@;
                proof {
                    crate::bd::lemma_issue_views_take(children@, i as int);
                    reveal_with_fuel(Seq::filter, 1);
                    assert(before.push(cur).drop_last() =~= before);
                }
                if !str_eq(children[i].status.as_str(), "closed") {
                    let id = children[i].id.clone();
                    proof {
                        crate::text::lemma_views_push(r@, id);
                    }
                    r.push(id);
                    assert(views(r@) =~= issue_views(children@.take(i + 1)).filter(pred).map_values(
                        |c: IssueView| c.id,
                    ));
                } else {
                    assert(views(r@) =~= issue_views(children@.take(i + 1)).filter(pred).map_values(
                        |c: IssueView| c.id,
                    ));
                }
                i = i + 1;
            }
            assert(children@.take(children@.len() as int) =~= children@);
        },
        _ => {
            assert(views(r@) =~= Seq::<Seq<char>>::empty());
        },
    }
    r
}

/// The notice that an epic cannot be merged yet: the unclosed children, comma separated.
pub fn unclosed_message(ids: &Vec<String>) -> (r: String)
    ensures
        r@ == "Unclosed children: "@ + join_spec(views(ids@), ", "@),
{
    let mut r = String::from_str("Unclosed children: ");
    let list = join(ids, ", ");
    r.append(list.as_str());
    r
}

/// The command that resumes the session of an implementation in its worktree.
pub open spec fn resume_command_spec(path: Seq<char>, agent: Seq<char>, session: Seq<char>) -> Seq<
    char,
> {
    "cd "@ + path + " && "@ + agent + " --dangerously-skip-permissions --resume "@ + session
}

/// What copying the resume command of `issue_id` gives: the command, or why there is none.
pub fn resume_command(manager: &ImplManager, issue_id: &str, agent: &str) -> (r: Result<String, &'static str>)
    requires
        manager.wf(),
    ensures
        match r {
            Ok(cmd) => manager.jobs().contains_key(issue_id@) && (manager.jobs()[issue_id@].session_id
                matches Some(s) && cmd@ == resume_command_spec(
                manager.jobs()[issue_id@].worktree_path,
                agent@,
                s,
            )),
            Err(msg) => (!manager.jobs().contains_key(issue_id@) && msg@ == "No impl job found"@)
                || (manager.jobs().contains_key(issue_id@) && manager.jobs()[issue_id@].session_id is None
                && msg@ == "No session ID available"@),
        },
{
    let job = match manager.get_job(issue_id) {
        Some(j) => j,
        None => return Err("No impl job found"),
    };
    let session = match &job.session_id {
        Some(s) => s,
        None => return Err("No session ID available"),
    };
    let mut cmd = String::from_str("cd ");
    cmd.append(job.worktree_path.as_str());
    cmd.append(" && ");
    cmd.append(agent);
    cmd.append(" --dangerously-skip-permissions --resume ");
    cmd.append(session.as_str());
    Ok(cmd)
}

/// What copying the worktree path of `issue_id` gives: the path, or why there is none.
pub fn worktree_path_to_copy(manager: &ImplManager, issue_id: &str) -> (r: Result<String, &'static str>)
    requires
        manager.wf(),
    ensures
        match r {
            Ok(p) => manager.jobs().contains_key(issue_id@) && p@ == manager.jobs()[issue_id@].worktree_path,
            Err(msg) => !manager.jobs().contains_key(issue_id@) && msg@ == "No impl job found"@,
        },
{
    match manager.get_job(issue_id) {
        Some(j) => Ok(j.worktree_path.clone()),
        None => Err("No impl job found"),
    }
}

} // verus!
