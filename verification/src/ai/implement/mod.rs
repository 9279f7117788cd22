//! The implement workflow: an AI works on an issue in a git worktree of its own, on a branch
//! of its own; the result is merged into the epic's branch or into master.

pub mod manager;
pub mod worktree;

use vstd::prelude::*;
use vstd::string::*;

use crate::ai::job::{agent_stream_args, agent_stream_command, JobMeta, ResultData, WorkflowHandler};
use crate::bd::{clone_opt_string, opt_view, short_id, short_id_spec, Issue};
use crate::paths::{join_path, parent_dir, path_join, path_parent};
use crate::text::views;

verus! {

/// Where an implementation job stands.
pub enum ImplStatus {
    Running,
    Done,
    Failed(String),
    Interrupted,
}

/// The view of an implementation status.
pub enum ImplStatusView {
    Running,
    Done,
    Failed(Seq<char>),
    Interrupted,
}

impl View for ImplStatus {
    type V = ImplStatusView;

    open spec fn view(&self) -> ImplStatusView {
        match self {
            ImplStatus::Running => ImplStatusView::Running,
            ImplStatus::Done => ImplStatusView::Done,
            ImplStatus::Failed(e) => ImplStatusView::Failed(e@),
            ImplStatus::Interrupted => ImplStatusView::Interrupted,
        }
    }
}

impl Clone for ImplStatus {
    fn clone(&self) -> (r: Self)
        ensures
            r@ == self@,
    {
        match self {
            ImplStatus::Running => ImplStatus::Running,
            ImplStatus::Done => ImplStatus::Done,
            ImplStatus::Failed(e) => ImplStatus::Failed(e.clone()),
            ImplStatus::Interrupted => ImplStatus::Interrupted,
        }
    }
}

/// An implementation job: the issue, its branch and worktree, where it stands, when it
/// finished and the AI session that did the work.
pub struct ImplJob {
    pub issue_id: String,
    pub branch: String,
    pub worktree_path: String,
    pub status: ImplStatus,
    pub completed_at: Option<String>,
    pub session_id: Option<String>,
}

/// The view of an implementation job.
pub struct ImplJobView {
    pub issue_id: Seq<char>,
    pub branch: Seq<char>,
    pub worktree_path: Seq<char>,
    pub status: ImplStatusView,
    pub completed_at: Option<Seq<char>>,
    pub session_id: Option<Seq<char>>,
}

impl View for ImplJob {
    type V = ImplJobView;

    open spec fn view(&self) -> ImplJobView {
        ImplJobView {
            issue_id: self.issue_id@,
            branch: self.branch@,
            worktree_path: self.worktree_path@,
            status: self.status@,
            completed_at: opt_view(self.completed_at),
            session_id: opt_view(self.session_id),
        }
    }
}

impl Clone for ImplJob {
    fn clone(&self) -> (r: Self)
        ensures
            r@ == self@,
    {
        ImplJob {
            issue_id: self.issue_id.clone(),
            branch: self.branch.clone(),
            worktree_path: self.worktree_path.clone(),
            status: self.status.clone(),
            completed_at: clone_opt_string(&self.completed_at),
            session_id: clone_opt_string(&self.session_id),
        }
    }
}

/// What a running implementation job reports.
pub enum ImplEvent {
    Started { issue_id: String },
    Completed { issue_id: String, summary: String, session_id: Option<String> },
    Failed { issue_id: String, error: String, session_id: Option<String> },
}

/// What handling an implementation event amounts to, for the caller to act on.
pub enum ImplOutcome {
    Started { issue_id: String },
    Completed { issue_id: String, summary: String },
    Failed { issue_id: String, error: String },
}

/// The settings an implementation job starts with: the epic whose branch it builds on.
pub struct ImplConfig {
    pub epic_id: Option<String>,
}

/// What an implementation prompt is built from, with the repository and the base branch.
pub struct ImplRequest {
    pub issue_id: String,
    pub title: String,
    pub description: Option<String>,
    pub design: Option<String>,
    pub repo_dir: String,
    pub base_branch: String,
}

/// The branch an issue is implemented on: `impl/<issue id>`.
pub open spec fn branch_name_spec(issue_id: Seq<char>) -> Seq<char> {
    "impl/"@ + issue_id
}

/// The branch an issue is implemented on.
pub fn branch_name(issue_id: &str) -> (r: String)
    ensures
        r@ == branch_name_spec(issue_id@),
{
    let mut r = String::from_str("impl/");
    r.append(issue_id);
    r
}

/// The branch an epic's children are merged into: `epic/<epic id>`.
pub open spec fn epic_branch_name_spec(epic_id: Seq<char>) -> Seq<char> {
    "epic/"@ + epic_id
}

/// The branch an epic's children are merged into.
pub fn epic_branch_name(epic_id: &str) -> (r: String)
    ensures
        r@ == epic_branch_name_spec(epic_id@),
{
    let mut r = String::from_str("epic/");
    r.append(epic_id);
    r
}

/// The directory worktrees are made in: the repository's parent directory, or the repository
/// itself when it has no parent.
pub open spec fn worktree_base(repo_dir: Seq<char>) -> Seq<char> {
    match path_parent(repo_dir) {
        Some(p) => p,
        None => repo_dir,
    }
}

/// The worktree of an issue: `strand-impl-<short id>` beside the repository (in the
/// repository's parent directory, or under the repository itself when it has no parent).
pub open spec fn worktree_path_spec(repo_dir: Seq<char>, issue_id: Seq<char>) -> Seq<char> {
    path_join(worktree_base(repo_dir), "strand-impl-"@ + short_id_spec(issue_id))
}

/// The worktree of an issue; with a base directory that is not empty and does not end in `/`,
/// it is `<base>/strand-impl-<short id>`.
pub fn worktree_path(repo_dir: &str, issue_id: &str) -> (r: String)
    ensures
        r@ == worktree_path_spec(repo_dir@, issue_id@),
        worktree_base(repo_dir@).len() > 0 && worktree_base(repo_dir@).last() != '/' ==> r@
            == worktree_base(repo_dir@) + "/strand-impl-"@ + short_id_spec(issue_id@),
{
    proof {
        reveal_strlit("strand-impl-");
        reveal_strlit("/");
        reveal_strlit("/strand-impl-");
        assert(("/"@ + "strand-impl-"@) =~= "/strand-impl-"@);
    }
    let base = match parent_dir(repo_dir) {
        Some(p) => p,
        None => String::from_str(repo_dir),
    };
    let mut name = String::from_str("strand-impl-");
    name.append(short_id(issue_id));
    join_path(base.as_str(), name.as_str())
}

/// The branch a finished implementation is merged into: the epic's branch, else master.
pub open spec fn merge_target_spec(epic_id: Option<Seq<char>>) -> Seq<char> {
    match epic_id {
        Some(e) => epic_branch_name_spec(e),
        None => "master"@,
    }
}

/// The branch a finished implementation is merged into.
pub fn merge_target(epic_id: Option<&str>) -> (r: String)
    ensures
        r@ == merge_target_spec(
            match epic_id {
                Some(e) => Some(e@),
                None => None,
            },
        ),
{
    match epic_id {
        Some(e) => epic_branch_name(e),
        None => String::from_str("master"),
    }
}

/// The instructions that end every implementation prompt.
pub const IMPL_INSTRUCTIONS: &'static str = "Implement the issue above. Create or edit files as needed and leave the code in a working state.\n\n## Commit rules\nWhen done, commit your changes. The commit message body must record the background and reasoning behind the implementation.\n\n```\n<type>: <concise summary of change>\n\n## Why\n- Why this change was necessary\n\n## What\n- Key files changed and summary of modifications\n\n## Decisions\n- Alternative approaches considered and why they were rejected\n- Rationale for the chosen approach\n```\n\n- Omit any section that does not apply\n- For trivial changes (typo, fmt, etc.) a title-only message is fine\n- Only include Decisions when multiple approaches were considered";

/// An implementation prompt: the title, the description and the design when there are any,
/// and the instructions, each part separated from the next by a blank line.
pub open spec fn impl_prompt_spec(
    title: Seq<char>,
    desc: Option<Seq<char>>,
    design: Option<Seq<char>>,
) -> Seq<char> {
    let d = match desc {
        Some(x) => "\n\nDescription:\n"@ + x,
        None => Seq::empty(),
    };
    let g = match design {
        Some(x) => "\n\nDesign:\n"@ + x,
        None => Seq::empty(),
    };
    "Issue: "@ + title + d + g + "\n\n"@ + IMPL_INSTRUCTIONS@
}

/// Builds an implementation prompt.
fn impl_prompt(title: &str, desc: &Option<String>, design: &Option<String>) -> (r: String)
    ensures
        r@ == impl_prompt_spec(title@, opt_view(*desc), opt_view(*design)),
{
    let mut r = String::from_str("Issue: ");
    r.append(title);
    if let Some(d) = desc {
        r.append("\n\nDescription:\n");
        r.append(d.as_str());
    }
    if let Some(g) = design {
        r.append("\n\nDesign:\n");
        r.append(g.as_str());
    }
    r.append("\n\n");
    r.append(IMPL_INSTRUCTIONS);
    r
}

/// The prompt of an implementation job for an issue (no design part).
pub fn build_prompt(issue: &Issue) -> (r: String)
    ensures
        r@ == impl_prompt_spec(issue@.title, issue@.description, None),
{
    impl_prompt(issue.title.as_str(), &issue.description, &None)
}

/// The prompt for an implementation request, design included.
pub fn build_request_prompt(request: &ImplRequest) -> (r: String)
    ensures
        r@ == impl_prompt_spec(request.title@, opt_view(request.description), opt_view(request.design)),
{
    impl_prompt(request.title.as_str(), &request.description, &request.design)
}

/// What a finished job appends to the issue's description.
pub open spec fn implementation_log_spec(result: Seq<char>) -> Seq<char> {
    "## Implementation Log\n"@ + result
}

/// What a finished job appends to the issue's description.
pub fn implementation_log(result: &str) -> (r: String)
    ensures
        r@ == implementation_log_spec(result@),
{
    let mut r = String::from_str("## Implementation Log\n");
    r.append(result);
    r
}

/// The implement workflow's part in running a job.
pub struct ImplHandler;

impl ImplHandler {
    /// The event that reports a finished job: its output text and AI session.
    pub fn completion_event(&self, result: ResultData, meta: &JobMeta) -> (e: ImplEvent)
        ensures
            e matches ImplEvent::Completed { issue_id: id, summary: s, session_id: sid } && id@
                == meta.issue_id@ && s == result.result && sid == result.session_id,
    {
        ImplEvent::Completed {
            issue_id: meta.issue_id.clone(),
            summary: result.result,
            session_id: result.session_id,
        }
    }
}

impl WorkflowHandler for ImplHandler {
    type Event = ImplEvent;
    type Config = ImplConfig;

    fn workflow_name(&self) -> (r: &'static str)
        ensures
            r@ == "impl"@,
    {
        "impl"
    }

    fn build_command(&self, agent: &str, issue: &Issue, config: &ImplConfig) -> (r: Vec<String>)
        ensures
            views(r@) == agent_stream_command(
                agent@,
                impl_prompt_spec(issue@.title, issue@.description, None),
            ).push("--dangerously-skip-permissions"@),
    {
        let prompt = build_prompt(issue);
        let mut r = agent_stream_args(agent, prompt);
        let flag = String::from_str("--dangerously-skip-permissions");
        proof {
            crate::text::lemma_views_push(r@, flag);
        }
        r.push(flag);
        r
    }

    fn working_dir(&self, meta: &JobMeta, repo_dir: &str) -> (r: String)
        ensures
            r@ == match opt_view(meta.worktree_path) {
                Some(w) => w,
                None => repo_dir@,
            },
    {
        match &meta.worktree_path {
            Some(w) => w.clone(),
            None => String::from_str(repo_dir),
        }
    }

    fn on_started(&self, issue_id: &str) -> (e: ImplEvent)
        ensures
            e matches ImplEvent::Started { issue_id: id } && id@ == issue_id@,
    {
        ImplEvent::Started { issue_id: String::from_str(issue_id) }
    }

    fn on_failed(&self, issue_id: &str, error: String) -> (e: ImplEvent)
        ensures
            e matches ImplEvent::Failed { issue_id: id, error: err, session_id: sid } && id@
                == issue_id@ && err == error && sid is None,
    {
        ImplEvent::Failed { issue_id: String::from_str(issue_id), error, session_id: None }
    }
}

} // verus!
