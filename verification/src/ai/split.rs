//! The split workflow: ask the AI to break an issue into subtasks, which become its children.

use vstd::prelude::*;
use vstd::string::*;

use crate::ai::job::{agent_stream_args, agent_stream_command, JobMeta, WorkflowHandler};
use crate::ai::{description_section, description_section_spec, IdSet};
use crate::bd::{opt_view, Issue};
use crate::text::views;

verus! {

/// Start of the split prompt, up to the issue title.
pub const SPLIT_PROMPT_HEAD: &'static str = "You are a task decomposition assistant. Given the following issue, break it down into concrete, independently implementable subtasks.\n\nIssue Title: ";

/// End of the split prompt, after the title and description.
pub const SPLIT_PROMPT_TAIL: &'static str = "\n\nRules:\n- Each subtask should be a single, focused unit of work\n- Order subtasks by dependency (earlier tasks should not depend on later ones)\n- Each subtask should be completable in a single implementation session\n- Write titles as concise action items\n- Write descriptions with enough context for an AI to implement without additional guidance\n- Aim for 2-5 subtasks (fewer is better if the work is simple)\n\nRespond in JSON format exactly matching this structure:\n{\n  \"tasks\": [\n    {\n      \"title\": \"Short action item\",\n      \"description\": \"1-3 sentence description of what to implement and how\"\n    }\n  ]\n}\n\nImportant:\n- Output only valid JSON, no markdown fences or extra text\n- Write in the same language as the issue title";

/// What the split prompt is built from.
pub struct SplitRequest {
    pub issue_id: String,
    pub title: String,
    pub description: Option<String>,
}

/// What the AI answers: the subtasks.
pub struct SplitResult {
    pub tasks: Vec<TaskDef>,
}

/// One subtask: a title and a description.
pub struct TaskDef {
    pub title: String,
    pub description: String,
}

/// The split prompt for an issue: head, title, description section, tail.
pub open spec fn split_prompt_spec(title: Seq<char>, desc: Option<Seq<char>>) -> Seq<char> {
    SPLIT_PROMPT_HEAD@ + title + description_section_spec(desc) + SPLIT_PROMPT_TAIL@
}

/// The split prompt for a request.
pub fn build_prompt(request: &SplitRequest) -> (r: String)
    ensures
        r@ == split_prompt_spec(request.title@, opt_view(request.description)),
{
    let mut r = String::from_str(SPLIT_PROMPT_HEAD);
    r.append(request.title.as_str());
    let section = description_section(&request.description);
    r.append(section.as_str());
    r.append(SPLIT_PROMPT_TAIL);
    r
}

/// What a running split job reports.
pub enum SplitEvent {
    Started { issue_id: String },
    Completed { issue_id: String, task_count: usize },
    Failed { issue_id: String, error: String },
}

/// What handling a split event amounts to, for the caller to act on.
pub enum SplitOutcome {
    Started { issue_id: String },
    Completed { issue_id: String, task_count: usize },
    Failed { issue_id: String, error: String },
}

/// Which issues are being split.
pub struct SplitManager {
    splitting_ids: IdSet,
}

impl SplitManager {
    /// The ids of the issues being split.
    pub closed spec fn splitting(&self) -> Set<Seq<char>> {
        self.splitting_ids.set()
    }

    /// The manager's internal invariant.
    pub closed spec fn wf(&self) -> bool {
        self.splitting_ids.wf()
    }

    /// A manager with nothing running.
    pub fn new() -> (m: SplitManager)
        ensures
            m.wf(),
            m.splitting() == Set::<Seq<char>>::empty(),
    {
        SplitManager { splitting_ids: IdSet::new() }
    }

    /// Whether a split of `issue_id` is running.
    pub fn is_splitting(&self, issue_id: &str) -> (b: bool)
        ensures
            b == self.splitting().contains(issue_id@),
    {
        self.splitting_ids.contains(issue_id)
    }

    /// Marks `issue` as being split; true when it was not already, which is when the caller
    /// launches the job.
    pub fn start(&mut self, issue: &Issue) -> (started: bool)
        requires
            old(self).wf(),
        ensures
            final(self).wf(),
            started == !old(self).splitting().contains(issue.id@),
            final(self).splitting() == old(self).splitting().insert(issue.id@),
    {
        if self.splitting_ids.contains(issue.id.as_str()) {
            assert(self.splitting().insert(issue.id@) =~= self.splitting());
            return false;
        }
        self.splitting_ids.insert(issue.id.as_str());
        true
    }

    /// Marks the jobs found running at start-up.
    pub fn restore_jobs(&mut self, issue_ids: &Vec<String>)
        requires
            old(self).wf(),
        ensures
            final(self).wf(),
            final(self).splitting() == old(self).splitting().union(views(issue_ids@).to_set()),
    {
        let ghost before = self.splitting();
        let mut i: usize = 0;
        while i < issue_ids.len()
            invariant
                i <= issue_ids@.len(),
                self.wf(),
                before == old(self).splitting(),
                self.splitting() == before.union(views(issue_ids@).take(i as int).to_set()),
            decreases issue_ids@.len() - i,
        {
            proof {
                assert(views(issue_ids@).take(i + 1) =~= views(issue_ids@).take(i as int).push(
                    issue_ids@[i as int]@,
                ));
                views(issue_ids@).take(i as int).lemma_push_to_set_commute(issue_ids@[i as int]@);
            }
            self.splitting_ids.insert(issue_ids[i].as_str());
            assert(self.splitting() =~= before.union(views(issue_ids@).take(i + 1).to_set()));
            i = i + 1;
        }
        assert(views(issue_ids@).take(issue_ids@.len() as int) =~= views(issue_ids@));
    }

    /// Handles a job's report: a finished or failed job is no longer running.
    pub fn handle_event(&mut self, event: SplitEvent) -> (o: SplitOutcome)
        requires
            old(self).wf(),
        ensures
            final(self).wf(),
            match event {
                SplitEvent::Started { issue_id } => o == (SplitOutcome::Started { issue_id })
                    && final(self).splitting() == old(self).splitting(),
                SplitEvent::Completed { issue_id, task_count } => o == (SplitOutcome::Completed {
                    issue_id,
                    task_count,
                }) && final(self).splitting() == old(self).splitting().remove(issue_id@),
                SplitEvent::Failed { issue_id, error } => o == (SplitOutcome::Failed {
                    issue_id,
                    error,
                }) && final(self).splitting() == old(self).splitting().remove(issue_id@),
            },
    {
        match event {
            SplitEvent::Started { issue_id } => SplitOutcome::Started { issue_id },
            SplitEvent::Completed { issue_id, task_count } => {
                self.splitting_ids.remove(issue_id.as_str());
                SplitOutcome::Completed { issue_id, task_count }
            },
            SplitEvent::Failed { issue_id, error } => {
                self.splitting_ids.remove(issue_id.as_str());
                SplitOutcome::Failed { issue_id, error }
            },
        }
    }
}

/// The split workflow's part in running a job.
pub struct SplitHandler;

impl WorkflowHandler for SplitHandler {
    type Event = SplitEvent;
    type Config = ();

    fn workflow_name(&self) -> (r: &'static str)
        ensures
            r@ == "split"@,
    {
        "split"
    }

    fn build_command(&self, agent: &str, issue: &Issue, config: &()) -> (r: Vec<String>)
        ensures
            views(r@) == agent_stream_command(
                agent@,
                split_prompt_spec(issue@.title, issue@.description),
            ),
    {
        let prompt = build_prompt(
            &SplitRequest {
                issue_id: issue.id.clone(),
                title: issue.title.clone(),
                description: crate::bd::clone_opt_string(&issue.description),
            },
        );
        agent_stream_args(agent, prompt)
    }

    fn working_dir(&self, meta: &JobMeta, repo_dir: &str) -> (r: String)
        ensures
            r@ == repo_dir@,
    {
        String::from_str(repo_dir)
    }

    fn on_started(&self, issue_id: &str) -> (e: SplitEvent)
        ensures
            e matches SplitEvent::Started { issue_id: id } && id@ == issue_id@,
    {
        SplitEvent::Started { issue_id: String::from_str(issue_id) }
    }

    fn on_failed(&self, issue_id: &str, error: String) -> (e: SplitEvent)
        ensures
            e matches SplitEvent::Failed { issue_id: id, error: err } && id@ == issue_id@ && err
                == error,
    {
        SplitEvent::Failed { issue_id: String::from_str(issue_id), error }
    }
}

} // verus!
