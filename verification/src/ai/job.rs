//! What the three workflows share: job records under `.strand/jobs/`, the command each one
//! runs, and reading a job's output.

use vstd::prelude::*;
use vstd::string::*;

use crate::ai::job_dir_name_spec;
use crate::bd::{opt_view, Issue};
use crate::paths::{is_absolute_path, join_path, path_join};
use crate::text::{has_prefix, starts_with};

verus! {

/// What a finished job left in its output: the final text and the AI session, if reported.
pub struct ResultData {
    pub result: String,
    pub session_id: Option<String>,
}

/// A job's record, kept as `meta.json` in its directory.
pub struct JobMeta {
    pub issue_id: String,
    pub workflow: String,
    pub worktree_path: Option<String>,
    pub started_at: String,
}

/// A job found running or finished: its record, its directory and its process.
pub struct ActiveJob {
    pub meta: JobMeta,
    pub job_dir: String,
    pub pid: u32,
}

/// What a workflow prepared before its job starts.
pub struct SetupContext {
    pub worktree_path: Option<String>,
}

/// What a workflow contributes to running a job: its name, the command line, the directory
/// to run in, and the events it reports.
pub trait WorkflowHandler {
    type Event;
    type Config;

    /// The workflow's name, which also names its job directories.
    fn workflow_name(&self) -> &'static str;

    /// The command line that runs the agent program `agent` for `issue`.
    fn build_command(&self, agent: &str, issue: &Issue, config: &Self::Config) -> Vec<String>;

    /// The directory the command runs in.
    fn working_dir(&self, meta: &JobMeta, repo_dir: &str) -> String;

    /// The event that reports a started job.
    fn on_started(&self, issue_id: &str) -> Self::Event;

    /// The event that reports a failed job.
    fn on_failed(&self, issue_id: &str, error: String) -> Self::Event;
}

/// The current time as RFC 3339 text in UTC: `DateTime::<Utc>::from(SystemTime::now())`, then
/// `to_rfc3339`, which writes the date, the time and the offset (also for a clock that reads
/// before 1970). Which instant it shows depends on the clock, so only that the text is not
/// empty is stated.
#[verifier::external_body]
fn utc_now_rfc3339() -> (r: String)
    ensures
        r@.len() > 0,
{
    chrono::DateTime::<chrono::Utc>::from(std::time::SystemTime::now()).to_rfc3339()
}

/// A new job record for `issue_id` in `workflow`, started now.
pub fn new_job_meta(issue_id: &str, workflow: &str, worktree_path: Option<String>) -> (m: JobMeta)
    ensures
        m.issue_id@ == issue_id@,
        m.workflow@ == workflow@,
        opt_view(m.worktree_path) == opt_view(worktree_path),
        m.started_at@.len() > 0,
{
    JobMeta {
        issue_id: String::from_str(issue_id),
        workflow: String::from_str(workflow),
        worktree_path,
        started_at: utc_now_rfc3339(),
    }
}

/// The directory of a job: `<workflow>-<short id>` under the jobs directory; with a jobs
/// directory that is not empty and does not end in `/`, and a workflow name that does not start
/// with `/`, it is `<jobs dir>/<workflow>-<short id>`.
pub fn job_dir_path(jobs_dir: &str, workflow: &str, short_id: &str) -> (r: String)
    ensures
        r@ == path_join(jobs_dir@, job_dir_name_spec(workflow@, short_id@)),
        jobs_dir@.len() > 0 && jobs_dir@.last() != '/' && !is_absolute_path(workflow@) ==> r@
            == jobs_dir@ + "/"@ + job_dir_name_spec(workflow@, short_id@),
{
    proof {
        reveal_strlit("-");
        let n = job_dir_name_spec(workflow@, short_id@);
        assert(n.len() > 0);
        if workflow@.len() > 0 {
            assert(n[0] == workflow@[0]);
        } else {
            assert(n[0] == '-');
        }
    }
    let mut name = String::from_str(workflow);
    name.append("-");
    name.append(short_id);
    join_path(jobs_dir, name.as_str())
}

/// Whether a directory name under `.strand/jobs/` belongs to `workflow`.
pub fn is_job_dir_of(name: &str, workflow: &str) -> (b: bool)
    ensures
        b == has_prefix(name@, workflow@ + "-"@),
{
    let mut prefix = String::from_str(workflow);
    prefix.append("-");
    starts_with(name, prefix.as_str())
}

/// The `type`, `result` and `session_id` string fields of a JSON line, or `None` when the line
/// is not JSON; as `serde_json` reads them.
pub uninterp spec fn json_line_fields(line: Seq<char>) -> Option<
    (Option<Seq<char>>, Option<Seq<char>>, Option<Seq<char>>),
>;

/// Parses one output line with `serde_json::from_str` into a `serde_json::Value` and reads its
/// `type`, `result` and `session_id` members as strings (`None` where a member is missing or
/// not a string); `None` when the line is not valid JSON. Named by `json_line_fields`.
#[verifier::external_body]
fn json_line(line: &str) -> (r: Option<(Option<String>, Option<String>, Option<String>)>)
    ensures
        match r {
            Some((t, res, sid)) => json_line_fields(line@) == Some(
                (opt_view(t), opt_view(res), opt_view(sid)),
            ),
            None => json_line_fields(line@) is None,
        },
{
    match serde_json::from_str::<serde_json::Value>(line) {
        Ok(v) => Some((
            v.get("type").and_then(|t| t.as_str()).map(|t| t.to_string()),
            v.get("result").and_then(|t| t.as_str()).map(|t| t.to_string()),
            v.get("session_id").and_then(|t| t.as_str()).map(|t| t.to_string()),
        )),
        Err(_) => None,
    }
}

/// The result text (empty when missing) and session of the last line that is JSON and whose
/// `type` is `result`, if there is one; lines that are not JSON are passed over.
pub open spec fn last_result_line(lines: Seq<Seq<char>>) -> Option<(Seq<char>, Option<Seq<char>>)>
    decreases lines.len(),
{
    if lines.len() == 0 {
        None
    } else {
        match json_line_fields(lines.last()) {
            Some((t, res, sid)) => {
                if t == Some("result"@) {
                    Some(
                        (
                            match res {
                                Some(r) => r,
                                None => Seq::empty(),
                            },
                            sid,
                        ),
                    )
                } else {
                    last_result_line(lines.drop_last())
                }
            },
            None => last_result_line(lines.drop_last()),
        }
    }
}

/// The view of a result.
pub open spec fn result_view(r: ResultData) -> (Seq<char>, Option<Seq<char>>) {
    (r.result@, opt_view(r.session_id))
}

/// Reads a job's output (one JSON value per line): the last line whose `type` is `result`,
/// passing over lines that are not JSON; `None` when there is no such line.
pub fn parse_output_lines(lines: &Vec<String>) -> (r: Option<ResultData>)
    ensures
        match r {
            Some(d) => last_result_line(crate::text::views(lines@)) == Some(result_view(d)),
            None => last_result_line(crate::text::views(lines@)) is None,
        },
{
    let ghost ls = crate::text::views(lines@);
    let mut last: Option<ResultData> = None;
    let mut i: usize = 0;
    while i < lines.len()
        invariant
            i <= lines@.len(),
            ls == crate::text::views(lines@),
            match last {
                Some(d) => last_result_line(ls.take(i as int)) == Some(result_view(d)),
                None => last_result_line(ls.take(i as int)) is None,
            },
        decreases lines@.len() - i,
    {
        let ghost w = ls.take(i + 1);
        assert(w.drop_last() =~= ls.take(i as int));
        assert(w.last() == lines@[i as int]@);
        match json_line(lines[i].as_str()) {
            None => {},
            Some((t, res, sid)) => {
                let is_result = match &t {
                    Some(ty) => crate::text::str_eq(ty.as_str(), "result"),
                    None => false,
                };
                if is_result {
                    let text = match res {
                        Some(x) => x,
                        None => String::new(),
                    };
                    last = Some(ResultData { result: text, session_id: sid });
                }
            },
        }
        i = i + 1;
    }
    assert(ls.take(lines@.len() as int) =~= ls);
    last
}

/// The command line that runs the agent program `agent` on `prompt` and streams its output
/// as JSON lines.
pub open spec fn agent_stream_command(agent: Seq<char>, prompt: Seq<char>) -> Seq<Seq<char>> {
    seq![agent, "-p"@, prompt, "--output-format"@, "stream-json"@, "--verbose"@]
}

/// The command line that runs the agent program `agent` on `prompt` and streams its output
/// as JSON lines.
pub fn agent_stream_args(agent: &str, prompt: String) -> (r: Vec<String>)
    ensures
        crate::text::views(r@) == agent_stream_command(agent@, prompt@),
{
    let mut r: Vec<String> = Vec::new();
    r.push(String::from_str(agent));
    r.push(String::from_str("-p"));
    r.push(prompt);
    r.push(String::from_str("--output-format"));
    r.push(String::from_str("stream-json"));
    r.push(String::from_str("--verbose"));
    assert(crate::text::views(r@) =~= agent_stream_command(agent@, prompt@));
    r
}

/// The directory of a job of `workflow` is recognised as belonging to `workflow`.
pub proof fn law_job_dir_recognised(workflow: Seq<char>, short_id: Seq<char>)
    ensures
        has_prefix(job_dir_name_spec(workflow, short_id), workflow + "-"@),
{
    assert(job_dir_name_spec(workflow, short_id).take((workflow + "-"@).len() as int) =~= workflow
        + "-"@);
}

} // verus!
