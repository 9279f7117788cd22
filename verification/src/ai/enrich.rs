//! The enrich workflow: ask the AI for the problems and candidate solutions of an issue and
//! append them to its description.

use vstd::prelude::*;
use vstd::string::*;

use crate::ai::job::{agent_stream_args, agent_stream_command, JobMeta, WorkflowHandler};
use crate::ai::{description_section, description_section_spec, IdSet};
use crate::bd::{opt_view, Issue, IssueView};
use crate::text::{has_prefix, trim_end, trim_end_spec, views};

verus! {

/// Start of the default enrich prompt, up to the issue title.
pub const ENRICH_PROMPT_HEAD: &'static str = "You are an issue analysis assistant. Given the following issue, analyze it.\n\nIssue Title: ";

/// End of the default enrich prompt, after the title and description.
pub const ENRICH_PROMPT_TAIL: &'static str = "\n\nPlease provide:\n\n1. **課題 (Problems)**: Bullet-point list of the core problems. Each bullet should be one concise sentence.\n2. **ソリューション案 (Solutions)**: 2-3 concrete solution approaches, each with a short label (A, B, C...) and a brief description.\n\nRespond in JSON format exactly matching this structure:\n{\n  \"problems\": [\n    \"One concise problem statement per bullet\",\n    \"Another problem statement\"\n  ],\n  \"solutions\": [\n    {\n      \"label\": \"A\",\n      \"title\": \"Short solution name\",\n      \"description\": \"1-2 sentence description of approach\"\n    }\n  ]\n}\n\nImportant:\n- Keep each bullet/sentence short and scannable (aim for under 80 chars)\n- Output only valid JSON, no markdown fences or extra text\n- Write in the same language as the issue title";

/// What the enrich prompt is built from.
pub struct EnrichRequest {
    pub issue_id: String,
    pub title: String,
    pub description: Option<String>,
}

/// The default prompt for an issue: head, title, description section, tail.
pub open spec fn enrich_prompt_spec(title: Seq<char>, desc: Option<Seq<char>>) -> Seq<char> {
    ENRICH_PROMPT_HEAD@ + title + description_section_spec(desc) + ENRICH_PROMPT_TAIL@
}

/// The default enrich prompt for a request.
pub fn build_prompt(request: &EnrichRequest) -> (r: String)
    ensures
        r@ == enrich_prompt_spec(request.title@, opt_view(request.description)),
{
    let mut r = String::from_str(ENRICH_PROMPT_HEAD);
    r.append(request.title.as_str());
    let section = description_section(&request.description);
    r.append(section.as_str());
    r.append(ENRICH_PROMPT_TAIL);
    r
}

/// What the AI answers to the default prompt: the problems and the candidate solutions.
pub struct EnrichResult {
    pub problems: Vec<String>,
    pub solutions: Vec<Solution>,
}

/// One candidate solution: a short label (A, B, ...), a title and a description.
pub struct Solution {
    pub label: String,
    pub title: String,
    pub description: String,
}

impl View for Solution {
    type V = (Seq<char>, Seq<char>, Seq<char>);

    open spec fn view(&self) -> (Seq<char>, Seq<char>, Seq<char>) {
        (self.label@, self.title@, self.description@)
    }
}

/// The views of a sequence of solutions.
pub open spec fn solution_views(v: Seq<Solution>) -> Seq<(Seq<char>, Seq<char>, Seq<char>)> {
    v.map_values(|s: Solution| s@)
}

/// One `- problem` line per problem.
pub open spec fn problem_lines(ps: Seq<Seq<char>>) -> Seq<char>
    decreases ps.len(),
{
    if ps.len() == 0 {
        Seq::empty()
    } else {
        problem_lines(ps.drop_last()) + "- "@ + ps.last() + "\n"@
    }
}

/// Two lines per solution: `- label: title`, then the description indented by two spaces.
pub open spec fn solution_lines(ss: Seq<(Seq<char>, Seq<char>, Seq<char>)>) -> Seq<char>
    decreases ss.len(),
{
    if ss.len() == 0 {
        Seq::empty()
    } else {
        let s = ss.last();
        solution_lines(ss.drop_last()) + "- "@ + s.0 + ": "@ + s.1 + "\n"@ + "  "@ + s.2 + "\n"@
    }
}

/// The original description (if any) and a `---` rule, then the problems and the solutions
/// under their headings, without trailing whitespace.
pub open spec fn enriched_spec(
    original: Option<Seq<char>>,
    problems: Seq<Seq<char>>,
    solutions: Seq<(Seq<char>, Seq<char>, Seq<char>)>,
) -> Seq<char> {
    let head = match original {
        Some(o) => o + "\n\n---\n"@,
        None => Seq::empty(),
    };
    trim_end_spec(
        head + "### 課題\n"@ + problem_lines(problems) + "\n### ソリューション案\n"@ + solution_lines(
            solutions,
        ),
    )
}

/// The description after enriching: the original, a rule, the problems and the solutions.
pub fn format_enriched(original: Option<&str>, result: &EnrichResult) -> (r: String)
    ensures
        r@ == enriched_spec(
            match original {
                Some(o) => Some(o@),
                None => None,
            },
            views(result.problems@),
            solution_views(result.solutions@),
        ),
{
    let mut out = String::new();
    if let Some(orig) = original {
        out.append(orig);
        out.append("\n\n---\n");
    }
    out.append("### 課題\n");
    let ghost base = out@;
    let mut i: usize = 0;
    while i < result.problems.len()
        invariant
            i <= result.problems@.len(),
            out@ == base + problem_lines(views(result.problems@).take(i as int)),
        decreases result.problems@.len() - i,
    {
        assert(views(result.problems@).take(i + 1).drop_last() =~= views(result.problems@).take(
            i as int,
        ));
        out.append("- ");
        out.append(result.problems[i].as_str());
        out.append("\n");
        i = i + 1;
    }
    assert(views(result.problems@).take(result.problems@.len() as int) =~= views(
        result.problems@,
    ));
    out.append("\n### ソリューション案\n");
    let ghost base2 = out@;
    let mut j: usize = 0;
    while j < result.solutions.len()
        invariant
            j <= result.solutions@.len(),
            out@ == base2 + solution_lines(solution_views(result.solutions@).take(j as int)),
        decreases result.solutions@.len() - j,
    {
        let s = &result.solutions[j];
        assert(solution_views(result.solutions@).take(j + 1).drop_last() =~= solution_views(
            result.solutions@,
        ).take(j as int));
        assert(solution_views(result.solutions@).take(j + 1).last() == s@);
        out.append("- ");
        out.append(s.label.as_str());
        out.append(": ");
        out.append(s.title.as_str());
        out.append("\n");
        out.append("  ");
        out.append(s.description.as_str());
        out.append("\n");
        j = j + 1;
    }
    assert(solution_views(result.solutions@).take(result.solutions@.len() as int) =~= solution_views(
        result.solutions@,
    ));
    String::from_str(trim_end(out.as_str()))
}

/// Enriching appends: the result starts with the original description and a `---` rule, or,
/// without one, directly with the problems heading.
pub proof fn law_enriched_keeps_original(
    original: Option<Seq<char>>,
    problems: Seq<Seq<char>>,
    solutions: Seq<(Seq<char>, Seq<char>, Seq<char>)>,
)
    ensures
        has_prefix(
            enriched_spec(original, problems, solutions),
            match original {
                Some(o) => o + "\n\n---\n"@,
                None => "### 課題"@,
            },
        ),
{
    reveal_strlit("\n\n---\n");
    reveal_strlit("### 課題\n");
    reveal_strlit("### 課題");
    let head = match original {
        Some(o) => o + "\n\n---\n"@,
        None => Seq::empty(),
    };
    let x = head + "### 課題\n"@ + problem_lines(problems) + "\n### ソリューション案\n"@
        + solution_lines(solutions);
    let k = head.len() as int;
    assert(x[k] == '#');
    crate::text::lemma_trim_end_keeps_prefix(x, k);
    let p = match original {
        Some(o) => o + "\n\n---\n"@,
        None => "### 課題"@,
    };
    match original {
        Some(o) => {
            assert(x.take(k + 1).take(p.len() as int) =~= p);
            assert(enriched_spec(original, problems, solutions).take(p.len() as int) =~= x.take(
                k + 1,
            ).take(p.len() as int));
        },
        None => {
            assert(x[1] == '#' && x[2] == '#' && x[3] == ' ' && x[4] == '課' && x[5] == '題');
            assert(!crate::text::is_whitespace_char(x[5]));
            crate::text::lemma_trim_end_keeps_prefix(x, 5);
            assert(x.take(6) =~= p);
        },
    }
}

/// The prompt that asks a named agent skill to analyse an issue.
pub open spec fn skill_prompt_spec(skill: Seq<char>, title: Seq<char>, desc: Option<Seq<char>>) -> Seq<
    char,
> {
    "Use the "@ + skill
        + " skill to analyze the following issue. Output the result as plain text.\n\nIssue Title: "@
        + title + description_section_spec(desc)
}

/// The prompt for the skill mode of enrich.
pub fn build_skill_prompt(issue: &Issue, skill_name: &str) -> (r: String)
    ensures
        r@ == skill_prompt_spec(skill_name@, issue.title@, opt_view(issue.description)),
{
    let mut r = String::from_str("Use the ");
    r.append(skill_name);
    r.append(
        " skill to analyze the following issue. Output the result as plain text.\n\nIssue Title: ",
    );
    r.append(issue.title.as_str());
    let section = description_section(&issue.description);
    r.append(section.as_str());
    r
}

/// The description after appending a skill's plain-text answer: the original, a rule, the
/// answer; the answer alone when there was no description.
pub open spec fn text_enriched_spec(original: Option<Seq<char>>, text: Seq<char>) -> Seq<char> {
    match original {
        Some(o) => o + "\n\n---\n"@ + text,
        None => text,
    }
}

/// The description after appending a skill's plain-text answer.
pub fn append_result_text(original: Option<&str>, text: &str) -> (r: String)
    ensures
        r@ == text_enriched_spec(
            match original {
                Some(o) => Some(o@),
                None => None,
            },
            text@,
        ),
{
    match original {
        Some(o) => {
            let mut r = String::from_str(o);
            r.append("\n\n---\n");
            r.append(text);
            r
        },
        None => String::from_str(text),
    }
}

/// What a running enrich job reports.
pub enum EnrichEvent {
    Started { issue_id: String },
    Completed { issue_id: String },
    Failed { issue_id: String, error: String },
}

/// What handling an enrich event amounts to, for the caller to act on.
pub enum EnrichOutcome {
    Started { issue_id: String },
    Completed { issue_id: String },
    Failed { issue_id: String, error: String },
}

/// The label that asks for an automatic enrich.
pub open spec fn needs_enrich(i: IssueView) -> bool {
    i.labels.contains("strand-needs-enrich"@)
}

/// Whether an issue carries `strand-needs-enrich`.
pub fn issue_needs_enrich(issue: &Issue) -> (b: bool)
    ensures
        b == needs_enrich(issue@),
{
    crate::text::contains_str(&issue.labels, "strand-needs-enrich")
}

/// Whether an issue already carries `strand-enriched`: a job picked up again after a restart
/// leaves its description alone.
pub fn issue_is_enriched(issue: &Issue) -> (b: bool)
    ensures
        b == issue@.labels.contains("strand-enriched"@),
{
    crate::text::contains_str(&issue.labels, "strand-enriched")
}

/// What a finished enrich job does to its issue's description.
pub enum EnrichUpdate {
    /// The issue carries `strand-enriched` already: it is left as it is.
    Unchanged,
    /// The description becomes this text, and the labels move on.
    Describe(String),
    /// The answer could not be read as the structured result.
    Unreadable,
}

/// The description a finished enrich job writes, from the issue as fetched now, whether a skill
/// prompt was used (its answer is appended as text), the answer's text, and the answer parsed
/// as the structured result (`None` when it could not be read).
pub fn enrich_update(issue: &Issue, skill: bool, answer: &str, parsed: Option<&EnrichResult>) -> (r: EnrichUpdate)
    ensures
        issue@.labels.contains("strand-enriched"@) ==> r is Unchanged,
        !issue@.labels.contains("strand-enriched"@) && skill ==> match r {
            EnrichUpdate::Describe(d) => d@ == text_enriched_spec(issue@.description, answer@),
            _ => false,
        },
        !issue@.labels.contains("strand-enriched"@) && !skill ==> match parsed {
            Some(p) => match r {
                EnrichUpdate::Describe(d) => d@ == enriched_spec(
                    issue@.description,
                    views(p.problems@),
                    solution_views(p.solutions@),
                ),
                _ => false,
            },
            None => r is Unreadable,
        },
{
    if issue_is_enriched(issue) {
        return EnrichUpdate::Unchanged;
    }
    let original: Option<&str> = match &issue.description {
        Some(d) => Some(d.as_str()),
        None => None,
    };
    if skill {
        EnrichUpdate::Describe(append_result_text(original, answer))
    } else {
        match parsed {
            Some(p) => EnrichUpdate::Describe(format_enriched(original, p)),
            None => EnrichUpdate::Unreadable,
        }
    }
}

/// Automatic enrich over `issues`, in order, starting from the ids in `running`: an issue is
/// launched when it carries `strand-needs-enrich` and its id is neither running nor launched
/// before it. The launched issues and the ids running afterwards.
pub open spec fn auto_enrich_spec(issues: Seq<IssueView>, running: Set<Seq<char>>) -> (
    Seq<IssueView>,
    Set<Seq<char>>,
)
    decreases issues.len(),
{
    if issues.len() == 0 {
        (Seq::empty(), running)
    } else {
        let (t, r) = auto_enrich_spec(issues.drop_last(), running);
        let i = issues.last();
        if needs_enrich(i) && !r.contains(i.id) {
            (t.push(i), r.insert(i.id))
        } else {
            (t, r)
        }
    }
}

/// The ids of the issues that carry `strand-needs-enrich`.
pub open spec fn labeled_ids(issues: Seq<IssueView>) -> Set<Seq<char>> {
    Set::new(|id: Seq<char>| exists|k: int| 0 <= k < issues.len() && needs_enrich(issues[k]) && issues[k].id == id)
}

/// After an automatic enrich, the running ids are exactly those running before and those of
/// every issue that carries `strand-needs-enrich`.
pub proof fn law_auto_enrich_runs_labeled(issues: Seq<IssueView>, running: Set<Seq<char>>)
    ensures
        auto_enrich_spec(issues, running).1 == running.union(labeled_ids(issues)),
    decreases issues.len(),
{
    if issues.len() > 0 {
        law_auto_enrich_runs_labeled(issues.drop_last(), running);
        let p = issues.drop_last();
        assert forall|id: Seq<char>|
            #[trigger] labeled_ids(issues).contains(id) == (labeled_ids(p).contains(id) || (
            needs_enrich(issues.last()) && issues.last().id == id)) by {
            if labeled_ids(issues).contains(id) {
                let k = choose|k: int|
                    0 <= k < issues.len() && needs_enrich(issues[k]) && issues[k].id == id;
                if k < p.len() {
                    assert(p[k] == issues[k]);
                }
            }
            if labeled_ids(p).contains(id) {
                let k = choose|k: int| 0 <= k < p.len() && needs_enrich(p[k]) && p[k].id == id;
                assert(issues[k] == p[k]);
            }
            if needs_enrich(issues.last()) && issues.last().id == id {
                assert(issues[issues.len() - 1] == issues.last());
            }
        }
        assert(auto_enrich_spec(issues, running).1 =~= running.union(labeled_ids(issues)));
    } else {
        assert(labeled_ids(issues) =~= Set::<Seq<char>>::empty());
        assert(running.union(labeled_ids(issues)) =~= running);
    }
}

/// Automatic enrich is idempotent: run again over the same issues, it launches nothing and
/// the running set stays as it is.
pub proof fn law_auto_enrich_twice_launches_nothing(issues: Seq<IssueView>, running: Set<Seq<char>>)
    ensures
        auto_enrich_spec(issues, auto_enrich_spec(issues, running).1).0.len() == 0,
        auto_enrich_spec(issues, auto_enrich_spec(issues, running).1).1 == auto_enrich_spec(
            issues,
            running,
        ).1,
{
    law_auto_enrich_runs_labeled(issues, running);
    let r1 = auto_enrich_spec(issues, running).1;
    assert forall|k: int| 0 <= k < issues.len() && needs_enrich(issues[k]) implies r1.contains(
        issues[k].id,
    ) by {
        assert(labeled_ids(issues).contains(issues[k].id));
    }
    lemma_auto_enrich_all_running(issues, r1);
}

proof fn lemma_auto_enrich_all_running(issues: Seq<IssueView>, running: Set<Seq<char>>)
    requires
        forall|k: int| 0 <= k < issues.len() && needs_enrich(issues[k]) ==> running.contains(
            issues[k].id,
        ),
    ensures
        auto_enrich_spec(issues, running).0.len() == 0,
        auto_enrich_spec(issues, running).1 == running,
    decreases issues.len(),
{
    if issues.len() > 0 {
        let p = issues.drop_last();
        assert forall|k: int| 0 <= k < p.len() && needs_enrich(p[k]) implies running.contains(
            p[k].id,
        ) by {
            assert(p[k] == issues[k]);
        }
        lemma_auto_enrich_all_running(p, running);
        assert(issues.last() == issues[issues.len() - 1]);
    }
}

/// Which issues are being enriched, and the settings new enrich jobs get.
pub struct EnrichManager {
    enriching_ids: IdSet,
    config: crate::config::EnrichConfig,
}

impl EnrichManager {
    /// The ids of the issues being enriched.
    pub closed spec fn enriching(&self) -> Set<Seq<char>> {
        self.enriching_ids.set()
    }

    /// The skill that new jobs use.
    pub closed spec fn skill(&self) -> Option<Seq<char>> {
        opt_view(self.config.skill)
    }

    /// The manager's internal invariant.
    pub closed spec fn wf(&self) -> bool {
        self.enriching_ids.wf()
    }

    /// A manager with nothing running.
    pub fn new(config: crate::config::EnrichConfig) -> (m: EnrichManager)
        ensures
            m.wf(),
            m.enriching() == Set::<Seq<char>>::empty(),
            m.skill() == opt_view(config.skill),
    {
        EnrichManager { enriching_ids: IdSet::new(), config }
    }

    /// The settings to hand to a new enrich job.
    pub fn job_config(&self) -> (c: crate::config::EnrichConfig)
        ensures
            opt_view(c.skill) == self.skill(),
    {
        self.config.clone()
    }

    /// Whether an enrich of `issue_id` is running.
    pub fn is_enriching(&self, issue_id: &str) -> (b: bool)
        ensures
            b == self.enriching().contains(issue_id@),
    {
        self.enriching_ids.contains(issue_id)
    }

    /// Marks `issue` as being enriched; true when it was not already, which is when the
    /// caller launches the job.
    pub fn start(&mut self, issue: &Issue) -> (started: bool)
        requires
            old(self).wf(),
        ensures
            final(self).wf(),
            started == !old(self).enriching().contains(issue.id@),
            final(self).enriching() == old(self).enriching().insert(issue.id@),
            final(self).skill() == old(self).skill(),
    {
        if self.enriching_ids.contains(issue.id.as_str()) {
            assert(self.enriching().insert(issue.id@) =~= self.enriching());
            return false;
        }
        self.enriching_ids.insert(issue.id.as_str());
        true
    }

    /// Starts an enrich of every issue that carries `strand-needs-enrich` and is not being
    /// enriched; returns the issues to launch jobs for, in order.
    pub fn auto_enrich(&mut self, issues: &Vec<Issue>) -> (launched: Vec<Issue>)
        requires
            old(self).wf(),
        ensures
            final(self).wf(),
            crate::bd::issue_views(launched@) == auto_enrich_spec(
                crate::bd::issue_views(issues@),
                old(self).enriching(),
            ).0,
            final(self).enriching() == old(self).enriching().union(
                labeled_ids(crate::bd::issue_views(issues@)),
            ),
            final(self).skill() == old(self).skill(),
    {
        let ghost running = self.enriching();
        let mut launched: Vec<Issue> = Vec::new();
        let mut i: usize = 0;
        while i < issues.len()
            invariant
                i <= issues@.len(),
                self.wf(),
                self.skill() == old(self).skill(),
                running == old(self).enriching(),
                (crate::bd::issue_views(launched@), self.enriching()) == auto_enrich_spec(
                    crate::bd::issue_views(issues@).take(i as int),
                    running,
                ),
            decreases issues@.len() - i,
        {
            let ghost w = crate::bd::issue_views(issues@).take(i + 1);
            proof {
                crate::bd::lemma_issue_views_take(issues@, i as int);
                assert(w.drop_last() =~= crate::bd::issue_views(issues@).take(i as int));
                assert(w.last() == issues@[i as int]@);
            }
            if issue_needs_enrich(&issues[i]) {
                if self.start(&issues[i]) {
                    let x = issues[i].clone();
                    proof {
                        crate::bd::lemma_issue_views_push(launched@, x);
                    }
                    launched.push(x);
                }
            }
            i = i + 1;
        }
        proof {
            assert(crate::bd::issue_views(issues@).take(issues@.len() as int) =~= crate::bd::issue_views(
                issues@,
            ));
            law_auto_enrich_runs_labeled(crate::bd::issue_views(issues@), running);
        }
        launched
    }

    /// Marks the jobs found running at start-up.
    pub fn restore_jobs(&mut self, issue_ids: &Vec<String>)
        requires
            old(self).wf(),
        ensures
            final(self).wf(),
            final(self).enriching() == old(self).enriching().union(views(issue_ids@).to_set()),
            final(self).skill() == old(self).skill(),
    {
        let ghost before = self.enriching();
        let mut i: usize = 0;
        while i < issue_ids.len()
            invariant
                i <= issue_ids@.len(),
                self.wf(),
                self.skill() == old(self).skill(),
                before == old(self).enriching(),
                self.enriching() == before.union(views(issue_ids@).take(i as int).to_set()),
            decreases issue_ids@.len() - i,
        {
            proof {
                assert(views(issue_ids@).take(i + 1) =~= views(issue_ids@).take(i as int).push(
                    issue_ids@[i as int]@,
                ));
                views(issue_ids@).take(i as int).lemma_push_to_set_commute(issue_ids@[i as int]@);
            }
            self.enriching_ids.insert(issue_ids[i].as_str());
            assert(self.enriching() =~= before.union(views(issue_ids@).take(i + 1).to_set()));
            i = i + 1;
        }
        assert(views(issue_ids@).take(issue_ids@.len() as int) =~= views(issue_ids@));
    }

    /// Handles a job's report: a finished or failed job is no longer running.
    pub fn handle_event(&mut self, event: EnrichEvent) -> (o: EnrichOutcome)
        requires
            old(self).wf(),
        ensures
            final(self).wf(),
            final(self).skill() == old(self).skill(),
            match event {
                EnrichEvent::Started { issue_id } => o == (EnrichOutcome::Started { issue_id })
                    && final(self).enriching() == old(self).enriching(),
                EnrichEvent::Completed { issue_id } => o == (EnrichOutcome::Completed { issue_id })
                    && final(self).enriching() == old(self).enriching().remove(issue_id@),
                EnrichEvent::Failed { issue_id, error } => o == (EnrichOutcome::Failed {
                    issue_id,
                    error,
                }) && final(self).enriching() == old(self).enriching().remove(issue_id@),
            },
    {
        match event {
            EnrichEvent::Started { issue_id } => EnrichOutcome::Started { issue_id },
            EnrichEvent::Completed { issue_id } => {
                self.enriching_ids.remove(issue_id.as_str());
                EnrichOutcome::Completed { issue_id }
            },
            EnrichEvent::Failed { issue_id, error } => {
                self.enriching_ids.remove(issue_id.as_str());
                EnrichOutcome::Failed { issue_id, error }
            },
        }
    }
}

/// The enrich workflow's part in running a job.
pub struct EnrichHandler;

/// The prompt an enrich job runs: the skill prompt when a skill is set, else the built-in one.
pub open spec fn enrich_job_prompt(skill: Option<Seq<char>>, issue: IssueView) -> Seq<char> {
    match skill {
        Some(s) => skill_prompt_spec(s, issue.title, issue.description),
        None => enrich_prompt_spec(issue.title, issue.description),
    }
}

impl WorkflowHandler for EnrichHandler {
    type Event = EnrichEvent;
    type Config = crate::config::EnrichConfig;

    fn workflow_name(&self) -> (r: &'static str)
        ensures
            r@ == "enrich"@,
    {
        "enrich"
    }

    fn build_command(&self, agent: &str, issue: &Issue, config: &crate::config::EnrichConfig) -> (r: Vec<String>)
        ensures
            views(r@) == agent_stream_command(
                agent@,
                enrich_job_prompt(opt_view(config.skill), issue@),
            ),
    {
        let prompt = match &config.skill {
            Some(skill_name) => build_skill_prompt(issue, skill_name.as_str()),
            None => build_prompt(
                &EnrichRequest {
                    issue_id: issue.id.clone(),
                    title: issue.title.clone(),
                    description: crate::bd::clone_opt_string(&issue.description),
                },
            ),
        };
        agent_stream_args(agent, prompt)
    }

    fn working_dir(&self, meta: &JobMeta, repo_dir: &str) -> (r: String)
        ensures
            r@ == repo_dir@,
    {
        String::from_str(repo_dir)
    }

    fn on_started(&self, issue_id: &str) -> (e: EnrichEvent)
        ensures
            e matches EnrichEvent::Started { issue_id: id } && id@ == issue_id@,
    {
        EnrichEvent::Started { issue_id: String::from_str(issue_id) }
    }

    fn on_failed(&self, issue_id: &str, error: String) -> (e: EnrichEvent)
        ensures
            e matches EnrichEvent::Failed { issue_id: id, error: err } && id@ == issue_id@ && err
                == error,
    {
        EnrichEvent::Failed { issue_id: String::from_str(issue_id), error }
    }
}

/// A job started for an issue that was not running and then reported finished (or failed)
/// leaves the running set as it was.
pub proof fn law_start_then_finish(running: Set<Seq<char>>, id: Seq<char>)
    requires
        !running.contains(id),
    ensures
        running.insert(id).remove(id) == running,
{
    assert(running.insert(id).remove(id) =~= running);
}

} // verus!
