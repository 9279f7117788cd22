//! The first form of enrich: the AI rewrites the description and proposes solutions with
//! their pros and cons, which become the issue's design notes.

use vstd::prelude::*;
use vstd::string::*;

use crate::ai::{description_section, description_section_spec};
use crate::bd::opt_view;
use crate::text::{decimal, join, join_spec, push_decimal, views};

verus! {

/// Start of the prompt, up to the issue title.
pub const PROMPT_HEAD: &'static str = "You are an issue analysis assistant. Given the following issue, please:\n\n1. Enrich the description: Infer and describe the background, context, and scope of impact for this issue.\n2. Propose 3 solution alternatives, each with a title, description, pros, and cons.\n\nIssue Title: ";

/// End of the prompt, after the title and description.
pub const PROMPT_TAIL: &'static str = "\n\nRespond in JSON format exactly matching this structure:\n{\n  \"enriched_description\": \"...\",\n  \"solutions\": [\n    {\n      \"title\": \"...\",\n      \"description\": \"...\",\n      \"pros\": [\"...\"],\n      \"cons\": [\"...\"]\n    }\n  ]\n}\n\nOutput only valid JSON, no markdown fences or extra text.";

/// What the prompt is built from.
pub struct EnrichRequest {
    pub issue_id: String,
    pub title: String,
    pub description: Option<String>,
}

/// What the AI answers: a richer description and candidate solutions.
pub struct EnrichResult {
    pub enriched_description: String,
    pub solutions: Vec<Solution>,
}

/// A candidate solution with its pros and cons.
pub struct Solution {
    pub title: String,
    pub description: String,
    pub pros: Vec<String>,
    pub cons: Vec<String>,
}

/// The view of a solution.
pub struct SolutionView {
    pub title: Seq<char>,
    pub description: Seq<char>,
    pub pros: Seq<Seq<char>>,
    pub cons: Seq<Seq<char>>,
}

impl View for Solution {
    type V = SolutionView;

    open spec fn view(&self) -> SolutionView {
        SolutionView {
            title: self.title@,
            description: self.description@,
            pros: views(self.pros@),
            cons: views(self.cons@),
        }
    }
}

/// What a running enrich job reports.
pub enum EnrichEvent {
    Started { issue_id: String },
    Completed { issue_id: String },
    Failed { issue_id: String, error: String },
}

/// The prompt for an issue: head, title, description section, tail.
pub open spec fn prompt_spec(title: Seq<char>, desc: Option<Seq<char>>) -> Seq<char> {
    PROMPT_HEAD@ + title + description_section_spec(desc) + PROMPT_TAIL@
}

/// The prompt for a request.
pub fn build_prompt(request: &EnrichRequest) -> (r: String)
    ensures
        r@ == prompt_spec(request.title@, opt_view(request.description)),
{
    let mut r = String::from_str(PROMPT_HEAD);
    r.append(request.title.as_str());
    let section = description_section(&request.description);
    r.append(section.as_str());
    r.append(PROMPT_TAIL);
    r
}

/// The new description: the original, a rule and the AI's description under its heading; the
/// AI's description alone when there was none.
pub open spec fn description_spec(original: Option<Seq<char>>, enriched: Seq<char>) -> Seq<char> {
    match original {
        Some(o) => o + "\n\n---\n## AI Enriched Description\n"@ + enriched,
        None => enriched,
    }
}

/// The new description of an enriched issue.
pub fn format_description(original: Option<&str>, enriched: &str) -> (r: String)
    ensures
        r@ == description_spec(
            match original {
                Some(o) => Some(o@),
                None => None,
            },
            enriched@,
        ),
{
    match original {
        Some(o) => {
            let mut r = String::from_str(o);
            r.append("\n\n---\n## AI Enriched Description\n");
            r.append(enriched);
            r
        },
        None => String::from_str(enriched),
    }
}

/// Each item as a `- item` line, the lines separated by newlines.
pub open spec fn bullet_list(items: Seq<Seq<char>>) -> Seq<char> {
    join_spec(items.map_values(|p: Seq<char>| "- "@ + p), "\n"@)
}

/// The section of the solution numbered `n`: heading, description, pros and cons.
pub open spec fn solution_section(n: nat, s: SolutionView) -> Seq<char> {
    "## Solution "@ + decimal(n) + ": "@ + s.title + "\n"@ + s.description + "\n\n**Pros:**\n"@
        + bullet_list(s.pros) + "\n\n**Cons:**\n"@ + bullet_list(s.cons)
}

/// The design notes: one section per solution, numbered from 1, separated by blank lines.
pub open spec fn design_spec(ss: Seq<SolutionView>) -> Seq<char> {
    join_spec(Seq::new(ss.len(), |i: int| solution_section((i + 1) as nat, ss[i])), "\n\n"@)
}

/// The items as a bulleted list.
fn format_bullets(items: &Vec<String>) -> (r: String)
    ensures
        r@ == bullet_list(views(items@)),
{
    let mut lines: Vec<String> = Vec::new();
    let mut i: usize = 0;
    while i < items.len()
        invariant
            i <= items@.len(),
            views(lines@) == views(items@).take(i as int).map_values(|p: Seq<char>| "- "@ + p),
        decreases items@.len() - i,
    {
        let mut line = String::from_str("- ");
        line.append(items[i].as_str());
        proof {
            crate::text::lemma_views_push(lines@, line);
        }
        lines.push(line);
        assert(views(lines@) =~= views(items@).take(i + 1).map_values(|p: Seq<char>| "- "@ + p));
        i = i + 1;
    }
    assert(views(items@).take(items@.len() as int) =~= views(items@));
    join(&lines, "\n")
}

/// The design notes for the proposed solutions.
pub fn format_design(solutions: &[Solution]) -> (r: String)
    ensures
        r@ == design_spec(solutions@.map_values(|s: Solution| s@)),
{
    let ghost ss = solutions@.map_values(|s: Solution| s@);
    let mut sections: Vec<String> = Vec::new();
    let mut i: usize = 0;
    while i < solutions.len()
        invariant
            i <= solutions@.len(),
            ss == solutions@.map_values(|s: Solution| s@),
            views(sections@) == Seq::new(i as nat, |k: int| solution_section((k + 1) as nat, ss[k])),
        decreases solutions@.len() - i,
    {
        let s = &solutions[i];
        let mut sec = String::from_str("## Solution ");
        push_decimal(&mut sec, i + 1);
        sec.append(": ");
        sec.append(s.title.as_str());
        sec.append("\n");
        sec.append(s.description.as_str());
        sec.append("\n\n**Pros:**\n");
        let pros = format_bullets(&s.pros);
        sec.append(pros.as_str());
        sec.append("\n\n**Cons:**\n");
        let cons = format_bullets(&s.cons);
        sec.append(cons.as_str());
        assert(ss[i as int] == s@);
        proof {
            crate::text::lemma_views_push(sections@, sec);
        }
        sections.push(sec);
        assert(views(sections@) =~= Seq::new(
            (i + 1) as nat,
            |k: int| solution_section((k + 1) as nat, ss[k]),
        ));
        i = i + 1;
    }
    join(&sections, "\n\n")
}

} // verus!
