//! What the pages mark next to an issue: the state of its implementation and of the child, and
//! whether the implementation predates the latest change of the issue.

use vstd::prelude::*;
use vstd::string::*;

use crate::ai::implement::manager::ImplManager;
use crate::ai::implement::{ImplJobView, ImplStatusView};
use crate::bd::Issue;
use crate::text::{contains_str, str_eq, views};

verus! {

/// The instant an RFC 3339 timestamp denotes, as seconds and nanoseconds since the Unix
/// epoch, as `chrono` parses it into a `DateTime<FixedOffset>`; `None` when it does not parse.
pub uninterp spec fn rfc3339_instant(s: Seq<char>) -> Option<(i64, u32)>;

/// `s.parse::<chrono::DateTime<chrono::FixedOffset>>()`, taken as its instant (`timestamp`,
/// `timestamp_subsec_nanos`). Named by `rfc3339_instant`; which texts parse is left unsaid.
#[verifier::external_body]
fn parse_instant(s: &str) -> (r: Option<(i64, u32)>)
    ensures
        r == rfc3339_instant(s@),
{
    s.parse::<chrono::DateTime<chrono::FixedOffset>>().ok().map(|dt| (dt.timestamp(), dt.timestamp_subsec_nanos()))
}

/// `a` is a later instant than `b`.
pub open spec fn later(a: (i64, u32), b: (i64, u32)) -> bool {
    a.0 > b.0 || (a.0 == b.0 && a.1 > b.1)
}

/// The issue changed after its implementation finished: both timestamps parse and the issue's
/// is the later instant.
pub open spec fn is_stale_spec(updated_at: Option<Seq<char>>, completed_at: Option<Seq<char>>) -> bool {
    match (updated_at, completed_at) {
        (Some(u), Some(c)) => match (rfc3339_instant(u), rfc3339_instant(c)) {
            (Some(a), Some(b)) => later(a, b),
            _ => false,
        },
        _ => false,
    }
}

/// Whether the issue changed after its implementation finished.
pub fn is_stale(updated_at: Option<&str>, completed_at: Option<&str>) -> (b: bool)
    ensures
        b == is_stale_spec(
            match updated_at {
                Some(u) => Some(u@),
                None => None,
            },
            match completed_at {
                Some(c) => Some(c@),
                None => None,
            },
        ),
{
    match (updated_at, completed_at) {
        (Some(u), Some(c)) => match (parse_instant(u), parse_instant(c)) {
            (Some(a), Some(b)) => a.0 > b.0 || (a.0 == b.0 && a.1 > b.1),
            _ => false,
        },
        _ => false,
    }
}

/// What the epic page marks next to a child.
#[derive(Debug, Clone, Copy, PartialEq, Eq, Structural)]
pub enum ChildState {
    /// An implementation is running.
    Running,
    /// The implementation is done.
    Done,
    /// The implementation failed.
    Failed,
    /// The implementation was interrupted.
    Interrupted,
    /// No implementation; the child is closed.
    Closed,
    /// No implementation; `bd` reports the child ready to work on.
    Ready,
    /// None of these.
    Waiting,
}

/// The mark of a child: its implementation's state when it has one, else closed, ready or
/// waiting.
pub open spec fn child_state_spec(
    job: Option<ImplJobView>,
    status: Seq<char>,
    ready: bool,
) -> ChildState {
    match job {
        Some(j) => match j.status {
            ImplStatusView::Running => ChildState::Running,
            ImplStatusView::Done => ChildState::Done,
            ImplStatusView::Failed(_) => ChildState::Failed,
            ImplStatusView::Interrupted => ChildState::Interrupted,
        },
        None => if status == "closed"@ {
            ChildState::Closed
        } else if ready {
            ChildState::Ready
        } else {
            ChildState::Waiting
        },
    }
}

/// A child with an implementation is marked by its job's state, one mark per state: running,
/// done, failed (whatever the error) and interrupted each get their own mark, and none of
/// them is a mark of a child without a job.
pub proof fn law_child_mark_follows_job(j: ImplJobView, k: ImplJobView, status: Seq<char>, ready: bool)
    ensures
        j.status is Running ==> child_state_spec(Some(j), status, ready) == ChildState::Running,
        j.status is Done ==> child_state_spec(Some(j), status, ready) == ChildState::Done,
        j.status is Failed ==> child_state_spec(Some(j), status, ready) == ChildState::Failed,
        j.status is Interrupted ==> child_state_spec(Some(j), status, ready)
            == ChildState::Interrupted,
        (j.status is Running) != (k.status is Running) || (j.status is Done) != (k.status is Done)
            || (j.status is Failed) != (k.status is Failed) ==> child_state_spec(
            Some(j),
            status,
            ready,
        ) != child_state_spec(Some(k), status, ready),
        !(child_state_spec(Some(j), status, ready) is Closed),
        !(child_state_spec(Some(j), status, ready) is Ready),
        !(child_state_spec(Some(j), status, ready) is Waiting),
{
}

/// A child without an implementation is marked closed when closed, else ready when `bd`
/// reports it ready, else waiting.
pub proof fn law_child_mark_without_job(status: Seq<char>, ready: bool)
    ensures
        status == "closed"@ ==> child_state_spec(None, status, ready) == ChildState::Closed,
        status != "closed"@ && ready ==> child_state_spec(None, status, ready) == ChildState::Ready,
        status != "closed"@ && !ready ==> child_state_spec(None, status, ready)
            == ChildState::Waiting,
{
}

/// The mark of a child of the epic page.
pub fn child_state(manager: &ImplManager, issue: &Issue, ready_ids: &Vec<String>) -> (s: ChildState)
    requires
        manager.wf(),
    ensures
        s == child_state_spec(
            if manager.jobs().contains_key(issue.id@) {
                Some(manager.jobs()[issue.id@])
            } else {
                None
            },
            issue.status@,
            views(ready_ids@).contains(issue.id@),
        ),
{
    match manager.get_job(issue.id.as_str()) {
        Some(job) => match &job.status {
            crate::ai::implement::ImplStatus::Running => ChildState::Running,
            crate::ai::implement::ImplStatus::Done => ChildState::Done,
            crate::ai::implement::ImplStatus::Failed(_) => ChildState::Failed,
            crate::ai::implement::ImplStatus::Interrupted => ChildState::Interrupted,
        },
        None => {
            if str_eq(issue.status.as_str(), "closed") {
                ChildState::Closed
            } else if contains_str(ready_ids, issue.id.as_str()) {
                ChildState::Ready
            } else {
                ChildState::Waiting
            }
        },
    }
}

} // verus!
