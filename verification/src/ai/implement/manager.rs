//! The table of implementation jobs, one per issue.

use vstd::prelude::*;
use vstd::string::*;

use super::{
    branch_name, branch_name_spec, merge_target, merge_target_spec, worktree_path,
    worktree_path_spec, ImplEvent, ImplJob, ImplJobView, ImplOutcome, ImplStatus,
    ImplStatusView,
};
use crate::ai::job::ActiveJob;
use crate::bd::{opt_view, Issue};
use crate::text::str_eq;

verus! {

/// The views of a sequence of jobs.
pub open spec fn job_views(v: Seq<ImplJob>) -> Seq<ImplJobView> {
    v.map_values(|j: ImplJob| j@)
}

/// The jobs of a sequence keyed by issue id (a later job wins over an earlier one).
pub open spec fn job_map(s: Seq<ImplJobView>) -> Map<Seq<char>, ImplJobView>
    decreases s.len(),
{
    if s.len() == 0 {
        Map::empty()
    } else {
        job_map(s.drop_last()).insert(s.last().issue_id, s.last())
    }
}

/// No issue has two jobs.
pub open spec fn distinct_ids(s: Seq<ImplJobView>) -> bool {
    forall|i: int, j: int| 0 <= i < j < s.len() ==> s[i].issue_id != s[j].issue_id
}

/// With distinct ids, the map holds exactly the ids of the sequence, each with its job.
proof fn lemma_job_map_lookup(s: Seq<ImplJobView>)
    requires
        distinct_ids(s),
    ensures
        forall|i: int| 0 <= i < s.len() ==> #[trigger] job_map(s).contains_key(s[i].issue_id)
            && job_map(s)[s[i].issue_id] == s[i],
        forall|k: Seq<char>| #[trigger]
            job_map(s).contains_key(k) ==> exists|i: int| 0 <= i < s.len() && s[i].issue_id == k,
        forall|k: Seq<char>| #[trigger]
            job_map(s).contains_key(k) ==> job_map(s)[k].issue_id == k,
    decreases s.len(),
{
    if s.len() > 0 {
        let p = s.drop_last();
        assert(distinct_ids(p)) by {
            assert forall|i: int, j: int| 0 <= i < j < p.len() implies p[i].issue_id
                != p[j].issue_id by {
                assert(p[i] == s[i] && p[j] == s[j]);
            }
        }
        lemma_job_map_lookup(p);
        assert forall|i: int| 0 <= i < s.len() implies #[trigger] job_map(s).contains_key(
            s[i].issue_id,
        ) && job_map(s)[s[i].issue_id] == s[i] by {
            if i < s.len() - 1 {
                assert(s[i] == p[i]);
                assert(s[i].issue_id != s[s.len() - 1].issue_id);
            }
        }
        assert forall|k: Seq<char>| #[trigger]
            job_map(s).contains_key(k) implies exists|i: int|
            0 <= i < s.len() && s[i].issue_id == k by {
            if k != s.last().issue_id {
                let i = choose|i: int| 0 <= i < p.len() && p[i].issue_id == k;
                assert(s[i] == p[i]);
            } else {
                assert(s[s.len() - 1].issue_id == k);
            }
        }
    }
}

/// Replacing the job at `i` by one for the same issue replaces it in the map.
proof fn lemma_job_map_update(s: Seq<ImplJobView>, i: int, j: ImplJobView)
    requires
        distinct_ids(s),
        0 <= i < s.len(),
        j.issue_id == s[i].issue_id,
    ensures
        distinct_ids(s.update(i, j)),
        job_map(s.update(i, j)) == job_map(s).insert(j.issue_id, j),
    decreases s.len(),
{
    let t = s.update(i, j);
    assert(distinct_ids(t)) by {
        assert forall|a: int, b: int| 0 <= a < b < t.len() implies t[a].issue_id
            != t[b].issue_id by {
            assert(t[a].issue_id == s[a].issue_id);
            assert(t[b].issue_id == s[b].issue_id);
        }
    }
    let p = s.drop_last();
    if i == s.len() - 1 {
        assert(t.drop_last() =~= p);
        assert(job_map(t) =~= job_map(s).insert(j.issue_id, j));
    } else {
        assert(distinct_ids(p)) by {
            assert forall|a: int, b: int| 0 <= a < b < p.len() implies p[a].issue_id
                != p[b].issue_id by {
                assert(p[a] == s[a] && p[b] == s[b]);
            }
        }
        lemma_job_map_update(p, i, j);
        assert(t.drop_last() =~= p.update(i, j));
        assert(t.last() == s.last());
        assert(s.last().issue_id != j.issue_id) by {
            assert(s[i].issue_id != s[s.len() - 1].issue_id);
        }
        assert(job_map(t) =~= job_map(s).insert(j.issue_id, j));
    }
}

/// Removing the job at `i` removes its issue from the map.
proof fn lemma_job_map_remove(s: Seq<ImplJobView>, i: int)
    requires
        distinct_ids(s),
        0 <= i < s.len(),
    ensures
        distinct_ids(s.remove(i)),
        job_map(s.remove(i)) == job_map(s).remove(s[i].issue_id),
    decreases s.len(),
{
    let t = s.remove(i);
    assert(distinct_ids(t)) by {
        assert forall|a: int, b: int| 0 <= a < b < t.len() implies t[a].issue_id
            != t[b].issue_id by {
            let a2 = if a < i { a } else { a + 1 };
            let b2 = if b < i { b } else { b + 1 };
            assert(t[a] == s[a2] && t[b] == s[b2]);
        }
    }
    let p = s.drop_last();
    assert(distinct_ids(p)) by {
        assert forall|a: int, b: int| 0 <= a < b < p.len() implies p[a].issue_id
            != p[b].issue_id by {
            assert(p[a] == s[a] && p[b] == s[b]);
        }
    }
    let id = s[i].issue_id;
    if i == s.len() - 1 {
        assert(t =~= p);
        lemma_job_map_lookup(p);
        assert(!job_map(p).contains_key(id)) by {
            if job_map(p).contains_key(id) {
                let k = choose|k: int| 0 <= k < p.len() && p[k].issue_id == id;
                assert(s[k].issue_id == s[s.len() - 1].issue_id);
            }
        }
        assert(job_map(t) =~= job_map(s).remove(id));
    } else {
        lemma_job_map_remove(p, i);
        assert(t.drop_last() =~= p.remove(i));
        assert(t.last() == s.last());
        assert(s.last().issue_id != id) by {
            assert(s[i].issue_id != s[s.len() - 1].issue_id);
        }
        assert(p[i] == s[i]);
        assert(job_map(t) =~= job_map(s).remove(id));
    }
}

/// The job a newly started implementation gets.
pub open spec fn started_job(issue_id: Seq<char>, worktree: Seq<char>) -> ImplJobView {
    ImplJobView {
        issue_id,
        branch: branch_name_spec(issue_id),
        worktree_path: worktree,
        status: ImplStatusView::Running,
        completed_at: None,
        session_id: None,
    }
}

/// Adds `job` unless its issue already has one.
pub open spec fn insert_if_absent(m: Map<Seq<char>, ImplJobView>, job: ImplJobView) -> Map<
    Seq<char>,
    ImplJobView,
> {
    if m.contains_key(job.issue_id) {
        m
    } else {
        m.insert(job.issue_id, job)
    }
}

/// The job restored for a job directory found at start-up: running, in the worktree its
/// record names, else in the issue's usual worktree.
pub open spec fn restored_job(
    repo_dir: Seq<char>,
    issue_id: Seq<char>,
    worktree: Option<Seq<char>>,
) -> ImplJobView {
    started_job(
        issue_id,
        match worktree {
            Some(w) => w,
            None => worktree_path_spec(repo_dir, issue_id),
        },
    )
}

/// The table after restoring the job directories found, in order.
pub open spec fn restore_active(
    m: Map<Seq<char>, ImplJobView>,
    repo_dir: Seq<char>,
    active: Seq<(Seq<char>, Option<Seq<char>>)>,
) -> Map<Seq<char>, ImplJobView>
    decreases active.len(),
{
    if active.len() == 0 {
        m
    } else {
        let a = active.last();
        insert_if_absent(restore_active(m, repo_dir, active.drop_last()), restored_job(repo_dir, a.0, a.1))
    }
}

/// The table after adding the discovered jobs, in order.
pub open spec fn restore_discovered(m: Map<Seq<char>, ImplJobView>, found: Seq<ImplJobView>) -> Map<
    Seq<char>,
    ImplJobView,
>
    decreases found.len(),
{
    if found.len() == 0 {
        m
    } else {
        insert_if_absent(restore_discovered(m, found.drop_last()), found.last())
    }
}

/// The id and recorded worktree of each job directory found.
pub open spec fn active_views(v: Seq<ActiveJob>) -> Seq<(Seq<char>, Option<Seq<char>>)> {
    v.map_values(|a: ActiveJob| (a.meta.issue_id@, opt_view(a.meta.worktree_path)))
}

/// A job after its report of success at time `now`: done, finished now, with the reported
/// session when there is one.
pub open spec fn completed_job(j: ImplJobView, now: Seq<char>, session: Option<Seq<char>>) -> ImplJobView {
    ImplJobView {
        status: ImplStatusView::Done,
        completed_at: Some(now),
        session_id: if session is Some {
            session
        } else {
            j.session_id
        },
        ..j
    }
}

/// A job after its report of failure: failed with the error, with the reported session when
/// there is one.
pub open spec fn failed_job(j: ImplJobView, error: Seq<char>, session: Option<Seq<char>>) -> ImplJobView {
    ImplJobView {
        status: ImplStatusView::Failed(error),
        session_id: if session is Some {
            session
        } else {
            j.session_id
        },
        ..j
    }
}

/// Updates the job of `id`, if there is one.
pub open spec fn update_job(
    m: Map<Seq<char>, ImplJobView>,
    id: Seq<char>,
    f: spec_fn(ImplJobView) -> ImplJobView,
) -> Map<Seq<char>, ImplJobView> {
    if m.contains_key(id) {
        m.insert(id, f(m[id]))
    } else {
        m
    }
}

/// The current local time as RFC 3339 text: `DateTime::<Local>::from(SystemTime::now())`, then
/// `to_rfc3339`, which writes the date, the time and the offset (also for a clock that reads
/// before 1970). Which instant and offset it shows depend on the clock and the time zone, so
/// only that the text is not empty is stated.
#[verifier::external_body]
fn local_now_rfc3339() -> (r: String)
    ensures
        r@.len() > 0,
{
    chrono::DateTime::<chrono::Local>::from(std::time::SystemTime::now()).to_rfc3339()
}

/// The implementation jobs, at most one per issue.
pub struct ImplManager {
    jobs: Vec<ImplJob>,
}

impl ImplManager {
    /// The jobs, keyed by issue id.
    pub closed spec fn jobs(&self) -> Map<Seq<char>, ImplJobView> {
        job_map(job_views(self.jobs@))
    }

    /// The manager's internal invariant.
    pub closed spec fn wf(&self) -> bool {
        distinct_ids(job_views(self.jobs@))
    }

    /// Every job is filed under its own issue id.
    pub proof fn law_jobs_keyed_by_issue(&self)
        requires
            self.wf(),
        ensures
            forall|k: Seq<char>| #[trigger]
                self.jobs().contains_key(k) ==> self.jobs()[k].issue_id == k,
    {
        lemma_job_map_lookup(job_views(self.jobs@));
    }

    /// A manager with no jobs.
    pub fn new() -> (m: ImplManager)
        ensures
            m.wf(),
            m.jobs() == Map::<Seq<char>, ImplJobView>::empty(),
    {
        let m = ImplManager { jobs: Vec::new() };
        assert(job_views(m.jobs@) =~= Seq::<ImplJobView>::empty());
        m
    }

    /// The position of the job of `issue_id`.
    fn find(&self, issue_id: &str) -> (r: Option<usize>)
        requires
            self.wf(),
        ensures
            match r {
                Some(i) => i < self.jobs@.len() && self.jobs@[i as int].issue_id@ == issue_id@
                    && self.jobs().contains_key(issue_id@) && self.jobs()[issue_id@]
                    == self.jobs@[i as int]@,
                None => !self.jobs().contains_key(issue_id@),
            },
    {
        proof {
            lemma_job_map_lookup(job_views(self.jobs@));
        }
        let mut i: usize = 0;
        while i < self.jobs.len()
            invariant
                i <= self.jobs@.len(),
                self.wf(),
                forall|k: int| 0 <= k < i ==> self.jobs@[k].issue_id@ != issue_id@,
            decreases self.jobs@.len() - i,
        {
            if str_eq(self.jobs[i].issue_id.as_str(), issue_id) {
                assert(job_views(self.jobs@)[i as int] == self.jobs@[i as int]@);
                proof {
                    lemma_job_map_lookup(job_views(self.jobs@));
                }
                assert(job_map(job_views(self.jobs@)).contains_key(
                    job_views(self.jobs@)[i as int].issue_id,
                ));
                return Some(i);
            }
            i = i + 1;
        }
        assert(!self.jobs().contains_key(issue_id@)) by {
            if self.jobs().contains_key(issue_id@) {
                let k = choose|k: int|
                    0 <= k < job_views(self.jobs@).len() && job_views(self.jobs@)[k].issue_id
                        == issue_id@;
                assert(job_views(self.jobs@)[k] == self.jobs@[k]@);
            }
        }
        None
    }

    /// The job of `issue_id`, if there is one.
    pub fn get_job(&self, issue_id: &str) -> (r: Option<&ImplJob>)
        requires
            self.wf(),
        ensures
            match r {
                Some(j) => self.jobs().contains_key(issue_id@) && self.jobs()[issue_id@] == j@,
                None => !self.jobs().contains_key(issue_id@),
            },
    {
        match self.find(issue_id) {
            Some(i) => Some(&self.jobs[i]),
            None => None,
        }
    }

    /// Whether `issue_id` has a job.
    pub fn has_job(&self, issue_id: &str) -> (b: bool)
        requires
            self.wf(),
        ensures
            b == self.jobs().contains_key(issue_id@),
    {
        self.find(issue_id).is_some()
    }

    /// Records a started job for `issue` in `worktree_path` (empty when the job has none),
    /// unless the issue already has a job; true when it was recorded.
    pub fn start(&mut self, issue: &Issue, worktree_path: Option<String>) -> (recorded: bool)
        requires
            old(self).wf(),
        ensures
            final(self).wf(),
            recorded == !old(self).jobs().contains_key(issue.id@),
            final(self).jobs() == if recorded {
                old(self).jobs().insert(
                    issue.id@,
                    started_job(
                        issue.id@,
                        match opt_view(worktree_path) {
                            Some(w) => w,
                            None => Seq::empty(),
                        },
                    ),
                )
            } else {
                old(self).jobs()
            },
    {
        if self.has_job(issue.id.as_str()) {
            return false;
        }
        let wt = match worktree_path {
            Some(w) => w,
            None => String::new(),
        };
        let job = ImplJob {
            issue_id: issue.id.clone(),
            branch: branch_name(issue.id.as_str()),
            worktree_path: wt,
            status: ImplStatus::Running,
            completed_at: None,
            session_id: None,
        };
        self.push_new(job);
        true
    }

    /// Appends a job for an issue that has none.
    fn push_new(&mut self, job: ImplJob)
        requires
            old(self).wf(),
            !old(self).jobs().contains_key(job.issue_id@),
        ensures
            final(self).wf(),
            final(self).jobs() == old(self).jobs().insert(job.issue_id@, job@),
    {
        proof {
            lemma_job_map_lookup(job_views(self.jobs@));
        }
        let ghost before = job_views(self.jobs@);
        let ghost jv = job@;
        self.jobs.push(job);
        assert(job_views(self.jobs@) =~= before.push(jv));
        assert(job_views(self.jobs@).drop_last() =~= before);
        assert(distinct_ids(job_views(self.jobs@))) by {
            assert forall|a: int, b: int|
                0 <= a < b < job_views(self.jobs@).len() implies job_views(self.jobs@)[a].issue_id
                != job_views(self.jobs@)[b].issue_id by {
                if b == before.len() {
                    assert(before[a].issue_id != jv.issue_id) by {
                        assert(job_map(before).contains_key(before[a].issue_id));
                    }
                } else {
                    assert(job_views(self.jobs@)[a] == before[a]);
                    assert(job_views(self.jobs@)[b] == before[b]);
                }
            }
        }
    }

    /// Adds `job` unless its issue already has one.
    fn add_if_absent(&mut self, job: ImplJob)
        requires
            old(self).wf(),
        ensures
            final(self).wf(),
            final(self).jobs() == insert_if_absent(old(self).jobs(), job@),
    {
        if !self.has_job(job.issue_id.as_str()) {
            self.push_new(job);
        }
    }

    /// Restores the jobs found at start-up: first those with a job directory (as running, in
    /// their recorded worktree or the issue's usual one), then those discovered from the
    /// worktrees; an issue that already has a job keeps it.
    pub fn restore_jobs(&mut self, repo_dir: &str, active: &Vec<ActiveJob>, discovered: Vec<ImplJob>)
        requires
            old(self).wf(),
        ensures
            final(self).wf(),
            final(self).jobs() == restore_discovered(
                restore_active(old(self).jobs(), repo_dir@, active_views(active@)),
                job_views(discovered@),
            ),
    {
        let ghost m0 = self.jobs();
        let mut i: usize = 0;
        while i < active.len()
            invariant
                i <= active@.len(),
                self.wf(),
                m0 == old(self).jobs(),
                self.jobs() == restore_active(m0, repo_dir@, active_views(active@).take(i as int)),
            decreases active@.len() - i,
        {
            let a = &active[i];
            let wt = match &a.meta.worktree_path {
                Some(w) => w.clone(),
                None => worktree_path(repo_dir, a.meta.issue_id.as_str()),
            };
            let job = ImplJob {
                issue_id: a.meta.issue_id.clone(),
                branch: branch_name(a.meta.issue_id.as_str()),
                worktree_path: wt,
                status: ImplStatus::Running,
                completed_at: None,
                session_id: None,
            };
            assert(active_views(active@).take(i + 1).drop_last() =~= active_views(active@).take(
                i as int,
            ));
            assert(active_views(active@).take(i + 1).last() == (
                a.meta.issue_id@,
                opt_view(a.meta.worktree_path),
            ));
            self.add_if_absent(job);
            i = i + 1;
        }
        assert(active_views(active@).take(active@.len() as int) =~= active_views(active@));
        let ghost m1 = self.jobs();
        let mut k: usize = 0;
        while k < discovered.len()
            invariant
                k <= discovered@.len(),
                self.wf(),
                self.jobs() == restore_discovered(m1, job_views(discovered@).take(k as int)),
            decreases discovered@.len() - k,
        {
            let job = discovered[k].clone();
            assert(job_views(discovered@).take(k + 1).drop_last() =~= job_views(discovered@).take(
                k as int,
            ));
            assert(job_views(discovered@).take(k + 1).last() == discovered@[k as int]@);
            self.add_if_absent(job);
            k = k + 1;
        }
        assert(job_views(discovered@).take(discovered@.len() as int) =~= job_views(discovered@));
    }

    /// Handles a job's report, stamping a success with the current local time.
    pub fn handle_event(&mut self, event: ImplEvent) -> (o: ImplOutcome)
        requires
            old(self).wf(),
        ensures
            final(self).wf(),
            exists|now: Seq<char>|
                now.len() > 0 && handled(old(self).jobs(), event, now, final(self).jobs(), o),
    {
        let now = local_now_rfc3339();
        let o = self.handle_event_at(event, now);
        o
    }

    /// Handles a job's report, taking `now` as the time of a success.
    pub fn handle_event_at(&mut self, event: ImplEvent, now: String) -> (o: ImplOutcome)
        requires
            old(self).wf(),
        ensures
            final(self).wf(),
            handled(old(self).jobs(), event, now@, final(self).jobs(), o),
    {
        match event {
            ImplEvent::Started { issue_id } => ImplOutcome::Started { issue_id },
            ImplEvent::Completed { issue_id, summary, session_id } => {
                if let Some(i) = self.find(issue_id.as_str()) {
                    let mut job = self.jobs[i].clone();
                    job.status = ImplStatus::Done;
                    job.completed_at = Some(now);
                    if session_id.is_some() {
                        job.session_id = session_id;
                    }
                    self.replace(i, job);
                }
                ImplOutcome::Completed { issue_id, summary }
            },
            ImplEvent::Failed { issue_id, error, session_id } => {
                if let Some(i) = self.find(issue_id.as_str()) {
                    let mut job = self.jobs[i].clone();
                    job.status = ImplStatus::Failed(error.clone());
                    if session_id.is_some() {
                        job.session_id = session_id;
                    }
                    self.replace(i, job);
                }
                ImplOutcome::Failed { issue_id, error }
            },
        }
    }

    /// Replaces the job at `i` by one for the same issue.
    fn replace(&mut self, i: usize, job: ImplJob)
        requires
            old(self).wf(),
            i < old(self).jobs@.len(),
            job.issue_id@ == old(self).jobs@[i as int].issue_id@,
        ensures
            final(self).wf(),
            final(self).jobs() == old(self).jobs().insert(job.issue_id@, job@),
    {
        let ghost before = job_views(self.jobs@);
        let ghost jv = job@;
        proof {
            lemma_job_map_update(before, i as int, jv);
        }
        self.jobs.set(i, job);
        assert(job_views(self.jobs@) =~= before.update(i as int, jv));
    }

    /// The job to merge and the branch to merge it into, when the issue's job is done.
    pub fn merge_plan(&self, issue_id: &str, epic_id: Option<&str>) -> (r: Option<(ImplJob, String)>)
        requires
            self.wf(),
        ensures
            match r {
                Some((job, target)) => self.jobs().contains_key(issue_id@) && self.jobs()[issue_id@]
                    == job@ && job@.status == ImplStatusView::Done && target@ == merge_target_spec(
                    match epic_id {
                        Some(e) => Some(e@),
                        None => None,
                    },
                ),
                None => !(self.jobs().contains_key(issue_id@) && self.jobs()[issue_id@].status
                    == ImplStatusView::Done),
            },
    {
        match self.find(issue_id) {
            Some(i) => {
                match self.jobs[i].status {
                    ImplStatus::Done => Some((self.jobs[i].clone(), merge_target(epic_id))),
                    _ => None,
                }
            },
            None => None,
        }
    }

    /// Forgets the job of `issue_id` (after it was merged or discarded).
    pub fn remove_job(&mut self, issue_id: &str)
        requires
            old(self).wf(),
        ensures
            final(self).wf(),
            final(self).jobs() == old(self).jobs().remove(issue_id@),
    {
        match self.find(issue_id) {
            Some(i) => {
                let ghost before = job_views(self.jobs@);
                proof {
                    lemma_job_map_remove(before, i as int);
                }
                self.jobs.remove(i);
                assert(job_views(self.jobs@) =~= before.remove(i as int));
            },
            None => {
                assert(self.jobs().remove(issue_id@) =~= self.jobs());
            },
        }
    }
}

/// What handling `event` does to the table `before`, with `now` as the time of a success:
/// a success or failure of an issue with a job updates that job, and nothing else changes.
pub open spec fn handled(
    before: Map<Seq<char>, ImplJobView>,
    event: ImplEvent,
    now: Seq<char>,
    after: Map<Seq<char>, ImplJobView>,
    o: ImplOutcome,
) -> bool {
    match event {
        ImplEvent::Started { issue_id } => o == (ImplOutcome::Started { issue_id }) && after
            == before,
        ImplEvent::Completed { issue_id, summary, session_id } => o == (ImplOutcome::Completed {
            issue_id,
            summary,
        }) && after == update_job(
            before,
            issue_id@,
            |j: ImplJobView| completed_job(j, now, opt_view(session_id)),
        ),
        ImplEvent::Failed { issue_id, error, session_id } => o == (ImplOutcome::Failed {
            issue_id,
            error,
        }) && after == update_job(
            before,
            issue_id@,
            |j: ImplJobView| failed_job(j, error@, opt_view(session_id)),
        ),
    }
}

/// A failure report for an issue with a job marks that job failed with the reported error,
/// keeps the session it reports (so the failed session can be resumed), and otherwise keeps the
/// job's earlier session; nothing else of the job changes.
pub proof fn law_failure_records_error_and_session(
    before: Map<Seq<char>, ImplJobView>,
    event: ImplEvent,
    now: Seq<char>,
    after: Map<Seq<char>, ImplJobView>,
    o: ImplOutcome,
)
    requires
        handled(before, event, now, after, o),
    ensures
        match event {
            ImplEvent::Failed { issue_id, error, session_id } => before.contains_key(issue_id@) ==> {
                let a = after[issue_id@];
                let b = before[issue_id@];
                &&& after.contains_key(issue_id@)
                &&& a.status == ImplStatusView::Failed(error@)
                &&& match session_id {
                    Some(s) => a.session_id == Some(s@),
                    None => a.session_id == b.session_id,
                }
                &&& a.issue_id == b.issue_id && a.branch == b.branch && a.worktree_path
                    == b.worktree_path && a.completed_at == b.completed_at
            },
            _ => true,
        },
{
}

/// A completion report for an issue with a job marks that job done at `now`, keeps the session
/// it reports, and otherwise keeps the job's earlier session.
pub proof fn law_completion_records_time_and_session(
    before: Map<Seq<char>, ImplJobView>,
    event: ImplEvent,
    now: Seq<char>,
    after: Map<Seq<char>, ImplJobView>,
    o: ImplOutcome,
)
    requires
        handled(before, event, now, after, o),
    ensures
        match event {
            ImplEvent::Completed { issue_id, session_id, .. } => before.contains_key(issue_id@)
                ==> {
                let a = after[issue_id@];
                let b = before[issue_id@];
                &&& after.contains_key(issue_id@)
                &&& a.status == ImplStatusView::Done
                &&& a.completed_at == Some(now)
                &&& match session_id {
                    Some(s) => a.session_id == Some(s@),
                    None => a.session_id == b.session_id,
                }
                &&& a.issue_id == b.issue_id && a.branch == b.branch && a.worktree_path
                    == b.worktree_path
            },
            _ => true,
        },
{
}

/// Handling an event changes at most the job of the issue it reports on: every other issue
/// keeps exactly the job it had, and no job appears or disappears.
pub proof fn law_event_touches_only_its_job(
    before: Map<Seq<char>, ImplJobView>,
    event: ImplEvent,
    now: Seq<char>,
    after: Map<Seq<char>, ImplJobView>,
    o: ImplOutcome,
    other: Seq<char>,
)
    requires
        handled(before, event, now, after, o),
        other != match event {
            ImplEvent::Started { issue_id } => issue_id@,
            ImplEvent::Completed { issue_id, .. } => issue_id@,
            ImplEvent::Failed { issue_id, .. } => issue_id@,
        },
    ensures
        after.dom() == before.dom(),
        after.contains_key(other) == before.contains_key(other),
        before.contains_key(other) ==> after[other] == before[other],
{
    match event {
        ImplEvent::Started { .. } => {},
        ImplEvent::Completed { issue_id, session_id, .. } => {
            if before.contains_key(issue_id@) {
                assert(after.dom() =~= before.dom());
            }
        },
        ImplEvent::Failed { issue_id, error, session_id } => {
            if before.contains_key(issue_id@) {
                assert(after.dom() =~= before.dom());
            }
        },
    }
}

/// Restoring at start-up never replaces a job an issue already has, and afterwards every
/// issue with a job directory or a discovered worktree has a job.
pub proof fn law_restore_keeps_and_covers(
    m: Map<Seq<char>, ImplJobView>,
    repo_dir: Seq<char>,
    active: Seq<(Seq<char>, Option<Seq<char>>)>,
    found: Seq<ImplJobView>,
)
    ensures
        forall|k: Seq<char>| #[trigger]
            m.contains_key(k) ==> restore_discovered(restore_active(m, repo_dir, active), found).contains_key(k)
                && restore_discovered(restore_active(m, repo_dir, active), found)[k] == m[k],
        forall|i: int| 0 <= i < active.len() ==> restore_discovered(restore_active(m, repo_dir, active), found).contains_key(
            #[trigger] active[i].0,
        ),
        forall|i: int| 0 <= i < found.len() ==> restore_discovered(restore_active(m, repo_dir, active), found).contains_key(
            #[trigger] found[i].issue_id,
        ),
{
    lemma_restore_active(m, repo_dir, active);
    lemma_restore_discovered(restore_active(m, repo_dir, active), found);
}

proof fn lemma_restore_active(
    m: Map<Seq<char>, ImplJobView>,
    repo_dir: Seq<char>,
    active: Seq<(Seq<char>, Option<Seq<char>>)>,
)
    ensures
        forall|k: Seq<char>| #[trigger]
            m.contains_key(k) ==> restore_active(m, repo_dir, active).contains_key(k)
                && restore_active(m, repo_dir, active)[k] == m[k],
        forall|i: int| 0 <= i < active.len() ==> restore_active(m, repo_dir, active).contains_key(
            #[trigger] active[i].0,
        ),
    decreases active.len(),
{
    if active.len() > 0 {
        let p = active.drop_last();
        lemma_restore_active(m, repo_dir, p);
        assert forall|i: int| 0 <= i < active.len() implies restore_active(
            m,
            repo_dir,
            active,
        ).contains_key(#[trigger] active[i].0) by {
            if i < p.len() {
                assert(active[i] == p[i]);
                assert(restore_active(m, repo_dir, p).contains_key(p[i].0));
            }
        }
    }
}

proof fn lemma_restore_discovered(m: Map<Seq<char>, ImplJobView>, found: Seq<ImplJobView>)
    ensures
        forall|k: Seq<char>| #[trigger]
            m.contains_key(k) ==> restore_discovered(m, found).contains_key(k) && restore_discovered(m, found)[k] == m[k],
        forall|i: int| 0 <= i < found.len() ==> restore_discovered(m, found).contains_key(
            #[trigger] found[i].issue_id,
        ),
    decreases found.len(),
{
    if found.len() > 0 {
        let p = found.drop_last();
        lemma_restore_discovered(m, p);
        assert forall|i: int| 0 <= i < found.len() implies restore_discovered(m, found).contains_key(
            #[trigger] found[i].issue_id,
        ) by {
            if i < p.len() {
                assert(found[i] == p[i]);
                assert(restore_discovered(m, p).contains_key(p[i].issue_id));
            }
        }
    }
}

/// Starting a job for an issue that had none and then forgetting it gives back the table one
/// started with.
pub proof fn law_start_then_remove(m: Map<Seq<char>, ImplJobView>, job: ImplJobView)
    requires
        !m.contains_key(job.issue_id),
    ensures
        m.insert(job.issue_id, job).remove(job.issue_id) == m,
{
    assert(m.insert(job.issue_id, job).remove(job.issue_id) =~= m);
}

} // verus!
