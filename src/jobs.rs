//! Background analysis jobs: the job store and its polling protocol.
//!
//! The store maps an opaque job id to a status cell and the time the job was
//! created. Times are whole seconds on a clock chosen by the caller; a job is
//! dropped by the sweep in `create_job` once it is `MAX_JOB_AGE_SECS` old.

use vstd::prelude::*;
use vstd::string::*;

use crate::text::str_eq;

verus! {

/// Unique job identifier.
pub type JobId = String;

/// Age in seconds from which a job is dropped by the sweep (one hour).
pub const MAX_JOB_AGE_SECS: u64 = 3600;

/// Status of a background analysis job.
#[derive(Clone, Debug, PartialEq)]
pub enum JobStatus {
    /// Job is queued, waiting to start.
    Pending,
    /// Job is currently processing.
    Processing,
    /// Job completed successfully with a result.
    Complete(String),
    /// Job failed with an error message.
    Error(String),
}

/// The mathematical value of a `JobStatus`.
pub enum StatusView {
    Pending,
    Processing,
    Complete(Seq<char>),
    Error(Seq<char>),
}

impl View for JobStatus {
    type V = StatusView;

    open spec fn view(&self) -> StatusView {
        match self {
            JobStatus::Pending => StatusView::Pending,
            JobStatus::Processing => StatusView::Processing,
            JobStatus::Complete(t) => StatusView::Complete(t@),
            JobStatus::Error(e) => StatusView::Error(e@),
        }
    }
}

/// What a poll reports: pending, or a terminal outcome.
#[derive(Clone, Debug, PartialEq)]
pub enum AnalysisStatus {
    /// Job is queued or processing.
    Pending,
    /// Job completed successfully with a result.
    Complete(String),
    /// Job failed with an error message, or is unknown.
    Error(String),
}

/// The mathematical value of an `AnalysisStatus`.
pub enum PollView {
    Pending,
    Complete(Seq<char>),
    Error(Seq<char>),
}

impl View for AnalysisStatus {
    type V = PollView;

    open spec fn view(&self) -> PollView {
        match self {
            AnalysisStatus::Pending => PollView::Pending,
            AnalysisStatus::Complete(t) => PollView::Complete(t@),
            AnalysisStatus::Error(e) => PollView::Error(e@),
        }
    }
}

/// A job record as the store's view holds it.
pub struct JobView {
    pub status: StatusView,
    pub created_at: u64,
}

/// One job record.
struct JobEntry {
    id: JobId,
    status: JobStatus,
    created_at: u64,
}

/// In-memory job store.
pub struct JobStore {
    entries: Vec<JobEntry>,
}

/// The message a poll reports for an unknown id.
pub open spec fn not_found_message() -> Seq<char> {
    "Job not found"@
}

/// No two records share an id.
spec fn unique_ids(s: Seq<JobEntry>) -> bool {
    forall|i: int, j: int|
        0 <= i < s.len() && 0 <= j < s.len() && i != j ==> #[trigger] s[i].id@ != #[trigger] s[j].id@
}

spec fn entry_view(e: JobEntry) -> JobView {
    JobView { status: e.status@, created_at: e.created_at }
}

/// The map from id to record that a sequence of records with unique ids holds.
spec fn entries_map(s: Seq<JobEntry>) -> Map<Seq<char>, JobView> {
    Map::new(
        |k: Seq<char>| exists|i: int| 0 <= i < s.len() && s[i].id@ == k,
        |k: Seq<char>|
            entry_view(
                s[choose|i: int| 0 <= i < s.len() && s[i].id@ == k],
            ),
    )
}

/// A job created at `created_at` is still kept at time `now`.
pub open spec fn is_fresh(created_at: u64, now: u64) -> bool {
    now - created_at < MAX_JOB_AGE_SECS
}

/// The store after the sweep at time `now`: every record older than the
/// maximum age is gone, whatever its status.
pub open spec fn spec_sweep(m: Map<Seq<char>, JobView>, now: u64) -> Map<Seq<char>, JobView> {
    Map::new(|k: Seq<char>| m.dom().contains(k) && is_fresh(m[k].created_at, now), |k: Seq<char>| m[k])
}

/// The store after `create_job(id)` at time `now`.
pub open spec fn spec_create(m: Map<Seq<char>, JobView>, id: Seq<char>, now: u64) -> Map<
    Seq<char>,
    JobView,
> {
    spec_sweep(m, now).insert(id, JobView { status: StatusView::Pending, created_at: now })
}

/// The store after `update_job_status(id, status)`: the status of an existing
/// record is overwritten; an absent id leaves the store as it was.
pub open spec fn spec_update(m: Map<Seq<char>, JobView>, id: Seq<char>, status: StatusView) -> Map<
    Seq<char>,
    JobView,
> {
    if m.dom().contains(id) {
        m.insert(id, JobView { status, created_at: m[id].created_at })
    } else {
        m
    }
}

/// What a poll for `id` reports.
pub open spec fn spec_poll_result(m: Map<Seq<char>, JobView>, id: Seq<char>) -> PollView {
    if m.dom().contains(id) {
        match m[id].status {
            StatusView::Pending => PollView::Pending,
            StatusView::Processing => PollView::Pending,
            StatusView::Complete(t) => PollView::Complete(t),
            StatusView::Error(e) => PollView::Error(e),
        }
    } else {
        PollView::Error(not_found_message())
    }
}

/// The store after a poll for `id`: a record seen in a terminal state is consumed.
pub open spec fn spec_poll_store(m: Map<Seq<char>, JobView>, id: Seq<char>) -> Map<
    Seq<char>,
    JobView,
> {
    if m.dom().contains(id) {
        match m[id].status {
            StatusView::Complete(_) => m.remove(id),
            StatusView::Error(_) => m.remove(id),
            _ => m,
        }
    } else {
        m
    }
}

proof fn lemma_map_at(s: Seq<JobEntry>, i: int)
    requires
        unique_ids(s),
        0 <= i < s.len(),
    ensures
        entries_map(s).dom().contains(s[i].id@),
        entries_map(s)[s[i].id@] == entry_view(s[i]),
{
    let k = s[i].id@;
    assert(exists|j: int| 0 <= j < s.len() && s[j].id@ == k);
    let c = choose|j: int| 0 <= j < s.len() && s[j].id@ == k;
    assert(c == i);
}

proof fn lemma_map_absent(s: Seq<JobEntry>, k: Seq<char>)
    requires
        forall|i: int| 0 <= i < s.len() ==> #[trigger] s[i].id@ != k,
    ensures
        !entries_map(s).dom().contains(k),
{
}

/// Two sequences with unique ids and the same records, id by id, have the same map.
proof fn lemma_maps_equal(s: Seq<JobEntry>, t: Seq<JobEntry>, m: Map<Seq<char>, JobView>)
    requires
        unique_ids(s),
        forall|i: int| 0 <= i < s.len() ==> #[trigger] m.dom().contains(s[i].id@) && m[s[i].id@]
            == entry_view(s[i]),
        forall|k: Seq<char>|
            #[trigger] m.dom().contains(k) ==> exists|i: int| 0 <= i < s.len() && s[i].id@ == k,
        t == s,
    ensures
        entries_map(t) =~= m,
{
    assert forall|k: Seq<char>| #[trigger] entries_map(s).dom().contains(k) == m.dom().contains(k) by {
        if m.dom().contains(k) {
            let i = choose|i: int| 0 <= i < s.len() && s[i].id@ == k;
            lemma_map_at(s, i);
        }
    }
    assert forall|k: Seq<char>| #[trigger] entries_map(s).dom().contains(k) implies entries_map(
        s,
    )[k] == m[k] by {
        let i = choose|i: int| 0 <= i < s.len() && s[i].id@ == k;
        lemma_map_at(s, i);
    }
}

/// Two records with the same id and contents.
spec fn same_entry(a: JobEntry, b: JobEntry) -> bool {
    a.id@ == b.id@ && entry_view(a) == entry_view(b)
}

/// A copy of a record.
fn copy_entry(e: &JobEntry) -> (r: JobEntry)
    ensures
        same_entry(r, *e),
{
    JobEntry { id: e.id.clone(), status: copy_status(&e.status), created_at: e.created_at }
}

/// A copy of a status that keeps its contents.
fn copy_status(s: &JobStatus) -> (r: JobStatus)
    ensures
        r@ == s@,
{
    match s {
        JobStatus::Pending => JobStatus::Pending,
        JobStatus::Processing => JobStatus::Processing,
        JobStatus::Complete(t) => JobStatus::Complete(t.clone()),
        JobStatus::Error(e) => JobStatus::Error(e.clone()),
    }
}

impl JobStore {
    /// Well-formedness: ids are unique.
    pub closed spec fn wf(&self) -> bool {
        unique_ids(self.entries@)
    }

    /// The jobs held, by id.
    pub closed spec fn jobs(&self) -> Map<Seq<char>, JobView> {
        entries_map(self.entries@)
    }

    /// An empty store.
    pub fn new() -> (r: Self)
        ensures
            r.wf(),
            r.jobs() == Map::<Seq<char>, JobView>::empty(),
    {
        let r = JobStore { entries: Vec::new() };
        assert(r.jobs() =~= Map::<Seq<char>, JobView>::empty());
        r
    }

    /// Position of the record for `id`.
    fn find(&self, id: &str) -> (r: Option<usize>)
        ensures
            match r {
                Some(i) => i < self.entries@.len() && self.entries@[i as int].id@ == id@,
                None => forall|i: int|
                    0 <= i < self.entries@.len() ==> #[trigger] self.entries@[i].id@ != id@,
            },
    {
        let mut i: usize = 0;
        while i < self.entries.len()
            invariant
                i <= self.entries@.len(),
                forall|j: int| 0 <= j < i ==> #[trigger] self.entries@[j].id@ != id@,
            decreases self.entries@.len() - i,
        {
            if str_eq(self.entries[i].id.as_str(), id) {
                return Some(i);
            }
            i = i + 1;
        }
        None
    }

    /// An id that no held job has: `base` itself when it is free, else `base`
    /// extended with '-' until it is longer than every held id.
    pub fn fresh_id(&self, base: JobId) -> (r: JobId)
        requires
            self.wf(),
        ensures
            !self.jobs().dom().contains(r@),
            !self.jobs().dom().contains(base@) ==> r@ == base@,
    {
        if self.find(base.as_str()).is_none() {
            proof {
                lemma_map_absent(self.entries@, base@);
            }
            return base;
        }
        let mut longest: usize = 0;
        let mut i: usize = 0;
        while i < self.entries.len()
            invariant
                i <= self.entries@.len(),
                forall|j: int| 0 <= j < i ==> #[trigger] self.entries@[j].id@.len() <= longest,
            decreases self.entries@.len() - i,
        {
            let n = self.entries[i].id.as_str().unicode_len();
            if n > longest {
                longest = n;
            }
            i = i + 1;
        }
        let mut id = base;
        while id.as_str().unicode_len() <= longest
            invariant
                forall|j: int|
                    0 <= j < self.entries@.len() ==> #[trigger] self.entries@[j].id@.len() <= longest,
            decreases longest + 1 - id@.len(),
        {
            proof {
                reveal_strlit("-");
            }
            id.append("-");
        }
        proof {
            lemma_map_absent(self.entries@, id@);
        }
        id
    }

    /// Drop every record that is at least `MAX_JOB_AGE_SECS` old at time `now`.
    pub fn cleanup_old_jobs(&mut self, now: u64)
        requires
            old(self).wf(),
        ensures
            final(self).wf(),
            final(self).jobs() == spec_sweep(old(self).jobs(), now),
    {
        let ghost old_entries = self.entries@;
        let ghost n = old_entries.len();
        let ghost target = spec_sweep(entries_map(old_entries), now);
        let mut kept: Vec<JobEntry> = Vec::new();
        let mut i: usize = 0;
        while i < self.entries.len()
            invariant
                self.entries@ == old_entries,
                unique_ids(old_entries),
                n == old_entries.len(),
                i <= n,
                unique_ids(kept@),
                forall|m: int|
                    0 <= m < kept@.len() ==> exists|j: int|
                        0 <= j < i && same_entry(#[trigger] kept@[m], old_entries[j]) && is_fresh(
                            old_entries[j].created_at,
                            now,
                        ),
                forall|j: int|
                    0 <= j < i && is_fresh(old_entries[j].created_at, now) ==> exists|m: int|
                        0 <= m < kept@.len() && same_entry(kept@[m], #[trigger] old_entries[j]),
            decreases n - i,
        {
            let e = &self.entries[i];
            let fresh = now < e.created_at || now - e.created_at < MAX_JOB_AGE_SECS;
            if fresh {
                let ghost before = kept@;
                let c = copy_entry(e);
                kept.push(c);
                proof {
                    assert forall|a: int, b: int|
                        0 <= a < kept@.len() && 0 <= b < kept@.len() && a != b implies #[trigger] kept@[a].id@
                        != #[trigger] kept@[b].id@ by {
                        if a < before.len() && b < before.len() {
                            assert(before[a] == kept@[a] && before[b] == kept@[b]);
                        } else if a < before.len() {
                            let ja = choose|j: int|
                                0 <= j < i && same_entry(#[trigger] before[a], old_entries[j])
                                    && is_fresh(old_entries[j].created_at, now);
                            assert(kept@[a] == before[a]);
                            assert(ja != i);
                        } else if b < before.len() {
                            let jb = choose|j: int|
                                0 <= j < i && same_entry(#[trigger] before[b], old_entries[j])
                                    && is_fresh(old_entries[j].created_at, now);
                            assert(kept@[b] == before[b]);
                            assert(jb != i);
                        }
                    }
                    assert forall|m: int| 0 <= m < kept@.len() implies exists|j: int|
                        0 <= j < i + 1 && same_entry(#[trigger] kept@[m], old_entries[j]) && is_fresh(
                            old_entries[j].created_at,
                            now,
                        ) by {
                        if m < before.len() {
                            assert(kept@[m] == before[m]);
                        } else {
                            assert(same_entry(kept@[m], old_entries[i as int]));
                        }
                    }
                    assert forall|j: int|
                        0 <= j < i + 1 && is_fresh(
                            old_entries[j].created_at,
                            now,
                        ) implies exists|m: int|
                        0 <= m < kept@.len() && same_entry(kept@[m], #[trigger] old_entries[j]) by {
                        if j < i {
                            let m = choose|m: int|
                                0 <= m < before.len() && same_entry(before[m], old_entries[j]);
                            assert(kept@[m] == before[m]);
                        } else {
                            assert(same_entry(kept@[before.len() as int], old_entries[j]));
                        }
                    }
                }
            }
            i = i + 1;
        }
        proof {
            assert forall|m: int| 0 <= m < kept@.len() implies #[trigger] target.dom().contains(
                kept@[m].id@,
            ) && target[kept@[m].id@] == entry_view(kept@[m]) by {
                let j = choose|j: int|
                    0 <= j < n && same_entry(#[trigger] kept@[m], old_entries[j]) && is_fresh(
                        old_entries[j].created_at,
                        now,
                    );
                lemma_map_at(old_entries, j);
            }
            assert forall|k: Seq<char>| #[trigger] target.dom().contains(k) implies exists|m: int|
                0 <= m < kept@.len() && kept@[m].id@ == k by {
                let j = choose|j: int| 0 <= j < n && old_entries[j].id@ == k;
                lemma_map_at(old_entries, j);
                let m = choose|m: int| 0 <= m < kept@.len() && same_entry(kept@[m], old_entries[j]);
            }
            lemma_maps_equal(kept@, kept@, target);
        }
        self.entries = kept;
    }

    /// Create a new job with `Pending` status at time `now`, after sweeping
    /// out every record that is an hour old or older.
    pub fn create_job(&mut self, job_id: &JobId, now: u64)
        requires
            old(self).wf(),
        ensures
            final(self).wf(),
            final(self).jobs() == spec_create(old(self).jobs(), job_id@, now),
    {
        self.cleanup_old_jobs(now);
        let ghost swept = self.entries@;
        let entry = JobEntry { id: job_id.clone(), status: JobStatus::Pending, created_at: now };
        match self.find(job_id.as_str()) {
            Some(i) => {
                self.entries.set(i, entry);
                proof {
                    let s = self.entries@;
                    assert forall|a: int, b: int|
                        0 <= a < s.len() && 0 <= b < s.len() && a != b implies #[trigger] s[a].id@
                        != #[trigger] s[b].id@ by {
                        assert(swept[a].id@ != swept[b].id@);
                    }
                    let target = spec_create(entries_map(swept), job_id@, now);
                    assert forall|m: int| 0 <= m < s.len() implies #[trigger] target.dom().contains(
                        s[m].id@,
                    ) && target[s[m].id@] == entry_view(s[m]) by {
                        lemma_map_at(swept, m);
                    }
                    assert forall|k: Seq<char>| #[trigger] target.dom().contains(k) implies exists|
                        m: int,
                    | 0 <= m < s.len() && s[m].id@ == k by {
                        if k != job_id@ {
                            let m = choose|m: int| 0 <= m < swept.len() && swept[m].id@ == k;
                            assert(s[m].id@ == k);
                        } else {
                            assert(s[i as int].id@ == k);
                        }
                    }
                    lemma_maps_equal(s, s, target);
                }
            },
            None => {
                self.entries.push(entry);
                proof {
                    let s = self.entries@;
                    assert forall|a: int, b: int|
                        0 <= a < s.len() && 0 <= b < s.len() && a != b implies #[trigger] s[a].id@
                        != #[trigger] s[b].id@ by {
                        if a < swept.len() && b < swept.len() {
                            assert(swept[a].id@ != swept[b].id@);
                        } else if a < swept.len() {
                            assert(swept[a].id@ != job_id@);
                        } else if b < swept.len() {
                            assert(swept[b].id@ != job_id@);
                        }
                    }
                    let target = spec_create(entries_map(swept), job_id@, now);
                    assert forall|m: int| 0 <= m < s.len() implies #[trigger] target.dom().contains(
                        s[m].id@,
                    ) && target[s[m].id@] == entry_view(s[m]) by {
                        if m < swept.len() {
                            lemma_map_at(swept, m);
                            assert(s[m] == swept[m]);
                            assert(swept[m].id@ != job_id@);
                        }
                    }
                    assert forall|k: Seq<char>| #[trigger] target.dom().contains(k) implies exists|
                        m: int,
                    | 0 <= m < s.len() && s[m].id@ == k by {
                        if k != job_id@ {
                            let m = choose|m: int| 0 <= m < swept.len() && swept[m].id@ == k;
                            assert(s[m] == swept[m]);
                        } else {
                            assert(s[swept.len() as int].id@ == k);
                        }
                    }
                    lemma_maps_equal(s, s, target);
                }
            },
        }
    }

    /// Overwrite the status of job `job_id`; nothing happens if it is absent.
    pub fn update_job_status(&mut self, job_id: &JobId, status: JobStatus)
        requires
            old(self).wf(),
        ensures
            final(self).wf(),
            final(self).jobs() == spec_update(old(self).jobs(), job_id@, status@),
    {
        let ghost before = self.entries@;
        match self.find(job_id.as_str()) {
            Some(i) => {
                let created_at = self.entries[i].created_at;
                let id = self.entries[i].id.clone();
                self.entries.set(i, JobEntry { id, status, created_at });
                proof {
                    let s = self.entries@;
                    assert forall|a: int, b: int|
                        0 <= a < s.len() && 0 <= b < s.len() && a != b implies #[trigger] s[a].id@
                        != #[trigger] s[b].id@ by {
                        assert(before[a].id@ != before[b].id@);
                    }
                    lemma_map_at(before, i as int);
                    let target = spec_update(entries_map(before), job_id@, status@);
                    assert forall|m: int| 0 <= m < s.len() implies #[trigger] target.dom().contains(
                        s[m].id@,
                    ) && target[s[m].id@] == entry_view(s[m]) by {
                        lemma_map_at(before, m);
                    }
                    assert forall|k: Seq<char>| #[trigger] target.dom().contains(k) implies exists|
                        m: int,
                    | 0 <= m < s.len() && s[m].id@ == k by {
                        let m = choose|m: int| 0 <= m < before.len() && before[m].id@ == k;
                        assert(s[m].id@ == k);
                    }
                    lemma_maps_equal(s, s, target);
                }
            },
            None => {
                proof {
                    lemma_map_absent(before, job_id@);
                }
            },
        }
    }

    /// The status of job `job_id`, if it is held.
    pub fn get_job_status(&self, job_id: &JobId) -> (r: Option<JobStatus>)
        requires
            self.wf(),
        ensures
            match r {
                Some(s) => self.jobs().dom().contains(job_id@) && s@ == self.jobs()[job_id@].status,
                None => !self.jobs().dom().contains(job_id@),
            },
    {
        match self.find(job_id.as_str()) {
            Some(i) => {
                proof {
                    lemma_map_at(self.entries@, i as int);
                }
                Some(copy_status(&self.entries[i].status))
            },
            None => {
                proof {
                    lemma_map_absent(self.entries@, job_id@);
                }
                None
            },
        }
    }

    /// Remove job `job_id`, if it is held.
    pub fn remove_job(&mut self, job_id: &JobId)
        requires
            old(self).wf(),
        ensures
            final(self).wf(),
            final(self).jobs() == old(self).jobs().remove(job_id@),
    {
        let ghost before = self.entries@;
        match self.find(job_id.as_str()) {
            Some(i) => {
                self.entries.remove(i);
                proof {
                    let s = self.entries@;
                    assert forall|m: int| 0 <= m < s.len() implies #[trigger] s[m] == if m < i {
                        before[m]
                    } else {
                        before[m + 1]
                    } by {}
                    assert forall|a: int, b: int|
                        0 <= a < s.len() && 0 <= b < s.len() && a != b implies #[trigger] s[a].id@
                        != #[trigger] s[b].id@ by {
                        let a2 = if a < i {
                            a
                        } else {
                            a + 1
                        };
                        let b2 = if b < i {
                            b
                        } else {
                            b + 1
                        };
                        assert(s[a] == before[a2] && s[b] == before[b2]);
                        assert(before[a2].id@ != before[b2].id@);
                    }
                    let target = entries_map(before).remove(job_id@);
                    assert forall|m: int| 0 <= m < s.len() implies #[trigger] target.dom().contains(
                        s[m].id@,
                    ) && target[s[m].id@] == entry_view(s[m]) by {
                        let m2 = if m < i {
                            m
                        } else {
                            m + 1
                        };
                        assert(s[m] == before[m2]);
                        lemma_map_at(before, m2);
                        assert(before[m2].id@ != before[i as int].id@);
                    }
                    assert forall|k: Seq<char>| #[trigger] target.dom().contains(k) implies exists|
                        m: int,
                    | 0 <= m < s.len() && s[m].id@ == k by {
                        let j = choose|j: int| 0 <= j < before.len() && before[j].id@ == k;
                        assert(j != i);
                        if j < i {
                            assert(s[j] == before[j]);
                        } else {
                            assert(s[j - 1] == before[j]);
                        }
                    }
                    lemma_maps_equal(s, s, target);
                }
            },
            None => {
                proof {
                    lemma_map_absent(before, job_id@);
                    assert(entries_map(before).remove(job_id@) =~= entries_map(before));
                }
            },
        }
    }

    /// Answer a poll for job `job_id`: `Pending` while the job is pending or
    /// processing; its result or error once it is terminal, consuming the
    /// record; "Job not found" for an unknown id.
    pub fn poll(&mut self, job_id: &JobId) -> (r: AnalysisStatus)
        requires
            old(self).wf(),
        ensures
            final(self).wf(),
            r@ == spec_poll_result(old(self).jobs(), job_id@),
            final(self).jobs() == spec_poll_store(old(self).jobs(), job_id@),
    {
        match self.get_job_status(job_id) {
            Some(JobStatus::Pending) | Some(JobStatus::Processing) => AnalysisStatus::Pending,
            Some(JobStatus::Complete(result)) => {
                self.remove_job(job_id);
                AnalysisStatus::Complete(result)
            },
            Some(JobStatus::Error(err)) => {
                self.remove_job(job_id);
                AnalysisStatus::Error(err)
            },
            None => {
                proof {
                    reveal_strlit("Job not found");
                }
                AnalysisStatus::Error(String::from_str("Job not found"))
            },
        }
    }
}

/// Create a new job with `Pending` status at time `now`.
pub fn create_job(store: &mut JobStore, job_id: &JobId, now: u64)
    requires
        old(store).wf(),
    ensures
        final(store).wf(),
        final(store).jobs() == spec_create(old(store).jobs(), job_id@, now),
{
    store.create_job(job_id, now)
}

/// Update the status of an existing job; an absent id is ignored.
pub fn update_job_status(store: &mut JobStore, job_id: &JobId, status: JobStatus)
    requires
        old(store).wf(),
    ensures
        final(store).wf(),
        final(store).jobs() == spec_update(old(store).jobs(), job_id@, status@),
{
    store.update_job_status(job_id, status)
}

/// Get a job's status without consuming it.
pub fn get_job_status(store: &JobStore, job_id: &JobId) -> (r: Option<JobStatus>)
    requires
        store.wf(),
    ensures
        match r {
            Some(s) => store.jobs().dom().contains(job_id@) && s@ == store.jobs()[job_id@].status,
            None => !store.jobs().dom().contains(job_id@),
        },
{
    store.get_job_status(job_id)
}

/// Remove a job.
pub fn remove_job(store: &mut JobStore, job_id: &JobId)
    requires
        old(store).wf(),
    ensures
        final(store).wf(),
        final(store).jobs() == old(store).jobs().remove(job_id@),
{
    store.remove_job(job_id)
}

/// Answer a status poll for a job (see `JobStore::poll`).
pub fn get_analysis_status(store: &mut JobStore, job_id: &JobId) -> (r: AnalysisStatus)
    requires
        old(store).wf(),
    ensures
        final(store).wf(),
        r@ == spec_poll_result(old(store).jobs(), job_id@),
        final(store).jobs() == spec_poll_store(old(store).jobs(), job_id@),
{
    store.poll(job_id)
}

/// A job just created polls as pending, without being consumed, and still
/// polls as pending once the runner has marked it processing.
pub proof fn lemma_new_job_polls_pending(m: Map<Seq<char>, JobView>, id: Seq<char>, now: u64)
    ensures
        spec_poll_result(spec_create(m, id, now), id) == PollView::Pending,
        spec_poll_store(spec_create(m, id, now), id) == spec_create(m, id, now),
        spec_poll_result(spec_update(spec_create(m, id, now), id, StatusView::Processing), id)
            == PollView::Pending,
{
}

/// A job that completed with text `t` is reported as `Complete(t)` by exactly
/// one poll: that poll consumes it, and every later poll reports "Job not
/// found" and leaves the store as it is.
pub proof fn lemma_complete_polled_once(m: Map<Seq<char>, JobView>, id: Seq<char>, t: Seq<char>)
    requires
        m.dom().contains(id),
        m[id].status == StatusView::Complete(t),
    ensures
        spec_poll_result(m, id) == PollView::Complete(t),
        spec_poll_result(spec_poll_store(m, id), id) == PollView::Error(not_found_message()),
        spec_poll_store(spec_poll_store(m, id), id) == spec_poll_store(m, id),
{
}

/// The same holds of a job that failed with message `e`.
pub proof fn lemma_error_polled_once(m: Map<Seq<char>, JobView>, id: Seq<char>, e: Seq<char>)
    requires
        m.dom().contains(id),
        m[id].status == StatusView::Error(e),
    ensures
        spec_poll_result(m, id) == PollView::Error(e),
        spec_poll_result(spec_poll_store(m, id), id) == PollView::Error(not_found_message()),
        spec_poll_store(spec_poll_store(m, id), id) == spec_poll_store(m, id),
{
}

/// A job created an hour or more before a later `create_job` is gone after
/// it, whatever its status and whether or not it was ever polled.
pub proof fn lemma_create_drops_stale(
    m: Map<Seq<char>, JobView>,
    id: Seq<char>,
    now: u64,
    stale: Seq<char>,
)
    requires
        m.dom().contains(stale),
        now - m[stale].created_at >= MAX_JOB_AGE_SECS,
        stale != id,
    ensures
        !spec_create(m, id, now).dom().contains(stale),
{
}

/// Operations on one job id never change the record of another: creating,
/// updating or polling job `b` leaves job `a` as it was (creation may only
/// drop it by the age sweep).
pub proof fn lemma_jobs_independent(
    m: Map<Seq<char>, JobView>,
    a: Seq<char>,
    b: Seq<char>,
    status: StatusView,
    now: u64,
)
    requires
        a != b,
    ensures
        spec_update(m, b, status).dom().contains(a) == m.dom().contains(a),
        m.dom().contains(a) ==> spec_update(m, b, status)[a] == m[a],
        spec_poll_store(m, b).dom().contains(a) == m.dom().contains(a),
        m.dom().contains(a) ==> spec_poll_store(m, b)[a] == m[a],
        spec_poll_result(spec_poll_store(m, b), a) == spec_poll_result(m, a),
        spec_poll_result(spec_update(m, b, status), a) == spec_poll_result(m, a),
        m.dom().contains(a) && is_fresh(m[a].created_at, now) ==> spec_create(m, b, now).dom().contains(
            a,
        ) && spec_create(m, b, now)[a] == m[a],
{
}

/// Two jobs with distinct ids, created together and completed in either
/// order, each poll as their own text.
pub proof fn lemma_two_jobs_keep_own_results(
    m: Map<Seq<char>, JobView>,
    a: Seq<char>,
    b: Seq<char>,
    ta: Seq<char>,
    tb: Seq<char>,
    now: u64,
)
    requires
        a != b,
    ensures
        ({
            let created = spec_create(spec_create(m, a, now), b, now);
            let done = spec_update(
                spec_update(created, b, StatusView::Complete(tb)),
                a,
                StatusView::Complete(ta),
            );
            &&& spec_poll_result(done, a) == PollView::Complete(ta)
            &&& spec_poll_result(spec_poll_store(done, a), b) == PollView::Complete(tb)
        }),
{
    let created = spec_create(spec_create(m, a, now), b, now);
    assert(created.dom().contains(a));
    assert(created.dom().contains(b));
}

/// One store operation, as a step of an interleaved history.
pub enum JobOp {
    Create(Seq<char>, u64),
    Update(Seq<char>, StatusView),
    Poll(Seq<char>),
}

/// The job id an operation names.
pub open spec fn op_id(op: JobOp) -> Seq<char> {
    match op {
        JobOp::Create(id, _) => id,
        JobOp::Update(id, _) => id,
        JobOp::Poll(id) => id,
    }
}

/// The store after one operation.
pub open spec fn apply_op(m: Map<Seq<char>, JobView>, op: JobOp) -> Map<Seq<char>, JobView> {
    match op {
        JobOp::Create(id, now) => spec_create(m, id, now),
        JobOp::Update(id, status) => spec_update(m, id, status),
        JobOp::Poll(id) => spec_poll_store(m, id),
    }
}

/// The store after a sequence of operations, in order.
pub open spec fn apply_ops(m: Map<Seq<char>, JobView>, ops: Seq<JobOp>) -> Map<Seq<char>, JobView>
    decreases ops.len(),
{
    if ops.len() == 0 {
        m
    } else {
        apply_ops(apply_op(m, ops[0]), ops.drop_first())
    }
}

/// No operation names `a`, and no creation sweeps out a job created at `created_at`.
pub open spec fn leaves_job_alone(ops: Seq<JobOp>, a: Seq<char>, created_at: u64) -> bool {
    forall|i: int|
        0 <= i < ops.len() ==> op_id(#[trigger] ops[i]) != a && match ops[i] {
            JobOp::Create(_, now) => is_fresh(created_at, now),
            _ => true,
        }
}

/// Any interleaving of operations on other jobs (creations, status updates,
/// polls) leaves job `a`'s record exactly as it was, provided no creation
/// comes an hour or more after `a` was created.
pub proof fn lemma_other_jobs_leave_record(m: Map<Seq<char>, JobView>, a: Seq<char>, ops: Seq<JobOp>)
    requires
        m.dom().contains(a),
        leaves_job_alone(ops, a, m[a].created_at),
    ensures
        apply_ops(m, ops).dom().contains(a),
        apply_ops(m, ops)[a] == m[a],
    decreases ops.len(),
{
    if ops.len() > 0 {
        let op = ops[0];
        assert(op_id(op) != a);
        let m1 = apply_op(m, op);
        match op {
            JobOp::Create(b, now) => {
                assert(is_fresh(m[a].created_at, now));
                lemma_jobs_independent(m, a, b, StatusView::Pending, now);
            },
            JobOp::Update(b, status) => {
                lemma_jobs_independent(m, a, b, status, 0);
            },
            JobOp::Poll(b) => {
                lemma_jobs_independent(m, a, b, StatusView::Pending, 0);
            },
        }
        let rest = ops.drop_first();
        assert forall|i: int| 0 <= i < rest.len() implies op_id(#[trigger] rest[i]) != a && match rest[i] {
            JobOp::Create(_, now) => is_fresh(m1[a].created_at, now),
            _ => true,
        } by {
            assert(rest[i] == ops[i + 1]);
        }
        lemma_other_jobs_leave_record(m1, a, rest);
    }
}

/// Of any number of jobs run and completed concurrently: once job `a` holds
/// its own text `t`, a poll for `a` reports exactly `t`, whatever operations
/// on the other jobs are interleaved before that poll.
pub proof fn lemma_job_polls_own_text(
    m: Map<Seq<char>, JobView>,
    a: Seq<char>,
    t: Seq<char>,
    ops: Seq<JobOp>,
)
    requires
        m.dom().contains(a),
        m[a].status == StatusView::Complete(t),
        leaves_job_alone(ops, a, m[a].created_at),
    ensures
        spec_poll_result(apply_ops(m, ops), a) == PollView::Complete(t),
{
    lemma_other_jobs_leave_record(m, a, ops);
}

/// Completing job `a` with text `t` makes it hold `t`, whatever the other
/// jobs hold; with the lemma above, each job polls as the text of its own id.
pub proof fn lemma_completion_sets_own_text(m: Map<Seq<char>, JobView>, a: Seq<char>, t: Seq<char>)
    requires
        m.dom().contains(a),
    ensures
        spec_update(m, a, StatusView::Complete(t)).dom().contains(a),
        spec_update(m, a, StatusView::Complete(t))[a].status == StatusView::Complete(t),
        spec_update(m, a, StatusView::Complete(t))[a].created_at == m[a].created_at,
{
}

} // verus!
