use vstd::prelude::*;
use crate::overwrite::{fill_random, FULL_PROGRESS, RUNNING_CEILING, START_PROGRESS};
use crate::notify::Notice;
use crate::text::str_equals;
use vstd::string::{StringExecFns, StrSliceExecFns};

verus! {

/// Where a job stands. Jobs only move forward:
/// queued, running, then finished or failed.
#[derive(Clone, Copy, Debug, PartialEq, Eq, Structural)]
pub enum JobState {
    Queued,
    Running,
    Finished,
    Failed,
}

/// One tracked erase request. Progress is in millionths of the whole.
pub struct Job {
    pub id: String,
    pub state: JobState,
    pub progress: u64,
    /// The latest status description.
    pub message: String,
    /// Where the job's certificate is stored, once it finished.
    pub certificate: Option<String>,
    /// What the notification attempt reported, once the job finished.
    pub notification: Option<String>,
}

impl Job {
    /// A job's own invariant: a certificate and a notification result
    /// exactly when finished; progress zero while queued, between the start
    /// and the end of the last pass while running, whole once finished.
    pub open spec fn wf(&self) -> bool {
        &&& (self.certificate is Some <==> self.state == JobState::Finished)
        &&& (self.notification is Some <==> self.state == JobState::Finished)
        &&& self.progress <= FULL_PROGRESS
        &&& (self.state == JobState::Finished ==> self.progress == FULL_PROGRESS)
        &&& (self.state == JobState::Running ==> START_PROGRESS <= self.progress <= RUNNING_CEILING)
        &&& (self.state == JobState::Queued ==> self.progress == 0)
    }

    /// A copy of the job.
    pub fn snapshot(&self) -> (r: Job)
        ensures
            r == *self,
    {
        let certificate = match &self.certificate {
            Some(c) => Some(c.clone()),
            None => None,
        };
        let notification = match &self.notification {
            Some(n) => Some(n.clone()),
            None => None,
        };
        Job {
            id: self.id.clone(),
            state: self.state,
            progress: self.progress,
            message: self.message.clone(),
            certificate,
            notification,
        }
    }
}

/// The transitions a job may take in one registry operation.
pub open spec fn spec_step(before: Job, after: Job) -> bool {
    &&& after.id@ == before.id@
    &&& after.wf()
    &&& match (before.state, after.state) {
        (JobState::Queued, JobState::Running) => after.progress == START_PROGRESS,
        (JobState::Running, JobState::Running) => after.progress >= before.progress,
        (JobState::Running, JobState::Failed) => after.progress == before.progress,
        (JobState::Running, JobState::Finished) => true,
        _ => false,
    }
}

/// The job that `create` appends.
pub open spec fn spec_queued(id: Seq<char>, job: Job) -> bool {
    &&& job.id@ == id
    &&& job.state == JobState::Queued
    &&& job.progress == 0
    &&& job.message@ == "queued"@
    &&& job.certificate is None
    &&& job.notification is None
}

/// Whether some job carries this identifier.
pub open spec fn spec_known(jobs: Seq<Job>, id: Seq<char>) -> bool {
    exists|i: int| 0 <= i < jobs.len() && #[trigger] jobs[i].id@ == id
}

/// No two jobs share an identifier.
pub open spec fn ids_distinct(jobs: Seq<Job>) -> bool {
    forall|i: int, j: int| 0 <= i < jobs.len() && 0 <= j < jobs.len() && i != j
        ==> #[trigger] jobs[i].id@ != #[trigger] jobs[j].id@
}

/// `after` is `before` started: running, at the starting progress.
pub open spec fn spec_started(before: Job, after: Job) -> bool {
    &&& after.id@ == before.id@
    &&& after.state == JobState::Running
    &&& after.progress == START_PROGRESS
    &&& after.message@ == "starting"@
    &&& after.certificate is None
    &&& after.notification is None
}

/// `after` is the running job `before` with new progress and message.
pub open spec fn spec_advanced(before: Job, after: Job, progress: u64, message: Seq<char>) -> bool {
    &&& after.id@ == before.id@
    &&& after.state == JobState::Running
    &&& after.progress == progress
    &&& after.message@ == message
    &&& after.certificate is None
    &&& after.notification is None
}

/// `after` is `before` failed: progress kept as last recorded, no certificate.
pub open spec fn spec_failed(before: Job, after: Job, message: Seq<char>) -> bool {
    &&& after.id@ == before.id@
    &&& after.state == JobState::Failed
    &&& after.progress == before.progress
    &&& after.message@ == message
    &&& after.certificate is None
    &&& after.notification is None
}

/// `after` is `before` finished: whole progress, certificate and
/// notification result recorded.
pub open spec fn spec_finished(before: Job, after: Job, certificate: Seq<char>, notice: Notice) -> bool {
    &&& after.id@ == before.id@
    &&& after.state == JobState::Finished
    &&& after.progress == FULL_PROGRESS
    &&& after.message@ == "completed"@
    &&& after.certificate is Some && after.certificate.unwrap()@ == certificate
    &&& after.notification is Some && after.notification.unwrap()@ == notice.spec_text()
}

/// Whether a job with this identifier exists and is in `state`.
pub open spec fn spec_job_with(jobs: Seq<Job>, id: Seq<char>, state: JobState) -> bool {
    exists|i: int| 0 <= i < jobs.len() && #[trigger] jobs[i].id@ == id && jobs[i].state == state
}

/// Relies on `uuid::Builder::from_random_bytes` and `into_uuid`, shown
/// through the `Display` of `Uuid`: a version-4 UUID made of the 16 random
/// bytes, in hyphenated form, 36 characters long.
#[verifier::external_body]
fn token_from_bytes(bytes: &Vec<u8>) -> (r: String)
    requires
        bytes@.len() == 16,
    ensures
        r@.len() == 36,
{
    let mut b = [0u8; 16];
    b.copy_from_slice(bytes.as_slice());
    uuid::Builder::from_random_bytes(b).into_uuid().to_string()
}

/// Why a submission was refused.
#[derive(Clone, Copy, Debug, PartialEq, Eq, Structural)]
pub enum SubmitError {
    /// The operating system supplied no random bytes for an identifier.
    RandomUnavailable,
    /// The drawn identifier is already in use.
    IdTaken,
}

/// The message of a job whose target does not exist.
pub fn not_found_message(path: &str) -> (r: String)
    ensures
        r@ == "path not found: "@ + path@,
{
    let mut s = String::from_str("path not found: ");
    s.append(path);
    s
}

/// Owns all jobs, in order of submission; jobs are never removed.
pub struct Registry {
    jobs: Vec<Job>,
}

impl Registry {
    pub closed spec fn view(&self) -> Seq<Job> {
        self.jobs@
    }

    pub closed spec fn wf(&self) -> bool {
        &&& ids_distinct(self.jobs@)
        &&& forall|i: int| 0 <= i < self.jobs@.len() ==> (#[trigger] self.jobs@[i]).wf()
    }

    /// An empty registry.
    pub fn new() -> (r: Registry)
        ensures
            r.wf(),
            r@.len() == 0,
    {
        Registry { jobs: Vec::new() }
    }

    /// The position of the job with this identifier.
    fn find(&self, id: &str) -> (r: Option<usize>)
        requires
            self.wf(),
        ensures
            r is Some ==> r.unwrap() < self@.len() && self@[r.unwrap() as int].id@ == id@,
            r is None ==> !spec_known(self@, id@),
    {
        let mut i: usize = 0;
        while i < self.jobs.len()
            invariant
                i <= self.jobs@.len(),
                forall|k: int| 0 <= k < i ==> #[trigger] self.jobs@[k].id@ != id@,
            decreases self.jobs@.len() - i,
        {
            if str_equals(self.jobs[i].id.as_str(), id) {
                return Some(i);
            }
            i = i + 1;
        }
        None
    }

    /// Appends a queued job under `id`, unless a job already carries it.
    pub fn create(&mut self, id: String) -> (r: bool)
        requires
            old(self).wf(),
        ensures
            final(self).wf(),
            r == !spec_known(old(self)@, id@),
            r ==> final(self)@.len() == old(self)@.len() + 1
                && final(self)@.subrange(0, old(self)@.len() as int) == old(self)@
                && spec_queued(id@, final(self)@.last()),
            !r ==> final(self)@ == old(self)@,
    {
        if self.find(id.as_str()).is_some() {
            return false;
        }
        proof {
            reveal_strlit("queued");
        }
        let job = Job {
            id,
            state: JobState::Queued,
            progress: 0,
            message: String::from_str("queued"),
            certificate: None,
            notification: None,
        };
        let ghost before = self.jobs@;
        self.jobs.push(job);
        assert(self.jobs@.subrange(0, before.len() as int) =~= before);
        assert(ids_distinct(self.jobs@)) by {
            assert forall|i: int, j: int| 0 <= i < self.jobs@.len() && 0 <= j < self.jobs@.len() && i != j
                implies #[trigger] self.jobs@[i].id@ != #[trigger] self.jobs@[j].id@ by {
                if i < before.len() && j < before.len() {
                    assert(before[i] == self.jobs@[i] && before[j] == self.jobs@[j]);
                } else if i < before.len() {
                    assert(before[i] == self.jobs@[i]);
                } else {
                    assert(before[j] == self.jobs@[j]);
                }
            }
        }
        true
    }

    /// Submits a new job under a fresh random identifier and returns it.
    /// Refused when no random bytes could be drawn, or, should it happen,
    /// when the identifier drawn is already in use; a 36-character
    /// identifier can only collide with another of that length.
    pub fn submit(&mut self) -> (r: Result<String, SubmitError>)
        requires
            old(self).wf(),
        ensures
            final(self).wf(),
            r is Ok ==> !spec_known(old(self)@, r.unwrap()@)
                && r.unwrap()@.len() == 36
                && final(self)@.len() == old(self)@.len() + 1
                && final(self)@.subrange(0, old(self)@.len() as int) == old(self)@
                && spec_queued(r.unwrap()@, final(self)@.last()),
            r is Err ==> final(self)@ == old(self)@,
            (forall|i: int| 0 <= i < old(self)@.len() ==> (#[trigger] old(self)@[i]).id@.len() != 36)
                ==> r != Err::<String, SubmitError>(SubmitError::IdTaken),
    {
        let mut bytes: Vec<u8> = Vec::new();
        let mut k: usize = 0;
        while k < 16
            invariant
                k <= 16,
                bytes@.len() == k,
            decreases 16 - k,
        {
            bytes.push(0u8);
            k = k + 1;
        }
        if !fill_random(&mut bytes) {
            return Err(SubmitError::RandomUnavailable);
        }
        let token = token_from_bytes(&bytes);
        if self.create(token.clone()) {
            Ok(token)
        } else {
            Err(SubmitError::IdTaken)
        }
    }

    /// A copy of the job with this identifier, if any.
    pub fn get(&self, id: &str) -> (r: Option<Job>)
        requires
            self.wf(),
        ensures
            r is None <==> !spec_known(self@, id@),
            r is Some ==> exists|i: int| 0 <= i < self@.len() && self@[i].id@ == id@ && r.unwrap() == #[trigger] self@[i],
    {
        match self.find(id) {
            Some(i) => Some(self.jobs[i].snapshot()),
            None => None,
        }
    }

    /// A copy of every job, in order of submission.
    pub fn list(&self) -> (r: Vec<Job>)
        requires
            self.wf(),
        ensures
            r@ == self@,
            ids_distinct(r@),
    {
        let mut out: Vec<Job> = Vec::new();
        let mut i: usize = 0;
        while i < self.jobs.len()
            invariant
                i <= self.jobs@.len(),
                out@ == self.jobs@.subrange(0, i as int),
            decreases self.jobs@.len() - i,
        {
            out.push(self.jobs[i].snapshot());
            i = i + 1;
            assert(out@ =~= self.jobs@.subrange(0, i as int));
        }
        assert(out@ =~= self.jobs@);
        out
    }

    /// Replaces the job at `i` by `job`, which takes an allowed step from it.
    fn replace(&mut self, i: usize, job: Job)
        requires
            old(self).wf(),
            i < old(self)@.len(),
            spec_step(old(self)@[i as int], job),
        ensures
            final(self).wf(),
            final(self)@ == old(self)@.update(i as int, job),
    {
        let ghost before = self.jobs@;
        self.jobs.set(i, job);
        assert(ids_distinct(self.jobs@)) by {
            assert forall|a: int, b: int| 0 <= a < self.jobs@.len() && 0 <= b < self.jobs@.len() && a != b
                implies #[trigger] self.jobs@[a].id@ != #[trigger] self.jobs@[b].id@ by {
                assert(self.jobs@[a].id@ == before[a].id@);
                assert(self.jobs@[b].id@ == before[b].id@);
            }
        }
    }
    /// Moves the queued job `id` to running. `false`, with nothing changed,
    /// when there is no such queued job.
    pub fn start(&mut self, id: &str) -> (r: bool)
        requires
            old(self).wf(),
        ensures
            final(self).wf(),
            r == spec_job_with(old(self)@, id@, JobState::Queued),
            r ==> exists|i: int| 0 <= i < old(self)@.len() && old(self)@[i].id@ == id@
                && final(self)@ == old(self)@.update(i, final(self)@[i])
                && spec_started(old(self)@[i], #[trigger] final(self)@[i])
                && spec_step(old(self)@[i], final(self)@[i]),
            !r ==> final(self)@ == old(self)@,
    {
        proof {
            reveal_strlit("starting");
        }
        match self.find(id) {
            Some(i) => {
                if self.jobs[i].state != JobState::Queued {
                    proof { self.lemma_unique_position(i as int, id@); }
                    return false;
                }
                let job = Job {
                    id: self.jobs[i].id.clone(),
                    state: JobState::Running,
                    progress: START_PROGRESS,
                    message: String::from_str("starting"),
                    certificate: None,
                    notification: None,
                };
                let ghost before = self@;
                self.replace(i, job);
                assert(self@ =~= before.update(i as int, self@[i as int]));
                assert(self@[i as int] == job);
                true
            },
            None => false,
        }
    }

    /// Records the progress and message of the running job `id`. Progress
    /// never goes back: `false`, with nothing changed, when there is no such
    /// running job or `progress` is below its current progress or beyond the
    /// end of the last pass.
    pub fn advance(&mut self, id: &str, progress: u64, message: String) -> (r: bool)
        requires
            old(self).wf(),
        ensures
            final(self).wf(),
            r == exists|i: int| 0 <= i < old(self)@.len() && #[trigger] old(self)@[i].id@ == id@
                && old(self)@[i].state == JobState::Running
                && old(self)@[i].progress <= progress <= RUNNING_CEILING,
            r ==> exists|i: int| 0 <= i < old(self)@.len() && old(self)@[i].id@ == id@
                && final(self)@ == old(self)@.update(i, final(self)@[i])
                && spec_advanced(old(self)@[i], #[trigger] final(self)@[i], progress, message@)
                && spec_step(old(self)@[i], final(self)@[i]),
            !r ==> final(self)@ == old(self)@,
    {
        match self.find(id) {
            Some(i) => {
                if self.jobs[i].state != JobState::Running || progress < self.jobs[i].progress
                    || progress > RUNNING_CEILING {
                    proof { self.lemma_unique_position(i as int, id@); }
                    return false;
                }
                let job = Job {
                    id: self.jobs[i].id.clone(),
                    state: JobState::Running,
                    progress,
                    message,
                    certificate: None,
                    notification: None,
                };
                let ghost before = self@;
                self.replace(i, job);
                assert(self@ =~= before.update(i as int, self@[i as int]));
                assert(self@[i as int] == job);
                true
            },
            None => false,
        }
    }

    /// Moves the running job `id` to failed, keeping its progress.
    /// `false`, with nothing changed, when there is no such running job.
    pub fn fail(&mut self, id: &str, message: String) -> (r: bool)
        requires
            old(self).wf(),
        ensures
            final(self).wf(),
            r == spec_job_with(old(self)@, id@, JobState::Running),
            r ==> exists|i: int| 0 <= i < old(self)@.len() && old(self)@[i].id@ == id@
                && final(self)@ == old(self)@.update(i, final(self)@[i])
                && spec_failed(old(self)@[i], #[trigger] final(self)@[i], message@)
                && spec_step(old(self)@[i], final(self)@[i]),
            !r ==> final(self)@ == old(self)@,
    {
        match self.find(id) {
            Some(i) => {
                if self.jobs[i].state != JobState::Running {
                    proof { self.lemma_unique_position(i as int, id@); }
                    return false;
                }
                let job = Job {
                    id: self.jobs[i].id.clone(),
                    state: JobState::Failed,
                    progress: self.jobs[i].progress,
                    message,
                    certificate: None,
                    notification: None,
                };
                let ghost before = self@;
                self.replace(i, job);
                assert(self@ =~= before.update(i as int, self@[i as int]));
                assert(self@[i as int] == job);
                true
            },
            None => false,
        }
    }

    /// Moves the running job `id` to finished, with whole progress, the
    /// certificate's location and the notification result. `false`, with
    /// nothing changed, when there is no such running job.
    pub fn finish(&mut self, id: &str, certificate: String, notice: &Notice) -> (r: bool)
        requires
            old(self).wf(),
        ensures
            final(self).wf(),
            r == spec_job_with(old(self)@, id@, JobState::Running),
            r ==> exists|i: int| 0 <= i < old(self)@.len() && old(self)@[i].id@ == id@
                && final(self)@ == old(self)@.update(i, final(self)@[i])
                && spec_finished(old(self)@[i], #[trigger] final(self)@[i], certificate@, *notice)
                && spec_step(old(self)@[i], final(self)@[i]),
            !r ==> final(self)@ == old(self)@,
    {
        proof {
            reveal_strlit("completed");
        }
        match self.find(id) {
            Some(i) => {
                if self.jobs[i].state != JobState::Running {
                    proof { self.lemma_unique_position(i as int, id@); }
                    return false;
                }
                let job = Job {
                    id: self.jobs[i].id.clone(),
                    state: JobState::Finished,
                    progress: FULL_PROGRESS,
                    message: String::from_str("completed"),
                    certificate: Some(certificate),
                    notification: Some(notice.text()),
                };
                let ghost before = self@;
                self.replace(i, job);
                assert(self@ =~= before.update(i as int, self@[i as int]));
                assert(self@[i as int] == job);
                true
            },
            None => false,
        }
    }

    /// With distinct identifiers, the job at `i` is the only one carrying its identifier.
    proof fn lemma_unique_position(&self, i: int, id: Seq<char>)
        requires
            self.wf(),
            0 <= i < self@.len(),
            self@[i].id@ == id,
        ensures
            forall|k: int| 0 <= k < self@.len() && #[trigger] self@[k].id@ == id ==> k == i,
    {
    }
}

/// A job's history as seen through registry operations: every operation
/// either leaves the job as it was or makes one allowed step.
pub open spec fn spec_trace(trace: Seq<Job>) -> bool {
    &&& trace.len() > 0
    &&& trace[0].wf()
    &&& forall|k: int| 0 <= k < trace.len() - 1 ==> #[trigger] trace[k + 1] == trace[k]
        || spec_step(trace[k], trace[k + 1])
}

/// Along any history of a job, progress never decreases, failed included,
/// a failed job stays failed, and a finished job's progress is whole.
pub proof fn lemma_progress_monotone(trace: Seq<Job>)
    requires
        spec_trace(trace),
    ensures
        forall|i: int, j: int| 0 <= i <= j < trace.len()
            ==> #[trigger] trace[i].progress <= #[trigger] trace[j].progress,
        forall|i: int, j: int| 0 <= i <= j < trace.len() && #[trigger] trace[i].state == JobState::Failed
            ==> #[trigger] trace[j].state == JobState::Failed,
        forall|j: int| 0 <= j < trace.len() && #[trigger] trace[j].state == JobState::Finished
            ==> trace[j].progress == FULL_PROGRESS,
{
    assert forall|j: int| 0 <= j < trace.len() implies {
        &&& (#[trigger] trace[j]).wf()
        &&& forall|i: int| 0 <= i <= j
            ==> #[trigger] trace[i].progress <= trace[j].progress
        &&& forall|i: int| 0 <= i <= j && #[trigger] trace[i].state == JobState::Failed
            ==> trace[j].state == JobState::Failed
    } by {
        lemma_trace_prefix(trace, j);
    }
}

proof fn lemma_trace_prefix(trace: Seq<Job>, j: int)
    requires
        spec_trace(trace),
        0 <= j < trace.len(),
    ensures
        trace[j].wf(),
        forall|i: int| 0 <= i <= j
            ==> #[trigger] trace[i].progress <= trace[j].progress,
        forall|i: int| 0 <= i <= j && #[trigger] trace[i].state == JobState::Failed
            ==> trace[j].state == JobState::Failed,
    decreases j,
{
    if j > 0 {
        lemma_trace_prefix(trace, j - 1);
        let k = j - 1;
        assert(trace[k + 1] == trace[k] || spec_step(trace[k], trace[k + 1]));
    }
}

impl Registry {
    /// In a well-formed registry a job holds a certificate exactly when it
    /// finished, and a finished job's progress is whole.
    pub proof fn lemma_certificate_iff_finished(&self, i: int)
        requires
            self.wf(),
            0 <= i < self@.len(),
        ensures
            self@[i].certificate is Some <==> self@[i].state == JobState::Finished,
            self@[i].state == JobState::Finished ==> self@[i].progress == FULL_PROGRESS,
    {
    }

    /// In a well-formed registry no two jobs share an identifier.
    pub proof fn lemma_ids_unique(&self)
        requires
            self.wf(),
        ensures
            ids_distinct(self@),
    {
    }
}

} // verus!
