//! The downloader of one item: a conditional fetch, and a write that ends
//! with the file released on every path.
//!
//! Like the dispatcher, a job names the step to take next
//! ([`DownloadJob::action`]), and the caller reports how the step went.
//! Whether the local copy is current is judged by the conditional request
//! alone: the request carries the local modification time, and the server's
//! "not modified" ends the job. Lengths are not compared.

use crate::clock::{
    date_text, has_date_text, http_date_text, modified_time, mtime_from, rfc2822_instant,
    stated_instant,
};
use crate::report::{Failure, FailureKind, FailureView, Outcome, OutcomeView};
use vstd::pervasive::unreached;
use vstd::prelude::*;

verus! {

/// The status with which a server says that the local copy is current.
pub const NOT_MODIFIED: u16 = 304;

/// What a response status means for a conditional fetch.
#[derive(Clone, Copy, Debug, PartialEq, Eq, Structural)]
pub enum Verdict {
    /// A body follows and is to be stored.
    Store,
    /// The local copy is current.
    Current,
    /// The item cannot be had.
    Refused,
}

/// The verdict on a status: 304 says that the copy is current, 200 to 299
/// bring a body, everything else is a refusal.
pub open spec fn verdict_of(status: u16) -> Verdict {
    if status == NOT_MODIFIED {
        Verdict::Current
    } else if 200 <= status <= 299 {
        Verdict::Store
    } else {
        Verdict::Refused
    }
}

/// The verdict on a response status.
pub fn verdict(status: u16) -> (v: Verdict)
    ensures
        v == verdict_of(status),
{
    if status == NOT_MODIFIED {
        Verdict::Current
    } else if 200 <= status && status <= 299 {
        Verdict::Store
    } else {
        Verdict::Refused
    }
}

/// The instant that the conditional request states: the modification time of
/// the local file, or the epoch where there is no such file.
pub open spec fn baseline_of(modified_ms: Option<i64>) -> i64 {
    match modified_ms {
        Some(ms) => ms,
        None => 0,
    }
}

/// What the file system knows of the destination before the fetch.
#[derive(Clone, Copy, Debug, PartialEq, Eq, Structural)]
pub struct LocalRecord {
    /// The modification time of the file in milliseconds since the epoch;
    /// `None` where the file does not exist or its time cannot be read.
    pub modified_ms: Option<i64>,
}

/// What a response says before its body.
#[derive(Debug, PartialEq, Eq)]
pub struct ResponseHead {
    /// The status code.
    pub status: u16,
    /// The `Last-Modified` header, where there is one that is text.
    pub last_modified: Option<String>,
    /// The declared length of the body, where there is one.
    pub content_length: Option<u64>,
}

/// The step that a job is at.
#[derive(Clone, Copy, Debug, PartialEq, Eq, Structural)]
pub enum Stage {
    /// The local file is to be looked at.
    Probing,
    /// The conditional request is to be sent.
    Requesting,
    /// The destination directory is to be created.
    MakingDir,
    /// The destination file is to be created or emptied.
    Creating,
    /// The file is to be given its declared length.
    Reserving,
    /// The body is to be written to the file.
    Copying,
    /// The file is to be flushed and closed.
    Releasing,
    /// The file is to be given the item's modification time.
    Stamping,
    /// The job has ended.
    Done,
}

/// A job's state as a mathematical value.
#[verifier::ext_equal]
pub struct JobState {
    pub stage: Stage,
    /// The date of the conditional request; empty before `Requesting`.
    pub since: Seq<char>,
    /// The item's modification time; zero before the response.
    pub mtime_ms: i64,
    /// The declared length of the body, if any.
    pub declared: Option<u64>,
    /// Whether the destination file is open.
    pub holds_file: bool,
    /// A failure that ends the job once the file is released.
    pub failure: Option<FailureView>,
    /// How the job ended; `Some` at `Done` and only there.
    pub outcome: Option<OutcomeView>,
}

/// What can happen to a job.
pub enum JobEvent {
    /// The local file was looked at.
    Local(LocalRecord),
    /// A response arrived at the instant `now_ms`.
    Response { status: u16, last_modified: Option<Seq<char>>, declared: Option<u64>, now_ms: i64 },
    /// The step asked for was taken.
    Succeeded,
    /// The step asked for failed; `detail` says how.
    Failed { detail: Seq<char> },
}

/// What a job asks its caller to do.
#[derive(Debug, PartialEq, Eq)]
pub enum JobAction {
    /// Read the modification time of the destination file.
    Stat,
    /// Send the request, with `since` as its `If-Modified-Since` header.
    Get { since: String },
    /// Create the destination directory and those above it.
    MakeDir,
    /// Create the destination file, or empty it.
    Create,
    /// Set the file's length to `len`. A failure is reported like any other
    /// and does no harm.
    Reserve { len: u64 },
    /// Write the body to the file, in the order in which it arrives.
    Copy,
    /// Flush the file and close it.
    Release,
    /// Set the file's modification time to `mtime_ms`. A failure is reported
    /// like any other and does no harm.
    Stamp { mtime_ms: i64 },
    /// Report the outcome; the job has ended.
    Finish { outcome: Outcome },
}

/// A [`JobAction`] as a mathematical value.
pub enum JobActionView {
    Stat,
    Get { since: Seq<char> },
    MakeDir,
    Create,
    Reserve { len: u64 },
    Copy,
    Release,
    Stamp { mtime_ms: i64 },
    Finish { outcome: OutcomeView },
}

impl View for JobAction {
    type V = JobActionView;

    open spec fn view(&self) -> JobActionView {
        match self {
            JobAction::Stat => JobActionView::Stat,
            JobAction::Get { since } => JobActionView::Get { since: since@ },
            JobAction::MakeDir => JobActionView::MakeDir,
            JobAction::Create => JobActionView::Create,
            JobAction::Reserve { len } => JobActionView::Reserve { len: *len },
            JobAction::Copy => JobActionView::Copy,
            JobAction::Release => JobActionView::Release,
            JobAction::Stamp { mtime_ms } => JobActionView::Stamp { mtime_ms: *mtime_ms },
            JobAction::Finish { outcome } => JobActionView::Finish { outcome: outcome@ },
        }
    }
}

/// The state of a job that has done nothing yet.
pub open spec fn fresh_job() -> JobState {
    JobState {
        stage: Stage::Probing,
        since: Seq::<char>::empty(),
        mtime_ms: 0,
        declared: None,
        holds_file: false,
        failure: None,
        outcome: None,
    }
}

/// The state `s` ended with `outcome`.
pub open spec fn ended(s: JobState, outcome: OutcomeView) -> JobState {
    JobState { stage: Stage::Done, holds_file: false, failure: None, outcome: Some(outcome), ..s }
}

/// The state `s` ended by a failure of `kind`.
pub open spec fn given_up(s: JobState, kind: FailureKind, detail: Seq<char>) -> JobState {
    ended(s, OutcomeView::Failed(FailureView { kind, detail }))
}

/// The transition function. An event that does not answer the action that
/// the state asks for leaves the state as it is.
pub open spec fn job_step(s: JobState, e: JobEvent) -> JobState {
    match (s.stage, e) {
        (Stage::Probing, JobEvent::Local(record)) => if has_date_text(
            baseline_of(record.modified_ms) as int,
        ) {
            JobState {
                stage: Stage::Requesting,
                since: http_date_text(baseline_of(record.modified_ms) as int),
                ..s
            }
        } else {
            given_up(s, FailureKind::LocalTime, Seq::<char>::empty())
        },
        (Stage::Requesting, JobEvent::Response { status, last_modified, declared, now_ms }) => {
            match verdict_of(status) {
                Verdict::Current => ended(s, OutcomeView::Unchanged),
                Verdict::Refused => given_up(s, FailureKind::Status(status), Seq::<char>::empty()),
                Verdict::Store => JobState {
                    stage: Stage::MakingDir,
                    mtime_ms: mtime_from(stated_instant(last_modified), now_ms),
                    declared,
                    ..s
                },
            }
        },
        (Stage::Requesting, JobEvent::Failed { detail }) => given_up(s, FailureKind::Request, detail),
        (Stage::MakingDir, JobEvent::Succeeded) => JobState { stage: Stage::Creating, ..s },
        (Stage::MakingDir, JobEvent::Failed { detail }) => given_up(
            s,
            FailureKind::CreateDir,
            detail,
        ),
        (Stage::Creating, JobEvent::Succeeded) => JobState {
            stage: if s.declared is Some {
                Stage::Reserving
            } else {
                Stage::Copying
            },
            holds_file: true,
            ..s
        },
        (Stage::Creating, JobEvent::Failed { detail }) => given_up(
            s,
            FailureKind::CreateFile,
            detail,
        ),
        (Stage::Reserving, JobEvent::Succeeded) => JobState { stage: Stage::Copying, ..s },
        (Stage::Reserving, JobEvent::Failed { .. }) => JobState { stage: Stage::Copying, ..s },
        (Stage::Copying, JobEvent::Succeeded) => JobState { stage: Stage::Releasing, ..s },
        (Stage::Copying, JobEvent::Failed { detail }) => JobState {
            stage: Stage::Releasing,
            failure: Some(FailureView { kind: FailureKind::Write, detail }),
            ..s
        },
        (Stage::Releasing, JobEvent::Succeeded) => match s.failure {
            Some(failure) => ended(s, OutcomeView::Failed(failure)),
            None => JobState { stage: Stage::Stamping, holds_file: false, ..s },
        },
        (Stage::Releasing, JobEvent::Failed { detail }) => match s.failure {
            Some(failure) => ended(s, OutcomeView::Failed(failure)),
            None => given_up(s, FailureKind::Flush, detail),
        },
        (Stage::Stamping, JobEvent::Succeeded) => ended(s, OutcomeView::Downloaded),
        (Stage::Stamping, JobEvent::Failed { .. }) => ended(s, OutcomeView::Downloaded),
        _ => s,
    }
}

/// The action that a state asks for.
pub open spec fn job_action_of(s: JobState) -> JobActionView {
    match s.stage {
        Stage::Probing => JobActionView::Stat,
        Stage::Requesting => JobActionView::Get { since: s.since },
        Stage::MakingDir => JobActionView::MakeDir,
        Stage::Creating => JobActionView::Create,
        Stage::Reserving => JobActionView::Reserve { len: s.declared.unwrap() },
        Stage::Copying => JobActionView::Copy,
        Stage::Releasing => JobActionView::Release,
        Stage::Stamping => JobActionView::Stamp { mtime_ms: s.mtime_ms },
        Stage::Done => JobActionView::Finish { outcome: s.outcome.unwrap() },
    }
}

/// What holds of every state that a job reaches: the file is open from its
/// creation until its release and at no other time, a failure is held back
/// only while the file awaits its release, and the job has an outcome when
/// it has ended and not before.
pub open spec fn job_inv(s: JobState) -> bool {
    &&& s.holds_file <==> s.stage == Stage::Reserving || s.stage == Stage::Copying || s.stage
        == Stage::Releasing
    &&& s.failure is Some ==> s.stage == Stage::Releasing
    &&& s.outcome is Some <==> s.stage == Stage::Done
    &&& s.stage == Stage::Reserving ==> s.declared is Some
}

/// The number of steps that a job at this stage has behind it at least.
pub open spec fn progress(stage: Stage) -> nat {
    match stage {
        Stage::Probing => 0,
        Stage::Requesting => 1,
        Stage::MakingDir => 2,
        Stage::Creating => 3,
        Stage::Reserving => 4,
        Stage::Copying => 5,
        Stage::Releasing => 6,
        Stage::Stamping => 7,
        Stage::Done => 8,
    }
}

/// The invariant holds at the start.
pub proof fn lemma_fresh_job_inv()
    ensures
        job_inv(fresh_job()),
{
}

/// Every transition keeps the invariant. In particular a job that has ended
/// holds no file, however it ended.
pub proof fn lemma_job_inv(s: JobState, e: JobEvent)
    ensures
        job_inv(s) ==> job_inv(job_step(s, e)),
        job_inv(s) && s.stage == Stage::Done ==> !s.holds_file,
{
}

/// A job never goes back: an event either leaves the state as it is or
/// moves the job to a later stage, so that a job ends after at most eight
/// steps. One attempt is made: nothing leads back to the request.
pub proof fn lemma_job_advances(s: JobState, e: JobEvent)
    ensures
        job_step(s, e) == s || progress(job_step(s, e).stage) > progress(s.stage),
        s.stage == Stage::Done ==> job_step(s, e) == s,
{
}

/// A job ends as unchanged exactly where the server answers the conditional
/// request with "not modified": no directory or file was created for it and
/// nothing was written.
pub proof fn lemma_unchanged_writes_nothing(s: JobState, e: JobEvent)
    requires
        job_inv(s),
        s.stage != Stage::Done,
    ensures
        job_step(s, e).outcome == Some(OutcomeView::Unchanged) <==> s.stage == Stage::Requesting && (
        e matches JobEvent::Response { status, .. } && status == NOT_MODIFIED),
        job_step(s, e).outcome == Some(OutcomeView::Unchanged) ==> !s.holds_file,
{
}

/// A job ends as downloaded only by way of the release of the file: the body
/// was written in full and flushed before the outcome is reported.
pub proof fn lemma_downloaded_after_release(s: JobState, e: JobEvent)
    requires
        job_inv(s),
        s.stage != Stage::Done,
    ensures
        job_step(s, e).outcome == Some(OutcomeView::Downloaded) <==> s.stage == Stage::Stamping && (
        e is Succeeded || e is Failed),
        job_step(s, e).stage == Stage::Stamping && s.stage != Stage::Stamping ==> s.stage
            == Stage::Releasing && e is Succeeded && s.failure is None,
{
}

/// The state of a job that started at `s` and took `steps` steps, each of
/// which succeeded.
pub open spec fn after_successes(s: JobState, steps: nat) -> JobState
    decreases steps,
{
    if steps == 0 {
        s
    } else {
        job_step(after_successes(s, (steps - 1) as nat), JobEvent::Succeeded)
    }
}

/// Fetching twice what has not changed is a download and then no download.
/// The first job finds no local file, is answered with a body and a
/// `Last-Modified` header that reads as the instant `modified_ms`, and
/// succeeds at every step: it ends as downloaded and has stamped the file
/// with `modified_ms`. The second job finds that stamp, states it in its
/// conditional request, is answered "not modified" and ends as unchanged,
/// without having asked for a file to be created or written.
pub proof fn lemma_fetch_twice(
    status: u16,
    last_modified: Seq<char>,
    declared: Option<u64>,
    modified_ms: i64,
    first_now_ms: i64,
    second: JobEvent,
)
    requires
        verdict_of(status) == Verdict::Store,
        rfc2822_instant(last_modified) == Some(modified_ms),
        has_date_text(modified_ms as int),
        second matches JobEvent::Response { status, .. } && status == NOT_MODIFIED,
    ensures
        ({
            let asked = job_step(fresh_job(), JobEvent::Local(LocalRecord { modified_ms: None }));
            let answered = job_step(
                asked,
                JobEvent::Response {
                    status,
                    last_modified: Some(last_modified),
                    declared,
                    now_ms: first_now_ms,
                },
            );
            let steps: nat = if declared is Some {
                5
            } else {
                4
            };
            &&& job_action_of(asked) == (JobActionView::Get { since: http_date_text(0) })
            &&& job_action_of(after_successes(answered, steps)) == (JobActionView::Stamp {
                mtime_ms: modified_ms,
            })
            &&& job_action_of(after_successes(answered, steps + 1)) == (JobActionView::Finish {
                outcome: OutcomeView::Downloaded,
            })
        }),
        ({
            let asked = job_step(
                fresh_job(),
                JobEvent::Local(LocalRecord { modified_ms: Some(modified_ms) }),
            );
            &&& job_action_of(asked) == (JobActionView::Get {
                since: http_date_text(modified_ms as int),
            })
            &&& job_action_of(job_step(asked, second)) == (JobActionView::Finish {
                outcome: OutcomeView::Unchanged,
            })
            &&& !job_step(asked, second).holds_file
        }),
{
    reveal_with_fuel(after_successes, 7);
}

/// The downloader of one item.
pub struct DownloadJob {
    stage: Stage,
    since: String,
    mtime_ms: i64,
    declared: Option<u64>,
    holds_file: bool,
    failure: Option<Failure>,
    outcome: Option<Outcome>,
}

impl View for DownloadJob {
    type V = JobState;

    closed spec fn view(&self) -> JobState {
        JobState {
            stage: self.stage,
            since: self.since@,
            mtime_ms: self.mtime_ms,
            declared: self.declared,
            holds_file: self.holds_file,
            failure: match self.failure {
                Some(failure) => Some(failure@),
                None => None,
            },
            outcome: match self.outcome {
                Some(outcome) => Some(outcome@),
                None => None,
            },
        }
    }
}

impl DownloadJob {
    /// The job is in a state that it can reach.
    pub closed spec fn wf(&self) -> bool {
        job_inv(self@)
    }

    /// A well-formed job satisfies the invariant of the state machine.
    pub proof fn lemma_wf(&self)
        requires
            self.wf(),
        ensures
            job_inv(self@),
    {
    }

    /// A job that has done nothing yet.
    pub fn new() -> (job: DownloadJob)
        ensures
            job.wf(),
            job@ == fresh_job(),
    {
        DownloadJob {
            stage: Stage::Probing,
            since: String::new(),
            mtime_ms: 0,
            declared: None,
            holds_file: false,
            failure: None,
            outcome: None,
        }
    }

    /// The step that the job is at.
    pub fn stage(&self) -> (stage: Stage)
        ensures
            stage == self@.stage,
    {
        self.stage
    }

    /// Whether the destination file is open.
    pub fn holds_file(&self) -> (b: bool)
        ensures
            b == self@.holds_file,
    {
        self.holds_file
    }

    /// What is to be done next.
    pub fn action(&self) -> (action: JobAction)
        requires
            self.wf(),
        ensures
            action@ == job_action_of(self@),
    {
        match self.stage {
            Stage::Probing => JobAction::Stat,
            Stage::Requesting => JobAction::Get { since: self.since.clone() },
            Stage::MakingDir => JobAction::MakeDir,
            Stage::Creating => JobAction::Create,
            Stage::Reserving => match self.declared {
                Some(len) => JobAction::Reserve { len },
                None => unreached(),
            },
            Stage::Copying => JobAction::Copy,
            Stage::Releasing => JobAction::Release,
            Stage::Stamping => JobAction::Stamp { mtime_ms: self.mtime_ms },
            Stage::Done => match &self.outcome {
                Some(outcome) => JobAction::Finish { outcome: outcome.clone() },
                None => unreached(),
            },
        }
    }

    fn end(&mut self, outcome: Outcome)
        ensures
            final(self)@ == ended(old(self)@, outcome@),
    {
        self.stage = Stage::Done;
        self.holds_file = false;
        self.failure = None;
        self.outcome = Some(outcome);
    }

    /// The local file was looked at.
    pub fn local(&mut self, record: LocalRecord)
        requires
            old(self).wf(),
        ensures
            final(self).wf(),
            final(self)@ == job_step(old(self)@, JobEvent::Local(record)),
    {
        proof {
            lemma_job_inv(self@, JobEvent::Local(record));
        }
        match self.stage {
            Stage::Probing => {
                let baseline: i64 = match record.modified_ms {
                    Some(ms) => ms,
                    None => 0,
                };
                match date_text(baseline) {
                    Some(since) => {
                        self.since = since;
                        self.stage = Stage::Requesting;
                    },
                    None => {
                        self.end(
                            Outcome::Failed(
                                Failure { kind: FailureKind::LocalTime, detail: String::new() },
                            ),
                        );
                    },
                }
            },
            _ => {},
        }
    }

    /// A response arrived at the instant `now_ms`.
    pub fn response(&mut self, head: &ResponseHead, now_ms: i64)
        requires
            old(self).wf(),
        ensures
            final(self).wf(),
            final(self)@ == job_step(
                old(self)@,
                JobEvent::Response {
                    status: head.status,
                    last_modified: head.last_modified.deep_view(),
                    declared: head.content_length,
                    now_ms,
                },
            ),
    {
        proof {
            lemma_job_inv(
                self@,
                JobEvent::Response {
                    status: head.status,
                    last_modified: head.last_modified.deep_view(),
                    declared: head.content_length,
                    now_ms,
                },
            );
        }
        match self.stage {
            Stage::Requesting => {
                match verdict(head.status) {
                    Verdict::Current => {
                        self.end(Outcome::Unchanged);
                    },
                    Verdict::Refused => {
                        self.end(
                            Outcome::Failed(
                                Failure {
                                    kind: FailureKind::Status(head.status),
                                    detail: String::new(),
                                },
                            ),
                        );
                    },
                    Verdict::Store => {
                        self.mtime_ms = modified_time(&head.last_modified, now_ms);
                        self.declared = head.content_length;
                        self.stage = Stage::MakingDir;
                    },
                }
            },
            _ => {},
        }
    }

    /// The step asked for was taken.
    pub fn succeeded(&mut self)
        requires
            old(self).wf(),
        ensures
            final(self).wf(),
            final(self)@ == job_step(old(self)@, JobEvent::Succeeded),
    {
        proof {
            lemma_job_inv(self@, JobEvent::Succeeded);
        }
        match self.stage {
            Stage::MakingDir => {
                self.stage = Stage::Creating;
            },
            Stage::Creating => {
                self.holds_file = true;
                self.stage = if self.declared.is_some() {
                    Stage::Reserving
                } else {
                    Stage::Copying
                };
            },
            Stage::Reserving => {
                self.stage = Stage::Copying;
            },
            Stage::Copying => {
                self.stage = Stage::Releasing;
            },
            Stage::Releasing => {
                match self.failure.take() {
                    Some(failure) => {
                        self.end(Outcome::Failed(failure));
                    },
                    None => {
                        self.holds_file = false;
                        self.stage = Stage::Stamping;
                    },
                }
            },
            Stage::Stamping => {
                self.end(Outcome::Downloaded);
            },
            _ => {},
        }
    }

    /// The step asked for failed; `detail` says how.
    pub fn failed(&mut self, detail: String)
        requires
            old(self).wf(),
        ensures
            final(self).wf(),
            final(self)@ == job_step(old(self)@, JobEvent::Failed { detail: detail@ }),
    {
        proof {
            lemma_job_inv(self@, JobEvent::Failed { detail: detail@ });
        }
        match self.stage {
            Stage::Requesting => {
                self.end(Outcome::Failed(Failure { kind: FailureKind::Request, detail }));
            },
            Stage::MakingDir => {
                self.end(Outcome::Failed(Failure { kind: FailureKind::CreateDir, detail }));
            },
            Stage::Creating => {
                self.end(Outcome::Failed(Failure { kind: FailureKind::CreateFile, detail }));
            },
            Stage::Reserving => {
                self.stage = Stage::Copying;
            },
            Stage::Copying => {
                self.failure = Some(Failure { kind: FailureKind::Write, detail });
                self.stage = Stage::Releasing;
            },
            Stage::Releasing => {
                match self.failure.take() {
                    Some(failure) => {
                        self.end(Outcome::Failed(failure));
                    },
                    None => {
                        self.end(Outcome::Failed(Failure { kind: FailureKind::Flush, detail }));
                    },
                }
            },
            Stage::Stamping => {
                self.end(Outcome::Downloaded);
            },
            _ => {},
        }
    }

    /// How the job ended, once it has.
    pub fn outcome(&self) -> (outcome: Option<Outcome>)
        ensures
            outcome.is_some() == (self@.outcome is Some),
            outcome matches Some(o) ==> Some(o@) == self@.outcome,
    {
        match &self.outcome {
            Some(outcome) => Some(outcome.clone()),
            None => None,
        }
    }
}

} // verus!
