//! The download of one file as a state machine.
//!
//! A job does no I/O. It is handed an event, changes its state, and answers
//! with the action that whoever drives it has to perform next; what came of
//! that action is the next event. Every state but the final ones waits for
//! one kind of answer. Any other event leaves the job as it is and has the
//! job ask again.

use vstd::prelude::*;
use crate::error::{DownloadError, DownloadErrorView, RequestFailure, RequestFailureView};
use crate::http::{is_success, is_throttled, success, throttled, HttpReply};
use crate::probe::{probe, probe_effect, probe_verdict};
use crate::probe::{ProbeStep, ProbeStepView};
use crate::text::{chars_of, joined};
use crate::tracker::{AggregateState, AggregateView};

verus! {

/// Where a job stands.
#[derive(Clone, Copy, Debug, PartialEq, Eq, Structural)]
pub enum JobState {
    /// Waiting to learn whether the destination file exists.
    CheckExists,
    /// Waiting for the answer to the size probe.
    ProbeSize,
    /// Waiting for the length of the temporary file.
    ResumeCheck,
    /// Waiting for the answer to the ranged fetch.
    StreamFetch,
    /// Waiting for the next chunk of the body to be appended.
    StreamWrite,
    /// Waiting for the temporary file to be renamed to the destination.
    Finalize,
    /// Done: the destination file was there already.
    Skipped,
    /// Done: the destination file is in place.
    Finalized,
    /// Done: the job failed.
    Failed,
}

impl JobState {
    /// Whether the state is one of the three that a job ends in.
    pub open spec fn is_terminal(self) -> bool {
        self == JobState::Skipped || self == JobState::Finalized || self == JobState::Failed
    }
}

/// How a job ended.
#[derive(Clone, Copy, Debug, PartialEq, Eq, Structural)]
pub enum Outcome {
    /// The destination file was there already.
    Skipped,
    /// A partial download of full length was found and put in place.
    Resumed,
    /// The file was fetched and put in place.
    Downloaded,
    /// The job failed.
    Failed,
}

/// What the driver of a job has to do next.
#[derive(Clone, Copy, Debug, PartialEq, Eq, Structural)]
pub enum JobAction {
    /// Find out whether the destination file exists; answer with
    /// [`JobEvent::Existence`].
    CheckDestination,
    /// Send a `HEAD` request for the URL; answer with
    /// [`JobEvent::ProbeReply`].
    Probe,
    /// Read the length of the temporary file, 0 if there is none; answer
    /// with [`JobEvent::TempLength`].
    MeasureTemp,
    /// Send a `GET` request for the URL that asks for the bytes from `offset`
    /// on; answer with [`JobEvent::FetchReply`].
    Fetch { offset: u64 },
    /// Append the next chunk of the body to the temporary file, creating the
    /// file if need be; answer with [`JobEvent::Chunk`],
    /// [`JobEvent::EndOfStream`], [`JobEvent::IoFailure`] or
    /// [`JobEvent::TransferFailure`].
    Append,
    /// Rename the temporary file to the destination; answer with
    /// [`JobEvent::Renamed`] or [`JobEvent::IoFailure`].
    Rename,
    /// Wait for `millis` milliseconds; then answer with [`JobEvent::Wake`].
    Pause { millis: u64 },
    /// Nothing: the job has ended.
    Done(Outcome),
}

/// What happened to the last action of a job.
#[derive(Clone, Debug, PartialEq, Eq)]
pub enum JobEvent {
    /// Nothing happened; the job is asked what it waits for.
    Wake,
    /// Whether the destination file exists.
    Existence(bool),
    /// The answer to the `HEAD` request.
    ProbeReply(HttpReply),
    /// The length of the temporary file in bytes, 0 if there is none.
    TempLength(u64),
    /// The answer to the `GET` request.
    FetchReply(HttpReply),
    /// A chunk of this many bytes was appended to the temporary file.
    Chunk(u64),
    /// The body has ended.
    EndOfStream,
    /// The temporary file was renamed to the destination.
    Renamed,
    /// Opening, writing or renaming a file failed; the text says why.
    IoFailure(String),
    /// Receiving the body failed; the text says why.
    TransferFailure(String),
}

/// The shortest pause before a throttled fetch is started over, in
/// milliseconds, where the server names none.
pub const FETCH_PAUSE_MIN: u64 = 1000;

/// The bound below which that pause stays, in milliseconds.
pub const FETCH_PAUSE_END: u64 = 3000;

/// Why a job fails whose file grows beyond what 64 bits count.
pub open spec fn too_large() -> Seq<char> {
    "file too large"@
}

/// The path of `name` inside the directory `dir`.
pub open spec fn path_in(dir: Seq<char>, name: Seq<char>) -> Seq<char> {
    if dir.len() == 0 || dir.last() == '/' {
        dir + name
    } else {
        dir + "/"@ + name
    }
}

/// The path of the temporary file that a download to `dest` is written to.
pub open spec fn partial_path(dest: Seq<char>) -> Seq<char> {
    dest + ".part"@
}

/// The mathematical value of a [`DownloadJob`].
pub ghost struct JobView {
    /// The URL to download.
    pub url: Seq<char>,
    /// The name of the file.
    pub filename: Seq<char>,
    /// The path of the finished file.
    pub dest_path: Seq<char>,
    /// The path of the file while it is incomplete.
    pub temp_path: Seq<char>,
    /// The length of the temporary file when the job looked at it.
    pub resume_offset: u64,
    /// The length of the whole file; 0 while it is unknown.
    pub expected_size: u64,
    /// The length of the temporary file now.
    pub position: u64,
    /// Whether the job has fetched anything.
    pub fetched: bool,
    /// Where the job stands.
    pub state: JobState,
    /// Why the job failed, if it did.
    pub failure: Option<DownloadErrorView>,
}

/// A job, the aggregate and an action: what one step leads to.
pub ghost struct Step {
    pub job: JobView,
    pub tracker: AggregateView,
    pub action: JobAction,
}

impl JobView {
    /// The job for `url` that writes `filename` into `dir`, before anything
    /// has happened.
    pub open spec fn initial(url: Seq<char>, filename: Seq<char>, dir: Seq<char>) -> JobView {
        JobView {
            url,
            filename,
            dest_path: path_in(dir, filename),
            temp_path: partial_path(path_in(dir, filename)),
            resume_offset: 0,
            expected_size: 0,
            position: 0,
            fetched: false,
            state: JobState::CheckExists,
            failure: None,
        }
    }

    /// What holds of every job: the temporary path is the destination path
    /// with the suffix `.part`, and a failed job says why it failed.
    pub open spec fn well_formed(self) -> bool {
        &&& self.temp_path == partial_path(self.dest_path)
        &&& self.state == JobState::Failed ==> self.failure is Some
    }

    /// How the job ended, for a job in a final state.
    pub open spec fn outcome(self) -> Outcome {
        match self.state {
            JobState::Skipped => Outcome::Skipped,
            JobState::Failed => Outcome::Failed,
            _ => if self.fetched {
                Outcome::Downloaded
            } else {
                Outcome::Resumed
            },
        }
    }

    /// The action that the job waits for in its state.
    pub open spec fn pending(self) -> JobAction {
        match self.state {
            JobState::CheckExists => JobAction::CheckDestination,
            JobState::ProbeSize => JobAction::Probe,
            JobState::ResumeCheck => JobAction::MeasureTemp,
            JobState::StreamFetch => JobAction::Fetch { offset: self.resume_offset },
            JobState::StreamWrite => JobAction::Append,
            JobState::Finalize => JobAction::Rename,
            JobState::Skipped => JobAction::Done(Outcome::Skipped),
            JobState::Finalized => JobAction::Done(self.outcome()),
            JobState::Failed => JobAction::Done(Outcome::Failed),
        }
    }

    /// The job in another state.
    pub open spec fn moved_to(self, state: JobState) -> JobView {
        JobView { state, ..self }
    }

    /// The job after it failed with `error`.
    pub open spec fn failed(self, error: DownloadErrorView) -> JobView {
        JobView { state: JobState::Failed, failure: Some(error), ..self }
    }

    /// The job as it starts over: back at the existence check, with nothing
    /// known of sizes.
    pub open spec fn restarted(self) -> JobView {
        JobView {
            resume_offset: 0,
            expected_size: 0,
            position: 0,
            fetched: false,
            state: JobState::CheckExists,
            ..self
        }
    }

    /// Whether a temporary file of `length` bytes already holds the whole
    /// file: the size is known and the length has reached it.
    pub open spec fn complete_at(self, length: u64) -> bool {
        self.expected_size > 0 && length >= self.expected_size
    }

    /// The job after it learned whether the destination exists.
    pub open spec fn after_existence(self, exists: bool) -> JobView {
        if exists {
            self.moved_to(JobState::Skipped)
        } else {
            self.moved_to(JobState::ProbeSize)
        }
    }

    /// The job after an answer to its size probe.
    pub open spec fn after_probe(self, reply: HttpReply, jitter: u64) -> JobView {
        match probe_verdict(reply, jitter) {
            ProbeStepView::Retry { after_millis } => self,
            ProbeStepView::Sized(length) => JobView {
                expected_size: length,
                state: JobState::ResumeCheck,
                ..self
            },
            ProbeStepView::Failed(error) => self.failed(error),
        }
    }

    /// The job after it learned the length of its temporary file.
    pub open spec fn after_temp_length(self, length: u64) -> JobView {
        JobView {
            resume_offset: length,
            position: length,
            state: if self.complete_at(length) {
                JobState::Finalize
            } else {
                JobState::StreamFetch
            },
            ..self
        }
    }

    /// The job after an answer to its fetch.
    pub open spec fn after_fetch(self, reply: HttpReply) -> JobView {
        match reply {
            HttpReply::Failure(detail) => self.failed(
                DownloadErrorView::ReqwestError(RequestFailureView::Transport(detail@)),
            ),
            HttpReply::Response(resp) => if is_throttled(resp.status) {
                self.restarted()
            } else if !is_success(resp.status) {
                self.failed(
                    DownloadErrorView::ReqwestError(RequestFailureView::Status(resp.status)),
                )
            } else {
                JobView {
                    expected_size: if self.expected_size == 0 {
                        resp.declared_length()
                    } else {
                        self.expected_size
                    },
                    fetched: true,
                    state: JobState::StreamWrite,
                    ..self
                }
            },
        }
    }

    /// Whether an answer to the job's fetch is counted in the aggregate: it
    /// reports success, and the job does not know its size yet.
    pub open spec fn fetch_counts(self, reply: HttpReply) -> bool {
        self.expected_size == 0 && (reply matches HttpReply::Response(resp) && is_success(
            resp.status,
        ))
    }

    /// The aggregate after an answer to the job's fetch.
    pub open spec fn fetch_effect(self, tracker: AggregateView, reply: HttpReply)
        -> AggregateView {
        match reply {
            HttpReply::Response(resp) if self.fetch_counts(reply) => tracker.record(
                self.url,
                resp.declared_length(),
            ),
            _ => tracker,
        }
    }

    /// The job after a chunk of `length` bytes was appended. A file beyond
    /// what 64 bits count fails the job.
    pub open spec fn after_chunk(self, length: u64) -> JobView {
        if self.position + length <= u64::MAX {
            JobView { position: (self.position + length) as u64, ..self }
        } else {
            self.failed(DownloadErrorView::IoError(too_large()))
        }
    }

    /// What one step leads to: the job and the aggregate after `event`, and
    /// the action to perform. `jitter` is the pause to take where the server
    /// throttles and names none.
    pub open spec fn step(self, tracker: AggregateView, event: JobEvent, jitter: u64) -> Step {
        match (self.state, event) {
            (JobState::CheckExists, JobEvent::Existence(exists)) => self.after_existence(
                exists,
            ).proceed(tracker),
            (JobState::ProbeSize, JobEvent::ProbeReply(reply)) => {
                let job = self.after_probe(reply, jitter);
                let tracker = probe_effect(tracker, self.url, reply);
                match probe_verdict(reply, jitter) {
                    ProbeStepView::Retry { after_millis } => Step {
                        job,
                        tracker,
                        action: JobAction::Pause { millis: after_millis },
                    },
                    _ => job.proceed(tracker),
                }
            },
            (JobState::ResumeCheck, JobEvent::TempLength(length)) => self.after_temp_length(
                length,
            ).proceed(tracker),
            (JobState::StreamFetch, JobEvent::FetchReply(reply)) => {
                let job = self.after_fetch(reply);
                let tracker = self.fetch_effect(tracker, reply);
                match reply {
                    HttpReply::Response(resp) if is_throttled(resp.status) => Step {
                        job,
                        tracker,
                        action: JobAction::Pause { millis: resp.retry_delay(jitter) },
                    },
                    _ => job.proceed(tracker),
                }
            },
            (JobState::StreamWrite, JobEvent::Chunk(length)) => self.after_chunk(length).proceed(
                tracker,
            ),
            (JobState::StreamWrite, JobEvent::EndOfStream) => self.moved_to(
                JobState::Finalize,
            ).proceed(tracker),
            (JobState::StreamWrite, JobEvent::IoFailure(detail)) => self.failed(
                DownloadErrorView::IoError(detail@),
            ).proceed(tracker),
            (JobState::StreamWrite, JobEvent::TransferFailure(detail)) => self.failed(
                DownloadErrorView::ReqwestError(RequestFailureView::Transport(detail@)),
            ).proceed(tracker),
            (JobState::Finalize, JobEvent::Renamed) => self.moved_to(JobState::Finalized).proceed(
                tracker,
            ),
            (JobState::Finalize, JobEvent::IoFailure(detail)) => self.failed(
                DownloadErrorView::IoError(detail@),
            ).proceed(tracker),
            _ => self.proceed(tracker),
        }
    }

    /// The step that leaves this job and `tracker` as they are and asks for
    /// what the job waits for.
    pub open spec fn proceed(self, tracker: AggregateView) -> Step {
        Step { job: self, tracker, action: self.pending() }
    }
}

/// The download of one file: where it comes from, where it goes, and how far
/// it has got.
pub struct DownloadJob {
    url: String,
    filename: String,
    dest_path: String,
    temp_path: String,
    resume_offset: u64,
    expected_size: u64,
    position: u64,
    fetched: bool,
    state: JobState,
    failure: Option<DownloadError>,
}

impl View for DownloadJob {
    type V = JobView;

    closed spec fn view(&self) -> JobView {
        JobView {
            url: self.url@,
            filename: self.filename@,
            dest_path: self.dest_path@,
            temp_path: self.temp_path@,
            resume_offset: self.resume_offset,
            expected_size: self.expected_size,
            position: self.position,
            fetched: self.fetched,
            state: self.state,
            failure: match self.failure {
                Some(e) => Some(e@),
                None => None,
            },
        }
    }
}

/// The path of `name` inside the directory `dir`: the two joined by one `/`,
/// unless `dir` is empty or ends in one.
pub fn join_path(dir: &str, name: &str) -> (out: String)
    ensures
        out@ == path_in(dir@, name@),
{
    let chars = chars_of(dir);
    let n = chars.len();
    if n == 0 || chars[n - 1] == '/' {
        joined(dir, name)
    } else {
        let mut out = joined(dir, "/");
        out.append(name);
        out
    }
}

impl DownloadJob {
    /// Every job is well formed.
    #[verifier::type_invariant]
    pub open spec fn holds(&self) -> bool {
        self@.well_formed()
    }

    /// The job that downloads `url` to the file `filename` in the directory
    /// `dir`.
    pub fn new(url: &str, filename: &str, dir: &str) -> (out: DownloadJob)
        ensures
            out@ == JobView::initial(url@, filename@, dir@),
            out@.well_formed(),
    {
        let dest_path = join_path(dir, filename);
        let temp_path = joined(dest_path.as_str(), ".part");
        DownloadJob {
            url: String::from_str(url),
            filename: String::from_str(filename),
            dest_path,
            temp_path,
            resume_offset: 0,
            expected_size: 0,
            position: 0,
            fetched: false,
            state: JobState::CheckExists,
            failure: None,
        }
    }

    /// The URL to download.
    pub fn url(&self) -> (out: &str)
        ensures
            out@ == self@.url,
    {
        self.url.as_str()
    }

    /// The name of the file.
    pub fn filename(&self) -> (out: &str)
        ensures
            out@ == self@.filename,
    {
        self.filename.as_str()
    }

    /// The path of the finished file.
    pub fn dest_path(&self) -> (out: &str)
        ensures
            out@ == self@.dest_path,
    {
        self.dest_path.as_str()
    }

    /// The path of the file while it is incomplete: the destination path
    /// with the suffix `.part`.
    pub fn temp_path(&self) -> (out: &str)
        ensures
            out@ == self@.temp_path,
            out@ == partial_path(self@.dest_path),
    {
        proof {
            use_type_invariant(self);
        }
        self.temp_path.as_str()
    }

    /// The length of the temporary file when the job looked at it.
    pub fn resume_offset(&self) -> (out: u64)
        ensures
            out == self@.resume_offset,
    {
        self.resume_offset
    }

    /// The length of the whole file; 0 while it is unknown.
    pub fn expected_size(&self) -> (out: u64)
        ensures
            out == self@.expected_size,
    {
        self.expected_size
    }

    /// The length of the temporary file now.
    pub fn position(&self) -> (out: u64)
        ensures
            out == self@.position,
    {
        self.position
    }

    /// Where the job stands.
    pub fn state(&self) -> (out: JobState)
        ensures
            out == self@.state,
    {
        self.state
    }

    /// Whether the job has ended.
    pub fn is_done(&self) -> (out: bool)
        ensures
            out == self@.state.is_terminal(),
    {
        match self.state {
            JobState::Skipped | JobState::Finalized | JobState::Failed => true,
            _ => false,
        }
    }

    /// Why the job failed, if it did. A job in the state `Failed` has a
    /// reason.
    pub fn failure(&self) -> (out: &Option<DownloadError>)
        ensures
            match *out {
                Some(e) => self@.failure == Some(e@),
                None => self@.failure is None,
            },
            self@.state == JobState::Failed ==> out is Some,
    {
        proof {
            use_type_invariant(self);
        }
        &self.failure
    }

    /// The action that the job waits for in its state.
    pub fn pending(&self) -> (out: JobAction)
        ensures
            out == self@.pending(),
    {
        match self.state {
            JobState::CheckExists => JobAction::CheckDestination,
            JobState::ProbeSize => JobAction::Probe,
            JobState::ResumeCheck => JobAction::MeasureTemp,
            JobState::StreamFetch => JobAction::Fetch { offset: self.resume_offset },
            JobState::StreamWrite => JobAction::Append,
            JobState::Finalize => JobAction::Rename,
            JobState::Skipped => JobAction::Done(Outcome::Skipped),
            JobState::Finalized => if self.fetched {
                JobAction::Done(Outcome::Downloaded)
            } else {
                JobAction::Done(Outcome::Resumed)
            },
            JobState::Failed => JobAction::Done(Outcome::Failed),
        }
    }

    fn fail(&mut self, error: DownloadError)
        ensures
            final(self)@ == old(self)@.failed(error@),
    {
        proof {
            use_type_invariant(&*self);
        }
        self.failure = Some(error);
        self.state = JobState::Failed;
    }

    /// Takes one step: changes the job and the aggregate as `event` asks, and
    /// returns the action to perform next. `jitter` is the pause to take, in
    /// milliseconds, where the server throttles and names none.
    pub fn advance(
        &mut self,
        tracker: &mut AggregateState,
        event: JobEvent,
        jitter: u64,
    ) -> (action: JobAction)
        ensures
            final(self)@ == old(self)@.step(old(tracker)@, event, jitter).job,
            final(tracker)@ == old(self)@.step(old(tracker)@, event, jitter).tracker,
            action == old(self)@.step(old(tracker)@, event, jitter).action,
            final(self)@.well_formed(),
    {
        proof {
            use_type_invariant(&*self);
        }
        match self.state {
            JobState::CheckExists => match event {
                JobEvent::Existence(exists) => {
                    if exists {
                        self.state = JobState::Skipped;
                    } else {
                        self.state = JobState::ProbeSize;
                    }
                },
                _ => {},
            },
            JobState::ProbeSize => match event {
                JobEvent::ProbeReply(reply) => {
                    match probe(tracker, self.url.as_str(), reply, jitter) {
                        ProbeStep::Retry { after_millis } => {
                            return JobAction::Pause { millis: after_millis };
                        },
                        ProbeStep::Sized(length) => {
                            self.expected_size = length;
                            self.state = JobState::ResumeCheck;
                        },
                        ProbeStep::Failed(error) => {
                            self.fail(error);
                        },
                    }
                },
                _ => {},
            },
            JobState::ResumeCheck => match event {
                JobEvent::TempLength(length) => {
                    self.resume_offset = length;
                    self.position = length;
                    if self.expected_size > 0 && length >= self.expected_size {
                        self.state = JobState::Finalize;
                    } else {
                        self.state = JobState::StreamFetch;
                    }
                },
                _ => {},
            },
            JobState::StreamFetch => match event {
                JobEvent::FetchReply(reply) => match reply {
                    HttpReply::Failure(detail) => {
                        self.fail(DownloadError::ReqwestError(RequestFailure::Transport(detail)));
                    },
                    HttpReply::Response(resp) => {
                        if throttled(resp.status) {
                            let millis = resp.retry_delay(jitter);
                            self.resume_offset = 0;
                            self.expected_size = 0;
                            self.position = 0;
                            self.fetched = false;
                            self.state = JobState::CheckExists;
                            return JobAction::Pause { millis };
                        } else if !success(resp.status) {
                            self.fail(
                                DownloadError::ReqwestError(RequestFailure::Status(resp.status)),
                            );
                        } else {
                            if self.expected_size == 0 {
                                let length = resp.declared_length();
                                tracker.count_once(self.url.as_str(), length);
                                self.expected_size = length;
                            }
                            self.fetched = true;
                            self.state = JobState::StreamWrite;
                        }
                    },
                },
                _ => {},
            },
            JobState::StreamWrite => match event {
                JobEvent::Chunk(length) => {
                    match self.position.checked_add(length) {
                        Some(position) => {
                            self.position = position;
                        },
                        None => {
                            self.fail(DownloadError::IoError(String::from_str("file too large")));
                        },
                    }
                },
                JobEvent::EndOfStream => {
                    self.state = JobState::Finalize;
                },
                JobEvent::IoFailure(detail) => {
                    self.fail(DownloadError::IoError(detail));
                },
                JobEvent::TransferFailure(detail) => {
                    self.fail(DownloadError::ReqwestError(RequestFailure::Transport(detail)));
                },
                _ => {},
            },
            JobState::Finalize => match event {
                JobEvent::Renamed => {
                    self.state = JobState::Finalized;
                },
                JobEvent::IoFailure(detail) => {
                    self.fail(DownloadError::IoError(detail));
                },
                _ => {},
            },
            _ => {},
        }
        self.pending()
    }
}

} // verus!
