//! The downloader: what to download, where to, with how many workers, and
//! the state that the jobs of one batch share.

use vstd::prelude::*;
use crate::display::{summary, summary_text};
use crate::http::{is_throttled, throttled, HttpReply};
use crate::job::{DownloadJob, JobAction, JobEvent, JobState, JobView};
use crate::job::{FETCH_PAUSE_END, FETCH_PAUSE_MIN};
use crate::probe::{probe, probe_effect, probe_verdict};
use crate::probe::{ProbeStep, PROBE_PAUSE_END, PROBE_PAUSE_MIN};
use crate::schedule::{RunAction, RunEvent, Schedule, ScheduleView};
use crate::text::texts;
use crate::tracker::{AggregateState, AggregateView};
use crate::trusted::{decimal_size_text, expand_tilde, format_decimal_size, random_between};
use crate::trusted::{expand_full, expands_alike_everywhere, full_expansion, text_of};
use crate::trusted::tilde_expansion;
use crate::variables::pairs;
use crate::urls::{accept_urls, accepted_urls, filename_in, get_filename, parsed};

verus! {

/// A number of bytes as a short text with a decimal unit, such as `1 MB`.
pub fn human_readable_size(bytes: u64) -> (out: String)
    ensures
        out@ == decimal_size_text(bytes),
{
    format_decimal_size(bytes)
}

/// A total as a 64-bit number: the total itself, or the largest 64-bit number
/// where the total is larger.
pub open spec fn within_64_bits(total: nat) -> u64 {
    if total <= u64::MAX {
        total as u64
    } else {
        u64::MAX
    }
}

/// The pauses that a job may take in `state` when a server throttles and
/// names none: before a probe is repeated, and before a fetch is started
/// over.
pub open spec fn pause_allowed(state: JobState, jitter: u64) -> bool {
    &&& state == JobState::ProbeSize ==> PROBE_PAUSE_MIN <= jitter < PROBE_PAUSE_END
    &&& state == JobState::StreamFetch ==> FETCH_PAUSE_MIN <= jitter < FETCH_PAUSE_END
}

/// Whether `event` is an answer that throttles.
pub open spec fn is_throttling(event: JobEvent) -> bool {
    match event {
        JobEvent::ProbeReply(HttpReply::Response(resp)) => is_throttled(resp.status),
        JobEvent::FetchReply(HttpReply::Response(resp)) => is_throttled(resp.status),
        _ => false,
    }
}

/// Whether `event` is an answer that throttles.
pub fn throttling(event: &JobEvent) -> (out: bool)
    ensures
        out == is_throttling(*event),
{
    match event {
        JobEvent::ProbeReply(reply) => match reply {
            HttpReply::Response(resp) => throttled(resp.status),
            HttpReply::Failure(_) => false,
        },
        JobEvent::FetchReply(reply) => match reply {
            HttpReply::Response(resp) => throttled(resp.status),
            HttpReply::Failure(_) => false,
        },
        _ => false,
    }
}

/// The mathematical value of a [`Downloader`].
pub ghost struct DownloaderView {
    /// The URLs to download, in order.
    pub urls: Seq<Seq<char>>,
    /// The destination directory.
    pub dest: Seq<char>,
    /// The number of jobs that may run at a time.
    pub workers: usize,
    /// Whether the destination directory is removed before the run.
    pub clean: bool,
    /// The aggregate that the jobs share.
    pub tracker: AggregateView,
    /// The state of the run.
    pub schedule: ScheduleView,
}

impl DownloaderView {
    /// The schedule of a run that has not begun, for this configuration.
    pub open spec fn fresh_schedule(self) -> ScheduleView {
        ScheduleView::initial(self.urls.len(), self.workers as nat, self.clean)
    }

    /// What holds of every downloader: its schedule is well formed and is a
    /// schedule for its URLs, its workers and its cleaning.
    pub open spec fn coherent(self) -> bool {
        &&& self.schedule.well_formed()
        &&& self.schedule.total == self.urls.len()
        &&& self.schedule.workers == self.workers
        &&& self.schedule.clean == self.clean
    }

    /// The job for the URL at `index`, before anything has happened.
    pub open spec fn job(self, index: int) -> JobView {
        JobView::initial(self.urls[index], filename_in(parsed(self.urls[index])), self.dest)
    }
}

/// The configuration of a batch and the state that its jobs share.
pub struct Downloader {
    urls: Vec<String>,
    dest: String,
    workers: usize,
    clean: bool,
    tracker: AggregateState,
    schedule: Schedule,
}

impl View for Downloader {
    type V = DownloaderView;

    closed spec fn view(&self) -> DownloaderView {
        DownloaderView {
            urls: texts(self.urls@),
            dest: self.dest@,
            workers: self.workers,
            clean: self.clean,
            tracker: self.tracker@,
            schedule: self.schedule@,
        }
    }
}

impl Downloader {
    /// Every downloader is coherent.
    #[verifier::type_invariant]
    pub open spec fn holds(&self) -> bool {
        self@.coherent()
    }

    /// A downloader for `urls`, taken as they are, that writes into `dest`
    /// with a leading `~` expanded.
    pub fn new(urls: Vec<String>, dest: String, workers: usize, clean: bool) -> (out: Downloader)
        ensures
            out@.coherent(),
            out@.urls == texts(urls@),
            tilde_expansion(dest@, out@.dest),
            out@.workers == workers,
            out@.clean == clean,
            out@.tracker == AggregateView::empty(),
            out@.schedule == out@.fresh_schedule(),
    {
        let dest = expand_tilde(dest.as_str());
        let schedule = Schedule::new(urls.len(), workers, clean);
        assert(texts(urls@).len() == urls@.len());
        Downloader { urls, dest, workers, clean, tracker: AggregateState::new(), schedule }
    }

    /// The name of the file that `url` is downloaded to: the last segment of
    /// its path, or `downloaded_file` where `url` cannot be parsed or has no
    /// such path.
    ///
    /// The name holds no `/`, so the file lies directly inside the
    /// destination directory.
    pub fn get_filename(url: &str) -> (out: String)
        ensures
            out@ == filename_in(parsed(url@)),
            !out@.contains('/'),
    {
        get_filename(url)
    }

    /// `text` with a leading `~` replaced by the home directory where there
    /// is one.
    pub fn shellexpand_tilde(text: &str) -> (out: String)
        ensures
            tilde_expansion(text@, out@),
    {
        expand_tilde(text)
    }

    /// `text` with each `$NAME` and `${NAME}` replaced by the value that
    /// `vars` gives the variable, the empty text where they give none, and
    /// then a leading `~` replaced by `home` where there is one.
    pub fn shellexpand_full(text: &str, home: Option<&str>, vars: &Vec<(String, String)>) -> (out:
        String)
        ensures
            expands_alike_everywhere(text@) ==> out@ == full_expansion(
                text@,
                text_of(home),
                pairs(vars@),
            ),
    {
        expand_full(text, home, vars)
    }

    /// The number of jobs that may run at a time.
    pub fn num_workers(&self) -> (out: usize)
        ensures
            out == self@.workers,
    {
        self.workers
    }

    /// The number of URLs.
    pub fn num_urls(&self) -> (out: usize)
        ensures
            out == self@.urls.len(),
    {
        assert(texts(self.urls@).len() == self.urls@.len());
        self.urls.len()
    }

    /// The destination directory.
    pub fn get_dest(&self) -> (out: String)
        ensures
            out@ == self@.dest,
    {
        self.dest.clone()
    }

    /// Whether the destination directory is removed before the run.
    pub fn is_clean(&self) -> (out: bool)
        ensures
            out == self@.clean,
    {
        self.clean
    }

    /// The URL at `index`, if there is one.
    pub fn url(&self, index: usize) -> (out: Option<&str>)
        ensures
            match out {
                Some(u) => index < self@.urls.len() && u@ == self@.urls[index as int],
                None => index >= self@.urls.len(),
            },
    {
        assert(texts(self.urls@).len() == self.urls@.len());
        if index < self.urls.len() {
            Some(self.urls[index].as_str())
        } else {
            None
        }
    }

    /// The same downloader for the URLs that `urls` gives: each entry
    /// trimmed, without the empty ones and those that cannot be parsed, in
    /// normal form. The run starts anew.
    pub fn with_urls(self, urls: Vec<String>) -> (out: Downloader)
        ensures
            out@.urls == accepted_urls(texts(urls@)),
            out@.dest == self@.dest,
            out@.workers == self@.workers,
            out@.clean == self@.clean,
            out@.tracker == self@.tracker,
            out@.schedule == out@.fresh_schedule(),
    {
        let accepted = accept_urls(&urls);
        assert(texts(accepted@).len() == accepted@.len());
        let schedule = Schedule::new(accepted.len(), self.workers, self.clean);
        Downloader {
            urls: accepted,
            dest: self.dest,
            workers: self.workers,
            clean: self.clean,
            tracker: self.tracker,
            schedule,
        }
    }

    /// The same downloader with `workers` workers. The run starts anew.
    pub fn with_workers(self, workers: usize) -> (out: Downloader)
        ensures
            out@.urls == self@.urls,
            out@.dest == self@.dest,
            out@.workers == workers,
            out@.clean == self@.clean,
            out@.tracker == self@.tracker,
            out@.schedule == out@.fresh_schedule(),
    {
        assert(texts(self.urls@).len() == self.urls@.len());
        let schedule = Schedule::new(self.urls.len(), workers, self.clean);
        Downloader {
            urls: self.urls,
            dest: self.dest,
            workers,
            clean: self.clean,
            tracker: self.tracker,
            schedule,
        }
    }

    /// The same downloader that writes into `dest` with a leading `~`
    /// expanded. The run is left as it is.
    pub fn with_dest(self, dest: &str) -> (out: Downloader)
        ensures
            out@.urls == self@.urls,
            tilde_expansion(dest@, out@.dest),
            out@.workers == self@.workers,
            out@.clean == self@.clean,
            out@.tracker == self@.tracker,
            out@.schedule == self@.schedule,
    {
        proof {
            use_type_invariant(&self);
        }
        let dest = expand_tilde(dest);
        Downloader {
            urls: self.urls,
            dest,
            workers: self.workers,
            clean: self.clean,
            tracker: self.tracker,
            schedule: self.schedule,
        }
    }

    fn with_clean(self, clean: bool) -> (out: Downloader)
        ensures
            out@.urls == self@.urls,
            out@.dest == self@.dest,
            out@.workers == self@.workers,
            out@.clean == clean,
            out@.tracker == self@.tracker,
            out@.schedule == out@.fresh_schedule(),
    {
        assert(texts(self.urls@).len() == self.urls@.len());
        let schedule = Schedule::new(self.urls.len(), self.workers, clean);
        Downloader {
            urls: self.urls,
            dest: self.dest,
            workers: self.workers,
            clean,
            tracker: self.tracker,
            schedule,
        }
    }

    /// The same downloader that removes the destination directory before the
    /// run. The run starts anew.
    pub fn clean(self) -> (out: Downloader)
        ensures
            out@.urls == self@.urls,
            out@.dest == self@.dest,
            out@.workers == self@.workers,
            out@.clean,
            out@.tracker == self@.tracker,
            out@.schedule == out@.fresh_schedule(),
    {
        self.with_clean(true)
    }

    /// The same downloader that keeps the destination directory. The run
    /// starts anew.
    pub fn no_clean(self) -> (out: Downloader)
        ensures
            out@.urls == self@.urls,
            out@.dest == self@.dest,
            out@.workers == self@.workers,
            !out@.clean,
            out@.tracker == self@.tracker,
            out@.schedule == out@.fresh_schedule(),
    {
        self.with_clean(false)
    }

    /// The cumulative byte total of the batch: the sum of the sizes that the
    /// counted URLs contribute, each once; the largest 64-bit number where
    /// the total is larger than that.
    pub fn get_total_size_bytes(&self) -> (out: u64)
        ensures
            out == within_64_bits(self@.tracker.total),
            self@.tracker.consistent(),
    {
        let total = self.tracker.total();
        if total <= u64::MAX as u128 {
            total as u64
        } else {
            u64::MAX
        }
    }

    /// The cumulative byte total of the batch as a short text with a decimal
    /// unit.
    pub fn get_total_size_human(&self) -> (out: String)
        ensures
            out@ == decimal_size_text(within_64_bits(self@.tracker.total)),
    {
        human_readable_size(self.get_total_size_bytes())
    }

    /// The summary of the URLs: in square brackets the first three, then
    /// `...` if there are more, then `; ` and how many there are.
    pub fn urls_summary(&self) -> (out: String)
        ensures
            out@ == summary_text(self@.urls),
    {
        summary(&self.urls)
    }

    /// The aggregate that the jobs share.
    pub fn tracker(&self) -> (out: &AggregateState)
        ensures
            out@ == self@.tracker,
    {
        &self.tracker
    }

    /// The state of the run.
    pub fn schedule(&self) -> (out: &Schedule)
        ensures
            out@ == self@.schedule,
    {
        &self.schedule
    }

    /// The job for the URL at `index`, if there is one: it downloads the URL
    /// to the file named after it in the destination directory.
    pub fn job(&self, index: usize) -> (out: Option<DownloadJob>)
        ensures
            match out {
                Some(job) => {
                    &&& index < self@.urls.len()
                    &&& job@ == self@.job(index as int)
                    &&& !job@.filename.contains('/')
                },
                None => index >= self@.urls.len(),
            },
    {
        assert(texts(self.urls@).len() == self.urls@.len());
        if index < self.urls.len() {
            let url = self.urls[index].as_str();
            let filename = get_filename(url);
            Some(DownloadJob::new(url, filename.as_str(), self.dest.as_str()))
        } else {
            None
        }
    }

    /// Decides on one answer to the size probe for `url`.
    ///
    /// A throttled answer asks for the probe to be repeated after a pause of
    /// 500 to 1499 milliseconds, drawn at random. A successful answer gives
    /// the length that the server declares, 0 if it declares none, and that
    /// length is counted in the aggregate, once per URL. A request without an
    /// answer, or with any other status, fails the probe and leaves the
    /// aggregate alone.
    pub fn get_file_size(&mut self, url: &str, reply: HttpReply) -> (out: ProbeStep)
        ensures
            exists|jitter: u64|
                PROBE_PAUSE_MIN <= jitter < PROBE_PAUSE_END && out@ == #[trigger] probe_verdict(
                    reply,
                    jitter,
                ),
            final(self)@ == (DownloaderView {
                tracker: probe_effect(old(self)@.tracker, url@, reply),
                ..old(self)@
            }),
    {
        let is_throttled = match &reply {
            HttpReply::Response(resp) => throttled(resp.status),
            HttpReply::Failure(_) => false,
        };
        let jitter = if is_throttled {
            random_between(PROBE_PAUSE_MIN, PROBE_PAUSE_END)
        } else {
            PROBE_PAUSE_MIN
        };
        proof {
            use_type_invariant(&*self);
        }
        let mut tracker = AggregateState::new();
        std::mem::swap(&mut self.tracker, &mut tracker);
        let out = probe(&mut tracker, url, reply, jitter);
        std::mem::swap(&mut self.tracker, &mut tracker);
        assert(out@ == probe_verdict(reply, jitter));
        out
    }

    /// Takes one step of the download of a file with a pause that the caller
    /// chose: changes `job` and the aggregate as `event` asks, and returns
    /// the action to perform next, see [`JobView::step`].
    pub fn advance(&mut self, job: &mut DownloadJob, event: JobEvent, jitter: u64) -> (action:
        JobAction)
        ensures
            final(job)@ == old(job)@.step(old(self)@.tracker, event, jitter).job,
            action == old(job)@.step(old(self)@.tracker, event, jitter).action,
            final(self)@ == (DownloaderView {
                tracker: old(job)@.step(old(self)@.tracker, event, jitter).tracker,
                ..old(self)@
            }),
            final(job)@.well_formed(),
    {
        proof {
            use_type_invariant(&*self);
        }
        let mut tracker = AggregateState::new();
        std::mem::swap(&mut self.tracker, &mut tracker);
        let action = job.advance(&mut tracker, event, jitter);
        std::mem::swap(&mut self.tracker, &mut tracker);
        action
    }

    /// Takes one step of the download of a file: changes `job` and the
    /// aggregate as `event` asks, and returns the action to perform next.
    ///
    /// The step is the one that [`JobView::step`] describes, with a pause
    /// drawn at random where a server throttles and names none: 500 to 1499
    /// milliseconds before a probe is repeated, 1000 to 2999 milliseconds
    /// before a fetch is started over.
    pub fn download_file(&mut self, job: &mut DownloadJob, event: JobEvent) -> (action: JobAction)
        ensures
            exists|jitter: u64|
                {
                    &&& pause_allowed(old(job)@.state, jitter)
                    &&& final(job)@ == (#[trigger] old(job)@.step(
                        old(self)@.tracker,
                        event,
                        jitter,
                    )).job
                    &&& action == old(job)@.step(old(self)@.tracker, event, jitter).action
                    &&& final(self)@ == (DownloaderView {
                        tracker: old(job)@.step(old(self)@.tracker, event, jitter).tracker,
                        ..old(self)@
                    })
                },
            final(job)@.well_formed(),
    {
        let is_throttled = throttling(&event);
        let jitter = match job.state() {
            JobState::ProbeSize => if is_throttled {
                random_between(PROBE_PAUSE_MIN, PROBE_PAUSE_END)
            } else {
                PROBE_PAUSE_MIN
            },
            JobState::StreamFetch => if is_throttled {
                random_between(FETCH_PAUSE_MIN, FETCH_PAUSE_END)
            } else {
                FETCH_PAUSE_MIN
            },
            _ => 0,
        };
        let ghost before = job@;
        let ghost shared = self@.tracker;
        let action = self.advance(job, event, jitter);
        assert(pause_allowed(before.state, jitter));
        assert(job@ == before.step(shared, event, jitter).job);
        action
    }

    /// Takes one step of the run: changes the schedule as `event` asks and
    /// returns the action to perform next, see [`ScheduleView::step`].
    ///
    /// The first action prepares the destination directory. No job starts
    /// before that is reported done, and never more jobs are active than
    /// there are workers.
    pub fn run(&mut self, event: RunEvent) -> (action: RunAction)
        ensures
            action == old(self)@.schedule.step(event).action,
            final(self)@ == (DownloaderView {
                schedule: old(self)@.schedule.step(event).schedule,
                ..old(self)@
            }),
            final(self)@.coherent(),
            action matches RunAction::Start { index } ==> index < final(self)@.urls.len(),
    {
        proof {
            use_type_invariant(&*self);
        }
        let mut schedule = self.schedule;
        let action = schedule.step(event);
        self.schedule = schedule;
        action
    }
}

} // verus!
