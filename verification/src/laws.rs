//! What holds of the engine as a whole, stated over the steps that
//! [`JobView::step`] and [`ScheduleView::step`] describe.

use vstd::prelude::*;
use crate::error::{DownloadErrorView, RequestFailureView};
use crate::http::{is_success, is_throttled, HttpReply};
use crate::job::{JobAction, JobEvent, JobState, JobView, Outcome};
use crate::probe::{probe_effect, probe_verdict, ProbeStepView};
use crate::schedule::{RunAction, RunEvent, RunPhase, ScheduleView};
use crate::tracker::{lemma_record_consistent, lemma_sum_of_empty, sum_of, AggregateView};

verus! {

// ---------------------------------------------------------------------------
// The aggregate
// ---------------------------------------------------------------------------

/// A report to the tracker: a URL and the size that was declared for it.
pub ghost struct Report {
    pub url: Seq<char>,
    pub size: u64,
}

/// The tracker after a sequence of reports, in their order.
pub open spec fn record_all(start: AggregateView, reports: Seq<Report>) -> AggregateView
    decreases reports.len(),
{
    if reports.len() == 0 {
        start
    } else {
        record_all(start, reports.drop_last()).record(reports.last().url, reports.last().size)
    }
}

/// The URLs that a sequence of reports speaks of.
pub open spec fn reported_urls(reports: Seq<Report>) -> Set<Seq<char>> {
    Set::new(|url: Seq<char>| exists|i: int| 0 <= i < reports.len() && reports[i].url == url)
}

/// Whether every report declares the size that `sizes` gives for its URL.
pub open spec fn reports_agree(reports: Seq<Report>, sizes: Map<Seq<char>, u64>) -> bool {
    forall|i: int|
        0 <= i < reports.len() ==> sizes.contains_key(#[trigger] reports[i].url) && reports[i].size
            == sizes[reports[i].url]
}

/// Whatever is reported, in whatever order and however often, the total stays
/// the sum of what the counted URLs contribute, each once.
pub proof fn lemma_reports_keep_consistency(start: AggregateView, reports: Seq<Report>)
    requires
        start.consistent(),
    ensures
        record_all(start, reports).consistent(),
    decreases reports.len(),
{
    if reports.len() > 0 {
        lemma_reports_keep_consistency(start, reports.drop_last());
        lemma_record_consistent(
            record_all(start, reports.drop_last()),
            reports.last().url,
            reports.last().size,
        );
    }
}

/// Once a URL has contributed a size, no report for it changes anything: a
/// URL contributes to the total at most once.
pub proof fn lemma_contribution_is_final(tracker: AggregateView, url: Seq<char>, size: u64)
    requires
        tracker.counted.contains_key(url),
        tracker.counted[url] > 0,
    ensures
        tracker.record(url, size) == tracker,
{
}

/// A report changes the contribution of its own URL only.
pub proof fn lemma_report_leaves_other_urls_alone(
    tracker: AggregateView,
    url: Seq<char>,
    size: u64,
    other: Seq<char>,
)
    requires
        other != url,
    ensures
        tracker.record(url, size).counted.contains_key(other) == tracker.counted.contains_key(
            other,
        ),
        tracker.counted.contains_key(other) ==> tracker.record(url, size).counted[other]
            == tracker.counted[other],
{
}

/// Where every URL has one true size and every report declares it, the
/// tracker counts exactly the reported URLs, each with its true size, and the
/// total is the sum of those sizes, each counted once, however many reports
/// there were for a URL and in whatever order they came.
pub proof fn lemma_total_counts_each_url_once(reports: Seq<Report>, sizes: Map<Seq<char>, u64>)
    requires
        reports_agree(reports, sizes),
    ensures
        record_all(AggregateView::empty(), reports).counted == sizes.restrict(
            reported_urls(reports),
        ),
        record_all(AggregateView::empty(), reports).total == sum_of(
            sizes.restrict(reported_urls(reports)),
        ),
    decreases reports.len(),
{
    let start = AggregateView::empty();
    lemma_sum_of_empty();
    assert(start.counted.dom() =~= Set::<Seq<char>>::empty());
    lemma_reports_keep_consistency(start, reports);
    if reports.len() == 0 {
        assert(reported_urls(reports) =~= Set::<Seq<char>>::empty());
        assert(start.counted =~= sizes.restrict(reported_urls(reports)));
    } else {
        let head = reports.drop_last();
        let last = reports.last();
        assert forall|i: int| 0 <= i < head.len() implies sizes.contains_key(
            #[trigger] head[i].url,
        ) && head[i].size == sizes[head[i].url] by {
            assert(head[i] == reports[i]);
        }
        lemma_total_counts_each_url_once(head, sizes);
        let before = record_all(start, head);
        let after = before.record(last.url, last.size);
        assert(reports[reports.len() - 1] == last);
        assert forall|url: Seq<char>|
            reported_urls(reports).contains(url) <==> (reported_urls(head).contains(url) || url
                == last.url) by {
            if reported_urls(head).contains(url) {
                let i = choose|i: int| 0 <= i < head.len() && head[i].url == url;
                assert(reports[i].url == url);
            }
            if reported_urls(reports).contains(url) && url != last.url {
                let i = choose|i: int| 0 <= i < reports.len() && reports[i].url == url;
                assert(head[i].url == url);
            }
        }
        assert(after.counted =~= sizes.restrict(reported_urls(reports)));
    }
}

/// The same report, made any number of times.
pub open spec fn repeated(url: Seq<char>, size: u64, times: nat) -> Seq<Report> {
    Seq::new(times, |i: int| Report { url, size })
}

/// However many jobs report the same size for a URL that has not contributed
/// yet, the total rises by that size once, not once per report.
pub proof fn lemma_repeated_reports_count_once(
    start: AggregateView,
    url: Seq<char>,
    size: u64,
    times: nat,
)
    requires
        start.contributes(url),
        times >= 1,
    ensures
        record_all(start, repeated(url, size, times)).total == start.total + size,
        record_all(start, repeated(url, size, times)).counted == start.counted.insert(url, size),
    decreases times,
{
    let reports = repeated(url, size, times);
    assert(reports.last() == Report { url, size });
    assert(reports.drop_last() =~= repeated(url, size, (times - 1) as nat));
    if times == 1 {
        assert(record_all(start, reports.drop_last()) == start);
    } else {
        lemma_repeated_reports_count_once(start, url, size, (times - 1) as nat);
        let before = record_all(start, reports.drop_last());
        assert(before.counted.insert(url, size) =~= before.counted);
    }
}

// ---------------------------------------------------------------------------
// The size probe
// ---------------------------------------------------------------------------

/// A probe fails on every status that is neither success nor throttling, and
/// on a request without an answer; it then leaves the aggregate alone.
pub proof fn lemma_probe_fails_on_every_other_status(
    tracker: AggregateView,
    url: Seq<char>,
    reply: HttpReply,
    jitter: u64,
)
    requires
        reply matches HttpReply::Response(resp) ==> !is_success(resp.status) && !is_throttled(
            resp.status,
        ),
    ensures
        probe_verdict(reply, jitter) is Failed,
        reply matches HttpReply::Response(resp) ==> probe_verdict(reply, jitter)
            == ProbeStepView::Failed(
            DownloadErrorView::ReqwestError(RequestFailureView::Status(resp.status)),
        ),
        probe_effect(tracker, url, reply) == tracker,
{
}

/// A throttled probe is no failure: it asks to be repeated after the pause
/// and leaves the aggregate alone. The answer that then reports success gives
/// the declared length and adds it to the total once.
pub proof fn lemma_throttled_probe_then_success(
    tracker: AggregateView,
    url: Seq<char>,
    throttled: HttpReply,
    answered: HttpReply,
    jitter: u64,
)
    requires
        throttled matches HttpReply::Response(resp) && is_throttled(resp.status),
        answered matches HttpReply::Response(resp) && is_success(resp.status),
        tracker.contributes(url),
    ensures
        probe_verdict(throttled, jitter) == (ProbeStepView::Retry { after_millis: jitter }),
        probe_effect(tracker, url, throttled) == tracker,
        answered matches HttpReply::Response(resp) && {
            let after = probe_effect(probe_effect(tracker, url, throttled), url, answered);
            &&& probe_verdict(answered, jitter) == ProbeStepView::Sized(resp.probed_length())
            &&& after.total == tracker.total + resp.probed_length()
            &&& after.counted == tracker.counted.insert(url, resp.probed_length())
            &&& probe_effect(after, url, answered).total == after.total
        },
{
    match answered {
        HttpReply::Response(resp) => {
            let after = tracker.record(url, resp.probed_length());
            assert(after.counted.insert(url, resp.probed_length()) =~= after.counted);
        },
        _ => {},
    }
}

// ---------------------------------------------------------------------------
// One job
// ---------------------------------------------------------------------------

/// A job, the aggregate and the actions that the job has asked for so far.
pub ghost struct JobTrace {
    pub job: JobView,
    pub tracker: AggregateView,
    pub actions: Seq<JobAction>,
}

/// What a sequence of events leads to, where `jitter` is the pause taken
/// whenever a server throttles and names none.
pub open spec fn run_job(
    job: JobView,
    tracker: AggregateView,
    events: Seq<JobEvent>,
    jitter: u64,
) -> JobTrace
    decreases events.len(),
{
    if events.len() == 0 {
        JobTrace { job, tracker, actions: Seq::empty() }
    } else {
        let before = run_job(job, tracker, events.drop_last(), jitter);
        let step = before.job.step(before.tracker, events.last(), jitter);
        JobTrace { job: step.job, tracker: step.tracker, actions: before.actions.push(step.action) }
    }
}

/// Whether an action sends a request over the network.
pub open spec fn is_network_action(action: JobAction) -> bool {
    action == JobAction::Probe || action is Fetch
}

/// Whether every report on the existence of the destination says that it
/// exists.
pub open spec fn destination_always_exists(events: Seq<JobEvent>) -> bool {
    forall|i: int|
        0 <= i < events.len() ==> (#[trigger] events[i] matches JobEvent::Existence(exists)
            ==> exists)
}

/// A step keeps a job well formed.
pub proof fn lemma_step_keeps_job_well_formed(
    job: JobView,
    tracker: AggregateView,
    event: JobEvent,
    jitter: u64,
)
    requires
        job.well_formed(),
    ensures
        job.step(tracker, event, jitter).job.well_formed(),
        job.step(tracker, event, jitter).job.url == job.url,
        job.step(tracker, event, jitter).job.dest_path == job.dest_path,
        job.step(tracker, event, jitter).job.temp_path == job.temp_path,
{
}

/// A step of a job keeps the aggregate consistent: whatever the job is told,
/// the total stays the sum of what the counted URLs contribute.
pub proof fn lemma_step_keeps_aggregate_consistent(
    job: JobView,
    tracker: AggregateView,
    event: JobEvent,
    jitter: u64,
)
    requires
        tracker.consistent(),
    ensures
        job.step(tracker, event, jitter).tracker.consistent(),
        job.step(tracker, event, jitter).tracker == tracker || exists|size: u64|
            job.step(tracker, event, jitter).tracker == #[trigger] tracker.record(job.url, size),
{
    let after = job.step(tracker, event, jitter).tracker;
    match (job.state, event) {
        (JobState::ProbeSize, JobEvent::ProbeReply(reply)) => {
            match reply {
                HttpReply::Response(resp) => {
                    lemma_record_consistent(tracker, job.url, resp.probed_length());
                    if after != tracker {
                        assert(after == tracker.record(job.url, resp.probed_length()));
                    }
                },
                _ => {},
            }
        },
        (JobState::StreamFetch, JobEvent::FetchReply(reply)) => {
            match reply {
                HttpReply::Response(resp) => {
                    lemma_record_consistent(tracker, job.url, resp.declared_length());
                    if after != tracker {
                        assert(after == tracker.record(job.url, resp.declared_length()));
                    }
                },
                _ => {},
            }
        },
        _ => {},
    }
}

/// A job that has ended stays as it is, whatever happens, and asks for
/// nothing more.
pub proof fn lemma_final_states_are_final(
    job: JobView,
    tracker: AggregateView,
    event: JobEvent,
    jitter: u64,
)
    requires
        job.state.is_terminal(),
    ensures
        job.step(tracker, event, jitter).job == job,
        job.step(tracker, event, jitter).tracker == tracker,
        job.step(tracker, event, jitter).action is Done,
{
}

/// A job whose destination file exists is skipped at once: it ends in the
/// state `Skipped`, leaves the aggregate alone and asks for nothing.
pub proof fn lemma_existing_destination_is_skipped(
    job: JobView,
    tracker: AggregateView,
    jitter: u64,
)
    requires
        job.state == JobState::CheckExists,
    ensures
        job.step(tracker, JobEvent::Existence(true), jitter).job.state == JobState::Skipped,
        job.step(tracker, JobEvent::Existence(true), jitter).tracker == tracker,
        job.step(tracker, JobEvent::Existence(true), jitter).action == JobAction::Done(
            Outcome::Skipped,
        ),
{
}

/// Run again on a destination that holds the file already, a job sends
/// nothing over the network and changes nothing: as long as every look at the
/// destination finds the file, the job is at the existence check or skipped,
/// the aggregate is as it was, and no action is a probe or a fetch.
pub proof fn lemma_rerun_on_existing_file_fetches_nothing(
    job: JobView,
    tracker: AggregateView,
    events: Seq<JobEvent>,
    jitter: u64,
)
    requires
        job.state == JobState::CheckExists,
        destination_always_exists(events),
    ensures
        run_job(job, tracker, events, jitter).job.state == JobState::CheckExists || run_job(
            job,
            tracker,
            events,
            jitter,
        ).job.state == JobState::Skipped,
        run_job(job, tracker, events, jitter).tracker == tracker,
        run_job(job, tracker, events, jitter).actions.len() == events.len(),
        forall|i: int|
            0 <= i < events.len() ==> !is_network_action(
                #[trigger] run_job(job, tracker, events, jitter).actions[i],
            ),
        forall|i: int|
            0 <= i < events.len() && events[i] is Existence ==> #[trigger] run_job(
                job,
                tracker,
                events,
                jitter,
            ).actions[i] == JobAction::Done(Outcome::Skipped),
        (exists|i: int| 0 <= i < events.len() && #[trigger] events[i] is Existence) ==> run_job(
            job,
            tracker,
            events,
            jitter,
        ).job.state == JobState::Skipped,
    decreases events.len(),
{
    if events.len() > 0 {
        let head = events.drop_last();
        assert forall|i: int| 0 <= i < head.len() implies (#[trigger] head[i] matches JobEvent::Existence(
            exists,
        ) ==> exists) by {
            assert(head[i] == events[i]);
        }
        lemma_rerun_on_existing_file_fetches_nothing(job, tracker, head, jitter);
        let before = run_job(job, tracker, head, jitter);
        let last = events.last();
        assert(last == events[events.len() - 1]);
        let after = run_job(job, tracker, events, jitter);
        assert forall|i: int| 0 <= i < events.len() implies !is_network_action(
            #[trigger] after.actions[i],
        ) by {
            if i < head.len() {
                assert(after.actions[i] == before.actions[i]);
            }
        }
        assert forall|i: int| 0 <= i < events.len() && events[i] is Existence implies #[trigger] after.actions[i]
            == JobAction::Done(Outcome::Skipped) by {
            if i < head.len() {
                assert(after.actions[i] == before.actions[i]);
                assert(head[i] == events[i]);
            }
        }
        if exists|i: int| 0 <= i < events.len() && #[trigger] events[i] is Existence {
            let i = choose|i: int| 0 <= i < events.len() && #[trigger] events[i] is Existence;
            if i < head.len() {
                assert(head[i] is Existence);
            }
        }
    }
}

/// A partial file that is shorter than the whole file is resumed from its
/// end: the job asks for the bytes from the length of the partial file on,
/// and for nothing before them.
pub proof fn lemma_resume_fetches_from_offset(
    job: JobView,
    tracker: AggregateView,
    length: u64,
    jitter: u64,
)
    requires
        job.state == JobState::ResumeCheck,
        length < job.expected_size,
    ensures
        job.step(tracker, JobEvent::TempLength(length), jitter).action == (JobAction::Fetch {
            offset: length,
        }),
        job.step(tracker, JobEvent::TempLength(length), jitter).job.state == JobState::StreamFetch,
        job.step(tracker, JobEvent::TempLength(length), jitter).job.resume_offset == length,
        job.step(tracker, JobEvent::TempLength(length), jitter).job.position == length,
        job.step(tracker, JobEvent::TempLength(length), jitter).tracker == tracker,
{
}

/// The sum of the lengths of a sequence of chunks.
pub open spec fn total_length(chunks: Seq<u64>) -> nat
    decreases chunks.len(),
{
    if chunks.len() == 0 {
        0
    } else {
        total_length(chunks.drop_last()) + chunks.last() as nat
    }
}

/// The events that report the chunks of a body, one after the other.
pub open spec fn chunk_events(chunks: Seq<u64>) -> Seq<JobEvent> {
    chunks.map_values(|length: u64| JobEvent::Chunk(length))
}

/// While it writes, a job counts what it appends: after a sequence of chunks
/// the temporary file is as long as it was plus the lengths of the chunks,
/// and the job still writes.
pub proof fn lemma_chunks_add_up(
    job: JobView,
    tracker: AggregateView,
    chunks: Seq<u64>,
    jitter: u64,
)
    requires
        job.state == JobState::StreamWrite,
        job.position + total_length(chunks) <= u64::MAX,
    ensures
        run_job(job, tracker, chunk_events(chunks), jitter).job == (JobView {
            position: (job.position + total_length(chunks)) as u64,
            ..job
        }),
        run_job(job, tracker, chunk_events(chunks), jitter).tracker == tracker,
    decreases chunks.len(),
{
    let events = chunk_events(chunks);
    if chunks.len() > 0 {
        let head = chunks.drop_last();
        assert(events.drop_last() =~= chunk_events(head));
        assert(events.last() == JobEvent::Chunk(chunks.last()));
        lemma_chunks_add_up(job, tracker, head, jitter);
    }
}

/// A resumed download ends with the whole file: where the partial file holds
/// `length` bytes of a file of known size, the fetch is answered with
/// success and the body brings the missing bytes, the job fetched from
/// `length` on and the file that it puts in place is as long as the whole
/// file.
pub proof fn lemma_resumed_file_is_complete(
    job: JobView,
    tracker: AggregateView,
    length: u64,
    reply: HttpReply,
    chunks: Seq<u64>,
    jitter: u64,
)
    requires
        job.state == JobState::ResumeCheck,
        length < job.expected_size,
        reply matches HttpReply::Response(resp) && is_success(
            resp.status,
        ),
        length + total_length(chunks) == job.expected_size,
    ensures
        ({
            let measured = job.step(tracker, JobEvent::TempLength(length), jitter);
            let fetched = measured.job.step(measured.tracker, JobEvent::FetchReply(reply), jitter);
            let written = run_job(fetched.job, fetched.tracker, chunk_events(chunks), jitter);
            let ended = written.job.step(written.tracker, JobEvent::EndOfStream, jitter);
            let renamed = ended.job.step(ended.tracker, JobEvent::Renamed, jitter);
            &&& measured.action == (JobAction::Fetch { offset: length })
            &&& fetched.action == JobAction::Append
            &&& ended.action == JobAction::Rename
            &&& renamed.action == JobAction::Done(Outcome::Downloaded)
            &&& renamed.job.state == JobState::Finalized
            &&& renamed.job.position == job.expected_size
            &&& renamed.tracker == tracker
        }),
{
    let measured = job.step(tracker, JobEvent::TempLength(length), jitter);
    let fetched = measured.job.step(measured.tracker, JobEvent::FetchReply(reply), jitter);
    assert(fetched.job.state == JobState::StreamWrite);
    assert(fetched.job.position == length);
    assert(fetched.job.expected_size == job.expected_size);
    lemma_chunks_add_up(fetched.job, fetched.tracker, chunks, jitter);
}

/// A size that the probe could not learn is learned from the fetch: where
/// the probe declared no length and the fetch declares one, the job expects
/// that length, the total has risen by it once, and a further report of it
/// for the same URL adds nothing.
pub proof fn lemma_unknown_size_is_learned_from_fetch(
    job: JobView,
    tracker: AggregateView,
    probed: HttpReply,
    length: u64,
    fetched: HttpReply,
    jitter: u64,
)
    requires
        job.state == JobState::ProbeSize,
        tracker.contributes(job.url),
        probed matches HttpReply::Response(resp) && is_success(resp.status) && resp.probed_length()
            == 0,
        fetched matches HttpReply::Response(resp) && is_success(resp.status),
    ensures
        fetched matches HttpReply::Response(resp) && {
            let asked = job.step(tracker, JobEvent::ProbeReply(probed), jitter);
            let measured = asked.job.step(asked.tracker, JobEvent::TempLength(length), jitter);
            let answered = measured.job.step(
                measured.tracker,
                JobEvent::FetchReply(fetched),
                jitter,
            );
            &&& asked.job.expected_size == 0
            &&& asked.tracker.total == tracker.total
            &&& measured.action == (JobAction::Fetch { offset: length })
            &&& answered.action == JobAction::Append
            &&& answered.job.expected_size == resp.declared_length()
            &&& answered.tracker.total == tracker.total + resp.declared_length()
            &&& answered.tracker.counted == tracker.counted.insert(
                job.url,
                resp.declared_length(),
            )
            &&& answered.tracker.record(job.url, resp.declared_length()).total
                == answered.tracker.total
        },
{
    match fetched {
        HttpReply::Response(resp) => {
            let asked = job.step(tracker, JobEvent::ProbeReply(probed), jitter);
            assert(asked.tracker == tracker.record(job.url, 0));
            assert(asked.tracker.contributes(job.url));
            let measured = asked.job.step(asked.tracker, JobEvent::TempLength(length), jitter);
            assert(measured.job.state == JobState::StreamFetch);
            let answered = measured.job.step(
                measured.tracker,
                JobEvent::FetchReply(fetched),
                jitter,
            );
            assert(answered.tracker == asked.tracker.record(job.url, resp.declared_length()));
            assert(answered.tracker.counted =~= tracker.counted.insert(
                job.url,
                resp.declared_length(),
            ));
            assert(answered.tracker.counted.insert(job.url, resp.declared_length())
                =~= answered.tracker.counted);
        },
        _ => {},
    }
}

/// A job whose file grows beyond what 64 bits count fails; in every other
/// case a chunk adds its length to the length of the temporary file.
pub proof fn lemma_chunk_is_counted_or_fails(
    job: JobView,
    tracker: AggregateView,
    length: u64,
    jitter: u64,
)
    requires
        job.state == JobState::StreamWrite,
    ensures
        job.position + length <= u64::MAX ==> job.step(
            tracker,
            JobEvent::Chunk(length),
            jitter,
        ).job.position == job.position + length && job.step(
            tracker,
            JobEvent::Chunk(length),
            jitter,
        ).action == JobAction::Append,
        job.position + length > u64::MAX ==> job.step(
            tracker,
            JobEvent::Chunk(length),
            jitter,
        ).job.state == JobState::Failed,
{
}

/// A partial file that has reached the size of the whole file, where that
/// size is known, is put in place without a fetch: the job asks for the
/// rename, and once that is done it has ended as resumed, with the aggregate
/// as it was.
pub proof fn lemma_complete_partial_is_renamed(
    job: JobView,
    tracker: AggregateView,
    length: u64,
    jitter: u64,
)
    requires
        job.state == JobState::ResumeCheck,
        !job.fetched,
        job.expected_size > 0,
        length >= job.expected_size,
    ensures
        ({
            let measured = job.step(tracker, JobEvent::TempLength(length), jitter);
            let renamed = measured.job.step(measured.tracker, JobEvent::Renamed, jitter);
            &&& measured.action == JobAction::Rename
            &&& measured.job.state == JobState::Finalize
            &&& renamed.action == JobAction::Done(Outcome::Resumed)
            &&& renamed.job.state == JobState::Finalized
            &&& renamed.tracker == tracker
        }),
{
}

/// The destination is written by a rename only, and only once the file is
/// whole: a job asks for the rename when it leaves the resume check with a
/// partial file that has reached the known size, or when the body of its
/// fetch has ended, and at no other time.
pub proof fn lemma_rename_only_when_complete(
    job: JobView,
    tracker: AggregateView,
    event: JobEvent,
    jitter: u64,
)
    requires
        job.state != JobState::Finalize,
        job.step(tracker, event, jitter).action == JobAction::Rename,
    ensures
        ({
            ||| job.state == JobState::ResumeCheck && (event matches JobEvent::TempLength(length)
                && job.complete_at(length))
            ||| job.state == JobState::StreamWrite && event == JobEvent::EndOfStream
        }),
{
}

// ---------------------------------------------------------------------------
// The run
// ---------------------------------------------------------------------------

/// A schedule and the actions that the run has asked for so far.
pub ghost struct RunTrace {
    pub schedule: ScheduleView,
    pub actions: Seq<RunAction>,
}

/// What a sequence of events leads a run to.
pub open spec fn run_schedule(schedule: ScheduleView, events: Seq<RunEvent>) -> RunTrace
    decreases events.len(),
{
    if events.len() == 0 {
        RunTrace { schedule, actions: Seq::empty() }
    } else {
        let before = run_schedule(schedule, events.drop_last());
        let step = before.schedule.step(events.last());
        RunTrace { schedule: step.schedule, actions: before.actions.push(step.action) }
    }
}

/// A step keeps a schedule well formed, and keeps its size, its permits and
/// its cleaning as they are.
pub proof fn lemma_step_keeps_schedule_well_formed(schedule: ScheduleView, event: RunEvent)
    requires
        schedule.well_formed(),
    ensures
        schedule.step(event).schedule.well_formed(),
        schedule.step(event).schedule.total == schedule.total,
        schedule.step(event).schedule.workers == schedule.workers,
        schedule.step(event).schedule.clean == schedule.clean,
{
}

/// At no point of a run are more jobs active than there are workers, whatever
/// happens and in whatever order.
pub proof fn lemma_never_more_active_than_workers(
    total: nat,
    workers: nat,
    clean: bool,
    events: Seq<RunEvent>,
)
    ensures
        run_schedule(ScheduleView::initial(total, workers, clean), events).schedule.well_formed(),
        run_schedule(ScheduleView::initial(total, workers, clean), events).schedule.active
            <= workers,
        run_schedule(ScheduleView::initial(total, workers, clean), events).schedule.workers
            == workers,
        run_schedule(ScheduleView::initial(total, workers, clean), events).schedule.total == total,
        run_schedule(ScheduleView::initial(total, workers, clean), events).schedule.clean == clean,
    decreases events.len(),
{
    if events.len() > 0 {
        lemma_never_more_active_than_workers(total, workers, clean, events.drop_last());
        lemma_step_keeps_schedule_well_formed(
            run_schedule(ScheduleView::initial(total, workers, clean), events.drop_last()).schedule,
            events.last(),
        );
    }
}

/// A permit is given back when a job ends, however it ends.
pub proof fn lemma_permit_is_released(schedule: ScheduleView, succeeded: bool)
    requires
        schedule.well_formed(),
        schedule.active > 0,
    ensures
        schedule.released(succeeded).active == schedule.active - 1,
        schedule.released(succeeded).succeeded + schedule.released(succeeded).failed
            == schedule.succeeded + schedule.failed + 1,
        schedule.released(true).active == schedule.released(false).active,
{
}

/// Whether the run has been told by one of its first `upto` events that the
/// destination is prepared.
pub open spec fn prepared_before(events: Seq<RunEvent>, upto: int) -> bool {
    exists|j: int| 0 <= j < upto && j < events.len() && #[trigger] events[j] == RunEvent::Prepared
}

/// No job starts before the destination is prepared: as long as the run has
/// not been told that it is, the run prepares, asks for nothing but the
/// preparation, with the removal that was configured, or has been aborted.
pub proof fn lemma_nothing_starts_unprepared(
    total: nat,
    workers: nat,
    clean: bool,
    events: Seq<RunEvent>,
)
    requires
        !prepared_before(events, events.len() as int),
    ensures
        ({
            let trace = run_schedule(ScheduleView::initial(total, workers, clean), events);
            &&& trace.schedule.phase == RunPhase::Preparing || trace.schedule.phase
                == RunPhase::Aborted
            &&& trace.schedule.started == 0
            &&& trace.actions.len() == events.len()
            &&& forall|i: int|
                0 <= i < events.len() ==> #[trigger] trace.actions[i] == (RunAction::Prepare {
                    remove_existing: clean,
                }) || trace.actions[i] == RunAction::Abort
        }),
    decreases events.len(),
{
    let start = ScheduleView::initial(total, workers, clean);
    if events.len() > 0 {
        let head = events.drop_last();
        assert(!prepared_before(head, head.len() as int)) by {
            if prepared_before(head, head.len() as int) {
                let j = choose|j: int|
                    0 <= j < head.len() && j < head.len() && #[trigger] head[j]
                        == RunEvent::Prepared;
                assert(events[j] == RunEvent::Prepared);
            }
        }
        lemma_nothing_starts_unprepared(total, workers, clean, head);
        lemma_never_more_active_than_workers(total, workers, clean, head);
        let before = run_schedule(start, head);
        let after = run_schedule(start, events);
        assert(events.last() != RunEvent::Prepared) by {
            assert(events[events.len() - 1] == events.last());
        }
        assert forall|i: int| 0 <= i < events.len() implies #[trigger] after.actions[i] == (
        RunAction::Prepare { remove_existing: clean }) || after.actions[i] == RunAction::Abort by {
            if i < head.len() {
                assert(after.actions[i] == before.actions[i]);
            }
        }
    }
}

/// Every start of a job comes after the preparation of the destination: if
/// the action that answers the event at `index` starts a job, the run has
/// been told before, or is told by that event, that the destination is
/// prepared.
pub proof fn lemma_start_follows_preparation(
    total: nat,
    workers: nat,
    clean: bool,
    events: Seq<RunEvent>,
    index: int,
)
    requires
        0 <= index < events.len(),
        run_schedule(ScheduleView::initial(total, workers, clean), events).actions[index] is Start,
    ensures
        prepared_before(events, index + 1),
{
    let start = ScheduleView::initial(total, workers, clean);
    lemma_actions_are_stable(start, events, index + 1);
    let prefix = events.take(index + 1);
    if !prepared_before(events, index + 1) {
        assert(!prepared_before(prefix, prefix.len() as int)) by {
            if prepared_before(prefix, prefix.len() as int) {
                let j = choose|j: int|
                    0 <= j < prefix.len() && j < prefix.len() && #[trigger] prefix[j]
                        == RunEvent::Prepared;
                assert(events[j] == RunEvent::Prepared);
            }
        }
        lemma_nothing_starts_unprepared(total, workers, clean, prefix);
        let early = run_schedule(start, prefix);
        let whole = run_schedule(start, events);
        assert(early.actions[index] == whole.actions.take(index + 1)[index]);
        assert(early.actions[index] == whole.actions[index]);
        assert(false);
    }
}

/// What a run asked for is not changed by what happens later.
pub proof fn lemma_actions_are_stable(schedule: ScheduleView, events: Seq<RunEvent>, upto: int)
    requires
        0 <= upto <= events.len(),
    ensures
        run_schedule(schedule, events).actions.len() == events.len(),
        run_schedule(schedule, events.take(upto)).actions == run_schedule(
            schedule,
            events,
        ).actions.take(upto),
    decreases events.len(),
{
    if events.len() == 0 {
        assert(events.take(upto) =~= events);
        assert(run_schedule(schedule, events).actions.take(upto) =~= run_schedule(
            schedule,
            events,
        ).actions);
    } else if upto == events.len() {
        lemma_actions_are_stable(schedule, events.drop_last(), upto - 1);
        assert(events.take(upto) =~= events);
        assert(run_schedule(schedule, events).actions.take(upto) =~= run_schedule(
            schedule,
            events,
        ).actions);
    } else {
        lemma_actions_are_stable(schedule, events.drop_last(), upto);
        assert(events.drop_last().take(upto) =~= events.take(upto));
        assert(run_schedule(schedule, events).actions.take(upto) =~= run_schedule(
            schedule,
            events.drop_last(),
        ).actions.take(upto));
    }
}

} // verus!
