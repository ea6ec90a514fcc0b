use multifiledownloader::error::{DownloadError, RequestFailure};
use multifiledownloader::http::{HttpReply, HttpResponse};
use multifiledownloader::job::{
    join_path, DownloadJob, JobAction, JobEvent, JobState, Outcome, FETCH_PAUSE_END,
    FETCH_PAUSE_MIN,
};
use multifiledownloader::tracker::AggregateState;

fn answer(status: u16, content_length: Option<&str>, retry_after: Option<&str>) -> HttpReply {
    HttpReply::Response(HttpResponse {
        status,
        content_length: content_length.map(|s| s.to_string()),
        retry_after: retry_after.map(|s| s.to_string()),
        body_length: None,
    })
}

fn fresh() -> (DownloadJob, AggregateState) {
    (DownloadJob::new("http://x/a.bin", "a.bin", "/tmp/out"), AggregateState::new())
}

fn probed(length: &str) -> (DownloadJob, AggregateState) {
    let (mut job, mut t) = fresh();
    job.advance(&mut t, JobEvent::Existence(false), 0);
    let a = job.advance(&mut t, JobEvent::ProbeReply(answer(200, Some(length), None)), 0);
    assert_eq!(a, JobAction::MeasureTemp);
    (job, t)
}

#[test]
fn join_path_adds_one_separator() {
    assert_eq!(join_path("/tmp/out", "a.bin"), "/tmp/out/a.bin");
    assert_eq!(join_path("/tmp/out/", "a.bin"), "/tmp/out/a.bin");
    assert_eq!(join_path("", "a.bin"), "a.bin");
    assert_eq!(join_path("/", "a.bin"), "/a.bin");
    assert_eq!(join_path(".", "a.bin"), "./a.bin");
    assert_eq!(join_path("/tmp/out", ""), "/tmp/out/");
}

#[test]
fn a_new_job_knows_its_paths() {
    let (job, _) = fresh();
    assert_eq!(job.url(), "http://x/a.bin");
    assert_eq!(job.filename(), "a.bin");
    assert_eq!(job.dest_path(), "/tmp/out/a.bin");
    assert_eq!(job.temp_path(), "/tmp/out/a.bin.part");
    assert_eq!(job.state(), JobState::CheckExists);
    assert_eq!(job.resume_offset(), 0);
    assert_eq!(job.expected_size(), 0);
    assert_eq!(job.position(), 0);
    assert!(!job.is_done());
    assert_eq!(*job.failure(), None);
    assert_eq!(job.pending(), JobAction::CheckDestination);
}

#[test]
fn the_temporary_path_is_the_destination_with_a_suffix() {
    for (dir, name) in [("/d", "name.ext"), ("/d", "name"), ("/d/", ".hidden"), ("", "x.tar.gz")] {
        let job = DownloadJob::new("http://x/y", name, dir);
        assert_eq!(job.temp_path(), format!("{}.part", job.dest_path()));
    }
}

#[test]
fn waking_a_job_asks_for_what_it_waits_for() {
    let (mut job, mut t) = fresh();
    assert_eq!(job.advance(&mut t, JobEvent::Wake, 0), JobAction::CheckDestination);
    assert_eq!(job.state(), JobState::CheckExists);
    job.advance(&mut t, JobEvent::Existence(false), 0);
    assert_eq!(job.advance(&mut t, JobEvent::Wake, 0), JobAction::Probe);
    assert_eq!(job.state(), JobState::ProbeSize);
}

#[test]
fn an_existing_destination_is_skipped_without_any_request() {
    let (mut job, mut t) = fresh();
    let a = job.advance(&mut t, JobEvent::Existence(true), 0);
    assert_eq!(a, JobAction::Done(Outcome::Skipped));
    assert_eq!(job.state(), JobState::Skipped);
    assert!(job.is_done());
    assert_eq!(t.total(), 0);
    assert_eq!(job.advance(&mut t, JobEvent::Wake, 0), JobAction::Done(Outcome::Skipped));
    assert_eq!(
        job.advance(&mut t, JobEvent::ProbeReply(answer(200, Some("5"), None)), 0),
        JobAction::Done(Outcome::Skipped)
    );
    assert_eq!(t.total(), 0);
}

#[test]
fn a_fresh_download_runs_through_every_state() {
    let (mut job, mut t) = fresh();
    assert_eq!(job.advance(&mut t, JobEvent::Existence(false), 0), JobAction::Probe);
    assert_eq!(
        job.advance(&mut t, JobEvent::ProbeReply(answer(200, Some("500"), None)), 0),
        JobAction::MeasureTemp
    );
    assert_eq!(job.state(), JobState::ResumeCheck);
    assert_eq!(job.expected_size(), 500);
    assert_eq!(t.total(), 500);
    assert_eq!(job.advance(&mut t, JobEvent::TempLength(0), 0), JobAction::Fetch { offset: 0 });
    assert_eq!(job.state(), JobState::StreamFetch);
    assert_eq!(
        job.advance(&mut t, JobEvent::FetchReply(answer(200, Some("500"), None)), 0),
        JobAction::Append
    );
    assert_eq!(job.state(), JobState::StreamWrite);
    assert_eq!(job.advance(&mut t, JobEvent::Chunk(200), 0), JobAction::Append);
    assert_eq!(job.position(), 200);
    assert_eq!(job.advance(&mut t, JobEvent::Chunk(300), 0), JobAction::Append);
    assert_eq!(job.position(), 500);
    assert_eq!(job.advance(&mut t, JobEvent::EndOfStream, 0), JobAction::Rename);
    assert_eq!(job.state(), JobState::Finalize);
    assert_eq!(job.advance(&mut t, JobEvent::Renamed, 0), JobAction::Done(Outcome::Downloaded));
    assert_eq!(job.state(), JobState::Finalized);
    assert!(job.is_done());
    assert_eq!(t.total(), 500);
}

#[test]
fn a_partial_file_is_resumed_from_its_end() {
    let (mut job, mut t) = probed("500");
    let a = job.advance(&mut t, JobEvent::TempLength(120), 0);
    assert_eq!(a, JobAction::Fetch { offset: 120 });
    assert_eq!(job.resume_offset(), 120);
    assert_eq!(job.position(), 120);
    job.advance(&mut t, JobEvent::FetchReply(answer(206, Some("380"), None)), 0);
    job.advance(&mut t, JobEvent::Chunk(380), 0);
    assert_eq!(job.position(), 500);
    assert_eq!(job.expected_size(), 500);
    job.advance(&mut t, JobEvent::EndOfStream, 0);
    assert_eq!(job.advance(&mut t, JobEvent::Renamed, 0), JobAction::Done(Outcome::Downloaded));
    assert_eq!(job.position(), job.expected_size());
    assert_eq!(t.total(), 500);
}

#[test]
fn a_partial_file_of_full_length_is_renamed_without_a_fetch() {
    let (mut job, mut t) = probed("500");
    let a = job.advance(&mut t, JobEvent::TempLength(500), 0);
    assert_eq!(a, JobAction::Rename);
    assert_eq!(job.state(), JobState::Finalize);
    let a = job.advance(&mut t, JobEvent::Renamed, 0);
    assert_eq!(a, JobAction::Done(Outcome::Resumed));
    assert_eq!(job.state(), JobState::Finalized);
    assert_eq!(t.total(), 500);
}

#[test]
fn a_partial_file_longer_than_the_file_is_renamed_without_a_fetch() {
    let (mut job, mut t) = probed("500");
    assert_eq!(job.advance(&mut t, JobEvent::TempLength(501), 0), JobAction::Rename);
    assert_eq!(job.advance(&mut t, JobEvent::Renamed, 0), JobAction::Done(Outcome::Resumed));
}

#[test]
fn a_partial_file_of_unknown_size_is_fetched_from_its_end() {
    let (mut job, mut t) = probed("0");
    assert_eq!(job.expected_size(), 0);
    assert_eq!(job.advance(&mut t, JobEvent::TempLength(40), 0), JobAction::Fetch { offset: 40 });
}

#[test]
fn a_file_of_declared_size_zero_is_still_fetched_and_put_in_place() {
    let (mut job, mut t) = probed("0");
    assert_eq!(job.advance(&mut t, JobEvent::TempLength(0), 0), JobAction::Fetch { offset: 0 });
    assert_eq!(
        job.advance(&mut t, JobEvent::FetchReply(answer(200, Some("0"), None)), 0),
        JobAction::Append
    );
    assert_eq!(job.advance(&mut t, JobEvent::EndOfStream, 0), JobAction::Rename);
    assert_eq!(job.advance(&mut t, JobEvent::Renamed, 0), JobAction::Done(Outcome::Downloaded));
    assert_eq!(t.total(), 0);
}

#[test]
fn a_fetch_that_declares_a_length_fills_in_an_unknown_size_once() {
    let (mut job, mut t) = probed("0");
    job.advance(&mut t, JobEvent::TempLength(0), 0);
    job.advance(&mut t, JobEvent::FetchReply(answer(200, Some("700"), None)), 0);
    assert_eq!(job.expected_size(), 700);
    assert_eq!(t.total(), 700);

    let mut twin = DownloadJob::new("http://x/a.bin", "a.bin", "/tmp/out");
    twin.advance(&mut t, JobEvent::Existence(false), 0);
    twin.advance(&mut t, JobEvent::ProbeReply(answer(200, None, None)), 0);
    twin.advance(&mut t, JobEvent::TempLength(0), 0);
    twin.advance(&mut t, JobEvent::FetchReply(answer(200, Some("700"), None)), 0);
    assert_eq!(twin.expected_size(), 700);
    assert_eq!(t.total(), 700);
}

#[test]
fn a_fetch_does_not_change_a_known_size() {
    let (mut job, mut t) = probed("500");
    job.advance(&mut t, JobEvent::TempLength(100), 0);
    job.advance(&mut t, JobEvent::FetchReply(answer(206, Some("400"), None)), 0);
    assert_eq!(job.expected_size(), 500);
    assert_eq!(t.total(), 500);
}

#[test]
fn a_throttled_probe_pauses_and_is_repeated() {
    let (mut job, mut t) = fresh();
    job.advance(&mut t, JobEvent::Existence(false), 0);
    let a = job.advance(&mut t, JobEvent::ProbeReply(answer(429, None, None)), 900);
    assert_eq!(a, JobAction::Pause { millis: 900 });
    assert_eq!(job.state(), JobState::ProbeSize);
    assert_eq!(job.advance(&mut t, JobEvent::Wake, 0), JobAction::Probe);
    let a = job.advance(&mut t, JobEvent::ProbeReply(answer(200, Some("500"), None)), 900);
    assert_eq!(a, JobAction::MeasureTemp);
    assert_eq!(t.total(), 500);
}

#[test]
fn a_throttled_fetch_starts_the_job_over_after_the_named_pause() {
    let (mut job, mut t) = probed("500");
    job.advance(&mut t, JobEvent::TempLength(100), 0);
    let a = job.advance(&mut t, JobEvent::FetchReply(answer(429, None, Some("2500"))), 1100);
    assert_eq!(a, JobAction::Pause { millis: 2500 });
    assert_eq!(job.state(), JobState::CheckExists);
    assert_eq!(job.resume_offset(), 0);
    assert_eq!(job.expected_size(), 0);
    assert_eq!(job.position(), 0);
    assert_eq!(job.advance(&mut t, JobEvent::Wake, 0), JobAction::CheckDestination);
    assert_eq!(t.total(), 500);
}

#[test]
fn a_throttled_fetch_without_a_named_pause_takes_the_drawn_one() {
    let (mut job, mut t) = probed("500");
    job.advance(&mut t, JobEvent::TempLength(0), 0);
    let a = job.advance(&mut t, JobEvent::FetchReply(answer(429, None, None)), 1100);
    assert_eq!(a, JobAction::Pause { millis: 1100 });
    let (mut job, mut t) = probed("500");
    job.advance(&mut t, JobEvent::TempLength(0), 0);
    let a = job.advance(&mut t, JobEvent::FetchReply(answer(429, None, Some("later"))), 1100);
    assert_eq!(a, JobAction::Pause { millis: 1100 });
    assert_eq!(FETCH_PAUSE_MIN, 1000);
    assert_eq!(FETCH_PAUSE_END, 3000);
}

#[test]
fn a_job_that_started_over_runs_to_the_end() {
    let (mut job, mut t) = probed("500");
    job.advance(&mut t, JobEvent::TempLength(0), 0);
    job.advance(&mut t, JobEvent::FetchReply(answer(429, None, None)), 1100);
    assert_eq!(job.advance(&mut t, JobEvent::Existence(false), 0), JobAction::Probe);
    job.advance(&mut t, JobEvent::ProbeReply(answer(200, Some("500"), None)), 0);
    job.advance(&mut t, JobEvent::TempLength(0), 0);
    job.advance(&mut t, JobEvent::FetchReply(answer(200, None, None)), 0);
    job.advance(&mut t, JobEvent::Chunk(500), 0);
    job.advance(&mut t, JobEvent::EndOfStream, 0);
    assert_eq!(job.advance(&mut t, JobEvent::Renamed, 0), JobAction::Done(Outcome::Downloaded));
    assert_eq!(t.total(), 500);
}

#[test]
fn an_error_status_fails_the_fetch() {
    let (mut job, mut t) = probed("500");
    job.advance(&mut t, JobEvent::TempLength(0), 0);
    let a = job.advance(&mut t, JobEvent::FetchReply(answer(404, None, None)), 0);
    assert_eq!(a, JobAction::Done(Outcome::Failed));
    assert_eq!(job.state(), JobState::Failed);
    assert_eq!(
        *job.failure(),
        Some(DownloadError::ReqwestError(RequestFailure::Status(404)))
    );
}

#[test]
fn any_status_but_success_fails_the_fetch() {
    for status in [100u16, 301, 304, 400, 416, 500, 503, 600] {
        let (mut job, mut t) = probed("500");
        job.advance(&mut t, JobEvent::TempLength(0), 0);
        let a = job.advance(&mut t, JobEvent::FetchReply(answer(status, None, None)), 0);
        assert_eq!(a, JobAction::Done(Outcome::Failed), "{}", status);
        assert_eq!(
            *job.failure(),
            Some(DownloadError::ReqwestError(RequestFailure::Status(status)))
        );
    }
}

#[test]
fn a_fetch_without_an_answer_fails_the_job() {
    let (mut job, mut t) = probed("500");
    job.advance(&mut t, JobEvent::TempLength(0), 0);
    let a = job.advance(&mut t, JobEvent::FetchReply(HttpReply::Failure("reset".to_string())), 0);
    assert_eq!(a, JobAction::Done(Outcome::Failed));
    assert_eq!(
        *job.failure(),
        Some(DownloadError::ReqwestError(RequestFailure::Transport("reset".to_string())))
    );
}

#[test]
fn a_failed_probe_fails_the_job() {
    let (mut job, mut t) = fresh();
    job.advance(&mut t, JobEvent::Existence(false), 0);
    let a = job.advance(&mut t, JobEvent::ProbeReply(answer(403, None, None)), 0);
    assert_eq!(a, JobAction::Done(Outcome::Failed));
    assert_eq!(
        *job.failure(),
        Some(DownloadError::ReqwestError(RequestFailure::Status(403)))
    );
    assert_eq!(t.total(), 0);
}

#[test]
fn a_write_failure_fails_the_job() {
    let (mut job, mut t) = probed("500");
    job.advance(&mut t, JobEvent::TempLength(0), 0);
    job.advance(&mut t, JobEvent::FetchReply(answer(200, None, None)), 0);
    job.advance(&mut t, JobEvent::Chunk(10), 0);
    let a = job.advance(&mut t, JobEvent::IoFailure("disk full".to_string()), 0);
    assert_eq!(a, JobAction::Done(Outcome::Failed));
    assert_eq!(*job.failure(), Some(DownloadError::IoError("disk full".to_string())));
    assert_eq!(job.position(), 10);
}

#[test]
fn a_broken_stream_fails_the_job() {
    let (mut job, mut t) = probed("500");
    job.advance(&mut t, JobEvent::TempLength(0), 0);
    job.advance(&mut t, JobEvent::FetchReply(answer(200, None, None)), 0);
    let a = job.advance(&mut t, JobEvent::TransferFailure("eof".to_string()), 0);
    assert_eq!(a, JobAction::Done(Outcome::Failed));
    assert_eq!(
        *job.failure(),
        Some(DownloadError::ReqwestError(RequestFailure::Transport("eof".to_string())))
    );
}

#[test]
fn a_failed_rename_fails_the_job() {
    let (mut job, mut t) = probed("500");
    job.advance(&mut t, JobEvent::TempLength(500), 0);
    let a = job.advance(&mut t, JobEvent::IoFailure("denied".to_string()), 0);
    assert_eq!(a, JobAction::Done(Outcome::Failed));
    assert_eq!(*job.failure(), Some(DownloadError::IoError("denied".to_string())));
}

#[test]
fn an_event_that_does_not_answer_the_state_changes_nothing() {
    let (mut job, mut t) = probed("500");
    for event in [
        JobEvent::Existence(true),
        JobEvent::Chunk(5),
        JobEvent::EndOfStream,
        JobEvent::Renamed,
        JobEvent::IoFailure("x".to_string()),
        JobEvent::FetchReply(answer(200, Some("9"), None)),
    ] {
        assert_eq!(job.advance(&mut t, event, 0), JobAction::MeasureTemp);
        assert_eq!(job.state(), JobState::ResumeCheck);
        assert_eq!(job.expected_size(), 500);
        assert_eq!(t.total(), 500);
    }
}

#[test]
fn a_job_that_has_ended_stays_as_it_is() {
    let (mut job, mut t) = probed("500");
    job.advance(&mut t, JobEvent::TempLength(500), 0);
    job.advance(&mut t, JobEvent::Renamed, 0);
    for event in [
        JobEvent::Wake,
        JobEvent::Existence(false),
        JobEvent::TempLength(3),
        JobEvent::IoFailure("x".to_string()),
    ] {
        assert_eq!(job.advance(&mut t, event, 0), JobAction::Done(Outcome::Resumed));
        assert_eq!(job.state(), JobState::Finalized);
    }
    assert_eq!(*job.failure(), None);
}

#[test]
fn a_file_beyond_sixty_four_bits_fails_the_job() {
    let (mut job, mut t) = probed("0");
    job.advance(&mut t, JobEvent::TempLength(10), 0);
    job.advance(&mut t, JobEvent::FetchReply(answer(200, None, None)), 0);
    assert_eq!(job.advance(&mut t, JobEvent::Chunk(u64::MAX - 10), 0), JobAction::Append);
    assert_eq!(job.position(), u64::MAX);
    let a = job.advance(&mut t, JobEvent::Chunk(1), 0);
    assert_eq!(a, JobAction::Done(Outcome::Failed));
    assert_eq!(job.state(), JobState::Failed);
    assert_eq!(*job.failure(), Some(DownloadError::IoError("file too large".to_string())));
    assert_eq!(job.position(), u64::MAX);
}

#[test]
fn a_probe_answered_with_a_redirect_fails_the_job() {
    for status in [100u16, 301, 304, 600] {
        let (mut job, mut t) = fresh();
        job.advance(&mut t, JobEvent::Existence(false), 0);
        let a = job.advance(&mut t, JobEvent::ProbeReply(answer(status, Some("7"), None)), 0);
        assert_eq!(a, JobAction::Done(Outcome::Failed), "{}", status);
        assert_eq!(job.state(), JobState::Failed);
        assert_eq!(
            *job.failure(),
            Some(DownloadError::ReqwestError(RequestFailure::Status(status)))
        );
        assert_eq!(t.total(), 0);
    }
}

#[test]
fn a_probe_with_an_unreadable_length_goes_on_with_an_unknown_size() {
    let (mut job, mut t) = fresh();
    job.advance(&mut t, JobEvent::Existence(false), 0);
    let a = job.advance(&mut t, JobEvent::ProbeReply(answer(200, Some("abc"), None)), 0);
    assert_eq!(a, JobAction::MeasureTemp);
    assert_eq!(job.expected_size(), 0);
    assert_eq!(t.total(), 0);
    assert_eq!(job.advance(&mut t, JobEvent::TempLength(0), 0), JobAction::Fetch { offset: 0 });
    job.advance(&mut t, JobEvent::FetchReply(answer(200, Some("640"), None)), 0);
    assert_eq!(job.expected_size(), 640);
    assert_eq!(t.total(), 640);
}
