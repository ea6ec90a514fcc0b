use multifiledownloader::downloader::{human_readable_size, throttling, Downloader};
use multifiledownloader::error::{DownloadError, RequestFailure};
use multifiledownloader::http::{HttpReply, HttpResponse};
use multifiledownloader::job::{JobAction, JobEvent, JobState, Outcome};
use multifiledownloader::probe::ProbeStep;
use multifiledownloader::schedule::{RunAction, RunEvent, RunPhase};

fn urls(items: &[&str]) -> Vec<String> {
    items.iter().map(|s| s.to_string()).collect()
}

fn answer(status: u16, content_length: Option<&str>, retry_after: Option<&str>) -> HttpReply {
    HttpReply::Response(HttpResponse {
        status,
        content_length: content_length.map(|s| s.to_string()),
        retry_after: retry_after.map(|s| s.to_string()),
        body_length: None,
    })
}

fn downloader(items: &[&str], workers: usize) -> Downloader {
    Downloader::new(urls(items), "/tmp/out".to_string(), workers, false)
}

#[test]
fn human_readable_size_uses_decimal_units() {
    assert_eq!(human_readable_size(0), "0 B");
    assert_eq!(human_readable_size(500), "500 B");
    assert_eq!(human_readable_size(1_000), "1 kB");
    assert_eq!(human_readable_size(1_500), "1.50 kB");
    assert_eq!(human_readable_size(1_000_000), "1 MB");
    assert_eq!(human_readable_size(1_234_567_890), "1.23 GB");
}

#[test]
fn human_readable_size_agrees_with_humansize() {
    for n in [0u64, 1, 999, 1000, 1001, 123_456, 999_999, 5_000_000_000, u64::MAX] {
        assert_eq!(human_readable_size(n), humansize::format_size(n, humansize::DECIMAL));
    }
}

#[test]
fn a_new_downloader_keeps_its_configuration() {
    let d = Downloader::new(urls(&["http://x/a", "nope"]), "/tmp/out".to_string(), 4, true);
    assert_eq!(d.num_urls(), 2);
    assert_eq!(d.num_workers(), 4);
    assert_eq!(d.get_dest(), "/tmp/out");
    assert!(d.is_clean());
    assert_eq!(d.url(0), Some("http://x/a"));
    assert_eq!(d.url(1), Some("nope"));
    assert_eq!(d.url(2), None);
    assert_eq!(d.get_total_size_bytes(), 0);
    assert_eq!(d.get_total_size_human(), "0 B");
    assert_eq!(d.schedule().phase(), RunPhase::Preparing);
    assert_eq!(d.schedule().total(), 2);
    assert_eq!(d.schedule().workers(), 4);
}

#[test]
fn a_new_downloader_expands_a_tilde_in_the_destination() {
    let d = Downloader::new(Vec::new(), "~/dl".to_string(), 1, false);
    assert_eq!(d.get_dest(), shellexpand::tilde("~/dl").to_string());
    assert_eq!(Downloader::shellexpand_tilde("/a/b"), "/a/b");
    assert_eq!(Downloader::shellexpand_tilde("~x"), "~x");
    assert_eq!(Downloader::shellexpand_tilde("~"), shellexpand::tilde("~").to_string());
}

#[test]
fn get_filename_is_the_last_segment() {
    assert_eq!(Downloader::get_filename("http://x/a.bin"), "a.bin");
    assert_eq!(Downloader::get_filename("nope"), "downloaded_file");
}

#[test]
fn with_urls_keeps_what_can_be_downloaded() {
    let d = downloader(&[], 2).with_urls(urls(&[" http://x/a ", "", "nope", "HTTP://Y/b"]));
    assert_eq!(d.num_urls(), 2);
    assert_eq!(d.url(0), Some("http://x/a"));
    assert_eq!(d.url(1), Some("http://y/b"));
    assert_eq!(d.schedule().total(), 2);
    assert_eq!(d.num_workers(), 2);
}

#[test]
fn the_builders_change_one_setting() {
    let d = downloader(&["http://x/a"], 2).with_workers(7);
    assert_eq!(d.num_workers(), 7);
    assert_eq!(d.schedule().workers(), 7);
    assert_eq!(d.num_urls(), 1);
    let d = d.with_dest("/srv/files");
    assert_eq!(d.get_dest(), "/srv/files");
    assert_eq!(d.num_workers(), 7);
    let d = d.clean();
    assert!(d.is_clean());
    let d = d.no_clean();
    assert!(!d.is_clean());
    assert_eq!(d.get_dest(), "/srv/files");
    assert_eq!(d.num_urls(), 1);
}

#[test]
fn clean_decides_what_the_preparation_removes() {
    let mut d = downloader(&["http://x/a"], 1).clean();
    assert_eq!(d.run(RunEvent::Wake), RunAction::Prepare { remove_existing: true });
    let mut d = downloader(&["http://x/a"], 1).no_clean();
    assert_eq!(d.run(RunEvent::Wake), RunAction::Prepare { remove_existing: false });
}

#[test]
fn the_summary_of_the_urls() {
    assert_eq!(downloader(&[], 1).urls_summary(), "[; 0]");
    assert_eq!(downloader(&["a"], 1).urls_summary(), "[a; 1]");
    assert_eq!(downloader(&["a", "b", "c"], 1).urls_summary(), "[a, b, c; 3]");
    assert_eq!(downloader(&["a", "b", "c", "d", "e"], 1).urls_summary(), "[a, b, c...; 5]");
}

#[test]
fn a_job_is_made_for_each_url() {
    let d = downloader(&["http://x/a.bin", "nope", "http://x/dir/"], 1);
    let job = d.job(0).unwrap();
    assert_eq!(job.url(), "http://x/a.bin");
    assert_eq!(job.filename(), "a.bin");
    assert_eq!(job.dest_path(), "/tmp/out/a.bin");
    assert_eq!(job.temp_path(), "/tmp/out/a.bin.part");
    assert_eq!(job.state(), JobState::CheckExists);
    let job = d.job(1).unwrap();
    assert_eq!(job.dest_path(), "/tmp/out/downloaded_file");
    let job = d.job(2).unwrap();
    assert_eq!(job.dest_path(), "/tmp/out/");
    assert!(d.job(3).is_none());
}

#[test]
fn get_file_size_counts_a_url_once() {
    let mut d = downloader(&["http://x/a.bin", "http://x/a.bin"], 2);
    let first = d.get_file_size("http://x/a.bin", answer(200, Some("500"), None));
    let second = d.get_file_size("http://x/a.bin", answer(200, Some("500"), None));
    assert_eq!(first, ProbeStep::Sized(500));
    assert_eq!(second, ProbeStep::Sized(500));
    assert_eq!(d.get_total_size_bytes(), 500);
    assert_eq!(d.get_total_size_human(), "500 B");
    assert_eq!(d.tracker().counted_size("http://x/a.bin"), Some(500));
}

#[test]
fn a_throttled_probe_is_retried_after_a_pause_in_range_and_then_succeeds() {
    let mut d = downloader(&["http://x/a.bin"], 1);
    for _ in 0..200 {
        match d.get_file_size("http://x/a.bin", answer(429, None, None)) {
            ProbeStep::Retry { after_millis } => {
                assert!(500 <= after_millis && after_millis < 1500, "{}", after_millis);
            }
            other => panic!("unexpected step {:?}", other),
        }
        assert_eq!(d.get_total_size_bytes(), 0);
    }
    let step = d.get_file_size("http://x/a.bin", answer(200, Some("500"), None));
    assert_eq!(step, ProbeStep::Sized(500));
    assert_eq!(d.get_total_size_bytes(), 500);
}

#[test]
fn the_pause_of_a_throttled_probe_varies() {
    let mut d = downloader(&["http://x/a.bin"], 1);
    let mut seen = std::collections::BTreeSet::new();
    for _ in 0..100 {
        if let ProbeStep::Retry { after_millis } =
            d.get_file_size("http://x/a.bin", answer(429, None, None))
        {
            seen.insert(after_millis);
        }
    }
    assert!(seen.len() > 1);
}

#[test]
fn download_file_draws_the_pause_of_a_throttled_fetch() {
    for _ in 0..100 {
        let mut d = downloader(&["http://x/a.bin"], 1);
        let mut job = d.job(0).unwrap();
        assert_eq!(d.download_file(&mut job, JobEvent::Wake), JobAction::CheckDestination);
        assert_eq!(d.download_file(&mut job, JobEvent::Existence(false)), JobAction::Probe);
        let event = JobEvent::ProbeReply(answer(200, Some("500"), None));
        assert_eq!(d.download_file(&mut job, event), JobAction::MeasureTemp);
        assert_eq!(
            d.download_file(&mut job, JobEvent::TempLength(10)),
            JobAction::Fetch { offset: 10 }
        );
        match d.download_file(&mut job, JobEvent::FetchReply(answer(429, None, None))) {
            JobAction::Pause { millis } => assert!(1000 <= millis && millis < 3000, "{}", millis),
            other => panic!("unexpected action {:?}", other),
        }
        assert_eq!(job.state(), JobState::CheckExists);
    }
}

#[test]
fn download_file_takes_the_pause_that_the_server_names() {
    let mut d = downloader(&["http://x/a.bin"], 1);
    let mut job = d.job(0).unwrap();
    d.download_file(&mut job, JobEvent::Existence(false));
    d.download_file(&mut job, JobEvent::ProbeReply(answer(200, Some("500"), None)));
    d.download_file(&mut job, JobEvent::TempLength(0));
    let a = d.download_file(&mut job, JobEvent::FetchReply(answer(429, None, Some("40"))));
    assert_eq!(a, JobAction::Pause { millis: 40 });
}

#[test]
fn download_file_draws_the_pause_of_a_throttled_probe() {
    let mut d = downloader(&["http://x/a.bin"], 1);
    let mut job = d.job(0).unwrap();
    d.download_file(&mut job, JobEvent::Existence(false));
    for _ in 0..100 {
        match d.download_file(&mut job, JobEvent::ProbeReply(answer(429, None, Some("40")))) {
            JobAction::Pause { millis } => assert!(500 <= millis && millis < 1500, "{}", millis),
            other => panic!("unexpected action {:?}", other),
        }
        assert_eq!(job.state(), JobState::ProbeSize);
    }
}

#[test]
fn advance_takes_the_pause_that_it_is_given() {
    let mut d = downloader(&["http://x/a.bin"], 1);
    let mut job = d.job(0).unwrap();
    d.advance(&mut job, JobEvent::Existence(false), 0);
    let a = d.advance(&mut job, JobEvent::ProbeReply(answer(429, None, None)), 77);
    assert_eq!(a, JobAction::Pause { millis: 77 });
}

#[test]
fn throttling_tells_the_answers_that_throttle() {
    assert!(throttling(&JobEvent::ProbeReply(answer(429, None, None))));
    assert!(throttling(&JobEvent::FetchReply(answer(429, None, None))));
    assert!(!throttling(&JobEvent::FetchReply(answer(200, None, None))));
    assert!(!throttling(&JobEvent::FetchReply(HttpReply::Failure("x".to_string()))));
    assert!(!throttling(&JobEvent::Wake));
}

#[test]
fn the_same_url_twice_adds_its_size_once() {
    let mut d = downloader(&["http://x/a.bin", "http://x/a.bin"], 2);
    for index in 0..2 {
        let mut job = d.job(index).unwrap();
        d.download_file(&mut job, JobEvent::Existence(false));
        d.download_file(&mut job, JobEvent::ProbeReply(answer(200, Some("500"), None)));
        d.download_file(&mut job, JobEvent::TempLength(0));
        d.download_file(&mut job, JobEvent::FetchReply(answer(200, Some("500"), None)));
        d.download_file(&mut job, JobEvent::Chunk(500));
        d.download_file(&mut job, JobEvent::EndOfStream);
        assert_eq!(
            d.download_file(&mut job, JobEvent::Renamed),
            JobAction::Done(Outcome::Downloaded)
        );
    }
    assert_eq!(d.get_total_size_bytes(), 500);
}

#[test]
fn distinct_urls_add_their_sizes_whatever_the_interleaving() {
    let sizes = ["100", "250", "7"];
    let items = ["http://x/a", "http://x/b", "http://y/a"];
    let mut d = downloader(&items, 3);
    let mut jobs = vec![d.job(0).unwrap(), d.job(1).unwrap(), d.job(2).unwrap()];
    for job in jobs.iter_mut() {
        d.download_file(job, JobEvent::Existence(false));
    }
    for i in [2usize, 0, 1] {
        d.download_file(&mut jobs[i], JobEvent::ProbeReply(answer(200, Some(sizes[i]), None)));
    }
    for i in [1usize, 2, 0] {
        d.get_file_size(items[i], answer(200, Some(sizes[i]), None));
    }
    assert_eq!(d.get_total_size_bytes(), 357);
}

#[test]
fn a_second_run_on_finished_files_skips_every_job_without_a_request() {
    let items = ["http://x/a", "http://x/b", "http://x/c"];
    let mut d = downloader(&items, 2);
    assert_eq!(d.run(RunEvent::Wake), RunAction::Prepare { remove_existing: false });
    let mut action = d.run(RunEvent::Prepared);
    let mut skipped = 0;
    loop {
        match action {
            RunAction::Start { index } => {
                let mut job = d.job(index).unwrap();
                assert_eq!(d.download_file(&mut job, JobEvent::Wake), JobAction::CheckDestination);
                let a = d.download_file(&mut job, JobEvent::Existence(true));
                assert_eq!(a, JobAction::Done(Outcome::Skipped));
                assert_eq!(job.state(), JobState::Skipped);
                skipped += 1;
                action = d.run(RunEvent::JobFinished { succeeded: true });
            }
            RunAction::Finish => break,
            RunAction::Wait => panic!("nothing to wait for"),
            RunAction::Prepare { .. } | RunAction::Abort => panic!("unexpected action"),
        }
    }
    assert_eq!(skipped, 3);
    assert_eq!(d.get_total_size_bytes(), 0);
    assert_eq!(d.schedule().succeeded(), 3);
}

#[test]
fn a_run_of_five_urls_with_two_workers_completes_all_five() {
    let items = ["http://x/1", "http://x/2", "http://x/3", "http://x/4", "http://x/5"];
    let mut d = downloader(&items, 2);
    d.run(RunEvent::Wake);
    let mut action = d.run(RunEvent::Prepared);
    let mut running: Vec<usize> = Vec::new();
    let mut finished: Vec<usize> = Vec::new();
    let mut most = 0;
    loop {
        assert!(d.schedule().active() <= 2);
        match action {
            RunAction::Start { index } => {
                running.push(index);
                assert_eq!(d.schedule().active(), running.len());
                assert!(running.len() <= 2);
                most = most.max(running.len());
                action = d.run(RunEvent::Wake);
            }
            RunAction::Wait => {
                assert_eq!(d.schedule().active(), running.len());
                let index = running.remove(0);
                let mut job = d.job(index).unwrap();
                d.download_file(&mut job, JobEvent::Existence(false));
                d.download_file(&mut job, JobEvent::ProbeReply(answer(200, Some("10"), None)));
                d.download_file(&mut job, JobEvent::TempLength(0));
                d.download_file(&mut job, JobEvent::FetchReply(answer(200, Some("10"), None)));
                d.download_file(&mut job, JobEvent::Chunk(10));
                d.download_file(&mut job, JobEvent::EndOfStream);
                let a = d.download_file(&mut job, JobEvent::Renamed);
                assert_eq!(a, JobAction::Done(Outcome::Downloaded));
                finished.push(index);
                action = d.run(RunEvent::JobFinished { succeeded: true });
            }
            RunAction::Finish => break,
            RunAction::Prepare { .. } | RunAction::Abort => panic!("unexpected action"),
        }
    }
    assert_eq!(finished, vec![0, 1, 2, 3, 4]);
    assert_eq!(most, 2);
    assert_eq!(d.get_total_size_bytes(), 50);
    assert_eq!(d.schedule().succeeded(), 5);
    assert_eq!(d.schedule().phase(), RunPhase::Finished);
}

#[test]
fn two_urls_with_the_same_last_segment_share_their_paths() {
    let d = downloader(&["http://x/a.bin", "http://y/other/a.bin"], 2);
    let first = d.job(0).unwrap();
    let second = d.job(1).unwrap();
    assert_ne!(first.url(), second.url());
    assert_eq!(first.dest_path(), second.dest_path());
    assert_eq!(first.temp_path(), second.temp_path());
}

#[test]
fn the_total_in_bytes_stops_at_the_largest_sixty_four_bit_number() {
    let mut d = downloader(&["a", "b"], 1);
    d.get_file_size("a", answer(200, Some("18446744073709551615"), None));
    assert_eq!(d.get_total_size_bytes(), u64::MAX);
    assert_eq!(d.tracker().total(), u64::MAX as u128);
    d.get_file_size("b", answer(200, Some("5"), None));
    assert_eq!(d.tracker().total(), u64::MAX as u128 + 5);
    assert_eq!(d.get_total_size_bytes(), u64::MAX);
    assert_eq!(d.get_total_size_human(), human_readable_size(u64::MAX));
}

#[test]
fn a_probe_fails_on_a_status_that_is_neither_success_nor_throttling() {
    let mut d = downloader(&["http://x/a.bin"], 1);
    for status in [304u16, 404, 500] {
        let step = d.get_file_size("http://x/a.bin", answer(status, Some("9"), None));
        assert_eq!(
            step,
            ProbeStep::Failed(DownloadError::ReqwestError(RequestFailure::Status(status)))
        );
        assert_eq!(d.get_total_size_bytes(), 0);
        assert_eq!(d.tracker().counted_size("http://x/a.bin"), None);
    }
}

#[test]
fn a_probe_with_an_unreadable_length_returns_an_unknown_size() {
    let mut d = downloader(&["http://x/a.bin"], 1);
    for text in ["abc", "-1", "é"] {
        let step = d.get_file_size("http://x/a.bin", answer(200, Some(text), None));
        assert_eq!(step, ProbeStep::Sized(0));
        assert_eq!(d.get_total_size_bytes(), 0);
    }
    let step = d.get_file_size("http://x/a.bin", answer(200, Some("9"), None));
    assert_eq!(step, ProbeStep::Sized(9));
    assert_eq!(d.get_total_size_bytes(), 9);
}

#[test]
fn a_file_name_holds_no_slash() {
    let samples = [
        "http://x/a.bin", "http://x/a/b/c", "http://x/a%2Fb", "http://x/a\\b", "http://x", "nope",
        "data:text/plain,a/b", "file:///etc/hosts", "x:/a/b/", "http://x/a/../b/./c?d/e#f/g",
    ];
    let d = downloader(&samples, 1);
    for (i, url) in samples.iter().enumerate() {
        let name = Downloader::get_filename(url);
        assert!(!name.contains('/'), "{:?} -> {:?}", url, name);
        let job = d.job(i).unwrap();
        assert_eq!(job.filename(), name);
        assert_eq!(job.dest_path(), format!("/tmp/out/{}", name));
    }
}

#[test]
fn equal_urls_give_equal_paths() {
    let d = downloader(&["http://x/a.bin", "http://x/a.bin"], 1);
    let first = d.job(0).unwrap();
    let second = d.job(1).unwrap();
    assert_eq!(first.dest_path(), second.dest_path());
    assert_eq!(first.temp_path(), second.temp_path());
}

fn pair(name: &str, value: &str) -> (String, String) {
    (name.to_string(), value.to_string())
}

#[test]
fn shellexpand_full_replaces_variables_and_the_tilde() {
    let vars = vec![pair("A", "x"), pair("B", "y z"), pair("A", "second")];
    assert_eq!(
        Downloader::shellexpand_full("~/$A/${B}", Some("/home/u"), &vars),
        "/home/u/x/y z"
    );
    assert_eq!(Downloader::shellexpand_full("a/$NOPE/b", Some("/home/u"), &vars), "a//b");
    assert_eq!(Downloader::shellexpand_full("${NOPE}$A", None, &vars), "x");
    assert_eq!(Downloader::shellexpand_full("~/dl", None, &vars), "~/dl");
    assert_eq!(Downloader::shellexpand_full("~", Some("/h"), &vars), "/h");
    assert_eq!(Downloader::shellexpand_full("plain", Some("/h"), &vars), "plain");
    assert_eq!(Downloader::shellexpand_full("", Some("/h"), &vars), "");
    assert_eq!(Downloader::shellexpand_full("~other/x", Some("/h"), &vars), "~other/x");
}

#[test]
fn shellexpand_full_agrees_with_shellexpand() {
    let vars = vec![pair("HOME", "/h"), pair("T", "~"), pair("E", ""), pair("P", "a/b")];
    let lookup = |name: &str| -> Option<String> {
        Some(
            vars.iter()
                .find(|(n, _)| n == name)
                .map(|(_, v)| v.clone())
                .unwrap_or_default(),
        )
    };
    let inputs = [
        "", "~", "~/x", "$P", "${P}/c", "$T/x", "x$E", "$", "${", "${}", "$5", "a$P$Qb", "${P:-d}",
        "${Q:-d}", "~/${P}/$HOME", "no vars", "$$P",
    ];
    for input in inputs {
        for home in [Some("/home/u"), None] {
            let expected =
                shellexpand::full_with_context_no_errors(input, || home, lookup).to_string();
            assert_eq!(Downloader::shellexpand_full(input, home, &vars), expected, "{:?}", input);
        }
    }
}
