use multifiledownloader::display::{
    pacing_pause, progress_line, status_line, summary, SUMMARY_LIMIT,
};
use multifiledownloader::job::Outcome;

#[test]
fn the_status_line_of_a_skipped_job() {
    assert_eq!(
        status_line(Outcome::Skipped, "a.bin", "500 B"),
        "\x1b[93mExists\x1b[0m a.bin ✔"
    );
}

#[test]
fn the_status_line_of_a_resumed_job() {
    assert_eq!(
        status_line(Outcome::Resumed, "a.bin", "500 B"),
        "\x1b[96mDone\x1b[0m \x1b[92m500 B\x1b[0m  a.bin ✔"
    );
}

#[test]
fn the_status_line_of_a_downloaded_job() {
    assert_eq!(
        status_line(Outcome::Downloaded, "a.bin", "1 MB"),
        "\x1b[32mOk\x1b[0m \x1b[32m1 MB\x1b[0m  a.bin ✔"
    );
}

#[test]
fn the_status_line_of_a_failed_job() {
    assert_eq!(
        status_line(Outcome::Failed, "a.bin", "IO error: disk full"),
        "\x1b[91mFailed\x1b[0m a.bin IO error: disk full"
    );
}

#[test]
fn the_progress_line() {
    assert_eq!(progress_line("a.bin", "500 B"), "\x1b[93m500 B\x1b[0m  a.bin");
}

#[test]
fn the_pause_after_a_job_lies_in_its_range() {
    for _ in 0..200 {
        let p = pacing_pause(Outcome::Skipped).unwrap();
        assert!(200 <= p && p < 500);
        let p = pacing_pause(Outcome::Resumed).unwrap();
        assert!(500 <= p && p < 1000);
        let p = pacing_pause(Outcome::Downloaded).unwrap();
        assert!(500 <= p && p < 1000);
        assert_eq!(pacing_pause(Outcome::Failed), None);
    }
}

#[test]
fn the_summary_cuts_a_long_list_short() {
    let list = |n: usize| -> Vec<String> { (0..n).map(|i| format!("u{}", i)).collect() };
    assert_eq!(SUMMARY_LIMIT, 3);
    assert_eq!(summary(&list(0)), "[; 0]");
    assert_eq!(summary(&list(1)), "[u0; 1]");
    assert_eq!(summary(&list(2)), "[u0, u1; 2]");
    assert_eq!(summary(&list(3)), "[u0, u1, u2; 3]");
    assert_eq!(summary(&list(4)), "[u0, u1, u2...; 4]");
    assert_eq!(summary(&list(12)), "[u0, u1, u2...; 12]");
}
