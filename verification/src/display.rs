//! The texts that a run shows: the status line of a job and the summary of a
//! list of URLs.

use vstd::prelude::*;
use crate::decimal::{decimal, decimal_digits};
use crate::job::Outcome;
use crate::text::{joined, texts};
use crate::trusted::random_between;

verus! {

/// The status line of a job that ended with `outcome`, for the file
/// `filename`, where `detail` is the size of the file as a text, or, for a
/// failed job, the message of its error.
pub open spec fn status_text(outcome: Outcome, filename: Seq<char>, detail: Seq<char>) -> Seq<
    char,
> {
    match outcome {
        Outcome::Skipped => "\x1b[93mExists\x1b[0m "@ + filename + " ✔"@,
        Outcome::Resumed => "\x1b[96mDone\x1b[0m \x1b[92m"@ + detail + "\x1b[0m  "@ + filename
            + " ✔"@,
        Outcome::Downloaded => "\x1b[32mOk\x1b[0m \x1b[32m"@ + detail + "\x1b[0m  "@ + filename
            + " ✔"@,
        Outcome::Failed => "\x1b[91mFailed\x1b[0m "@ + filename + " "@ + detail,
    }
}

/// The status line of a job that ended with `outcome`, see [`status_text`].
pub fn status_line(outcome: Outcome, filename: &str, detail: &str) -> (out: String)
    ensures
        out@ == status_text(outcome, filename@, detail@),
{
    match outcome {
        Outcome::Skipped => {
            let mut out = joined("\x1b[93mExists\x1b[0m ", filename);
            out.append(" ✔");
            out
        },
        Outcome::Resumed => {
            let mut out = joined("\x1b[96mDone\x1b[0m \x1b[92m", detail);
            out.append("\x1b[0m  ");
            out.append(filename);
            out.append(" ✔");
            out
        },
        Outcome::Downloaded => {
            let mut out = joined("\x1b[32mOk\x1b[0m \x1b[32m", detail);
            out.append("\x1b[0m  ");
            out.append(filename);
            out.append(" ✔");
            out
        },
        Outcome::Failed => {
            let mut out = joined("\x1b[91mFailed\x1b[0m ", filename);
            out.append(" ");
            out.append(detail);
            out
        },
    }
}

/// The line that a job shows while it downloads `filename`, where `size` is
/// the size of the file as a text.
pub open spec fn progress_text(filename: Seq<char>, size: Seq<char>) -> Seq<char> {
    "\x1b[93m"@ + size + "\x1b[0m  "@ + filename
}

/// The line that a job shows while it downloads, see [`progress_text`].
pub fn progress_line(filename: &str, size: &str) -> (out: String)
    ensures
        out@ == progress_text(filename@, size@),
{
    let mut out = joined("\x1b[93m", size);
    out.append("\x1b[0m  ");
    out.append(filename);
    out
}

/// The bounds of the pause, in milliseconds, that the display takes after a
/// job ended with `outcome`, so that its status line can be read: the first
/// is the shortest pause, the second is above every pause. A failed job is
/// not waited for.
pub open spec fn pacing_bounds(outcome: Outcome) -> Option<(u64, u64)> {
    match outcome {
        Outcome::Skipped => Some((200u64, 500u64)),
        Outcome::Resumed => Some((500u64, 1000u64)),
        Outcome::Downloaded => Some((500u64, 1000u64)),
        Outcome::Failed => None,
    }
}

/// Draws the pause, in milliseconds, that the display takes after a job ended
/// with `outcome`: 200 to 499 after a skipped job, 500 to 999 after a file
/// was put in place, none after a failure.
pub fn pacing_pause(outcome: Outcome) -> (out: Option<u64>)
    ensures
        match pacing_bounds(outcome) {
            Some((low, high)) => out matches Some(millis) && low <= millis < high,
            None => out is None,
        },
{
    match outcome {
        Outcome::Skipped => Some(random_between(200, 500)),
        Outcome::Resumed => Some(random_between(500, 1000)),
        Outcome::Downloaded => Some(random_between(500, 1000)),
        Outcome::Failed => None,
    }
}

/// How many URLs a summary shows before it cuts the list short.
pub const SUMMARY_LIMIT: usize = 3;

/// The first `count` entries of `entries`, separated by `, `.
pub open spec fn comma_list(entries: Seq<Seq<char>>, count: nat) -> Seq<char>
    decreases count,
{
    if count == 0 || count > entries.len() {
        Seq::empty()
    } else if count == 1 {
        entries[0]
    } else {
        comma_list(entries, (count - 1) as nat) + ", "@ + entries[count - 1]
    }
}

/// The summary of a list of URLs: in square brackets the first three,
/// separated by `, `, then `...` if there are more, then `; ` and how many
/// there are.
pub open spec fn summary_text(urls: Seq<Seq<char>>) -> Seq<char> {
    let shown = if urls.len() > SUMMARY_LIMIT {
        SUMMARY_LIMIT as nat
    } else {
        urls.len()
    };
    let more = if urls.len() > shown {
        "..."@
    } else {
        Seq::<char>::empty()
    };
    "["@ + comma_list(urls, shown) + more + "; "@ + decimal_digits(urls.len()) + "]"@
}

/// The summary of a list of URLs, see [`summary_text`].
pub fn summary(urls: &Vec<String>) -> (out: String)
    ensures
        out@ == summary_text(texts(urls@)),
{
    let n = urls.len();
    let shown = if n > SUMMARY_LIMIT {
        SUMMARY_LIMIT
    } else {
        n
    };
    let ghost all = texts(urls@);
    let mut list = String::new();
    let mut i: usize = 0;
    assert(list@ =~= comma_list(all, 0));
    while i < shown
        invariant
            i <= shown <= n,
            n == urls@.len(),
            all == texts(urls@),
            list@ == comma_list(all, i as nat),
        decreases shown - i,
    {
        if i > 0 {
            list.append(", ");
        }
        list.append(urls[i].as_str());
        i += 1;
        proof {
            assert(all[i - 1] == urls@[i - 1]@);
            if i == 1 {
                assert(list@ =~= all[0]);
            }
        }
    }
    let mut out = joined("[", list.as_str());
    if n > shown {
        out.append("...");
    } else {
        assert(out@ + Seq::<char>::empty() =~= out@);
    }
    out.append("; ");
    let count = decimal(n as u64);
    out.append(count.as_str());
    out.append("]");
    out
}

} // verus!
