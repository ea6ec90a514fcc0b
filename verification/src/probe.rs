//! The size probe: what a `HEAD` answer says about the length of a file, and
//! what it adds to the aggregate total.

use vstd::prelude::*;
use crate::error::{DownloadError, DownloadErrorView, RequestFailure, RequestFailureView};
use crate::http::{is_success, is_throttled, success, throttled, HttpReply};
use crate::tracker::{AggregateState, AggregateView};

verus! {

/// What to do after one answer to a size probe.
#[derive(Clone, Debug, PartialEq, Eq)]
pub enum ProbeStep {
    /// The server throttles: wait this long, then probe again.
    Retry { after_millis: u64 },
    /// The length of the file in bytes; 0 where the server declares none.
    Sized(u64),
    /// The probe failed for good.
    Failed(DownloadError),
}

/// The mathematical value of a [`ProbeStep`].
pub ghost enum ProbeStepView {
    Retry { after_millis: u64 },
    Sized(u64),
    Failed(DownloadErrorView),
}

impl View for ProbeStep {
    type V = ProbeStepView;

    open spec fn view(&self) -> ProbeStepView {
        match self {
            ProbeStep::Retry { after_millis } => ProbeStepView::Retry {
                after_millis: *after_millis,
            },
            ProbeStep::Sized(n) => ProbeStepView::Sized(*n),
            ProbeStep::Failed(e) => ProbeStepView::Failed(e@),
        }
    }
}

/// The shortest pause before a throttled probe is repeated, in milliseconds.
pub const PROBE_PAUSE_MIN: u64 = 500;

/// The bound below which the pause before a throttled probe is repeated
/// stays, in milliseconds.
pub const PROBE_PAUSE_END: u64 = 1500;

/// What an answer to a size probe leads to, where `jitter` is the pause to
/// take if the server throttles: a throttled probe is repeated, a successful
/// one gives the length, and a request without an answer or with any other
/// status fails the probe.
pub open spec fn probe_verdict(reply: HttpReply, jitter: u64) -> ProbeStepView {
    match reply {
        HttpReply::Failure(detail) => ProbeStepView::Failed(
            DownloadErrorView::ReqwestError(RequestFailureView::Transport(detail@)),
        ),
        HttpReply::Response(resp) => if is_throttled(resp.status) {
            ProbeStepView::Retry { after_millis: jitter }
        } else if is_success(resp.status) {
            ProbeStepView::Sized(resp.probed_length())
        } else {
            ProbeStepView::Failed(
                DownloadErrorView::ReqwestError(RequestFailureView::Status(resp.status)),
            )
        },
    }
}

/// The aggregate after an answer to a size probe for `url`: a successful
/// answer is counted, any other leaves the aggregate as it is.
pub open spec fn probe_effect(tracker: AggregateView, url: Seq<char>, reply: HttpReply)
    -> AggregateView {
    match reply {
        HttpReply::Response(resp) if is_success(resp.status) => tracker.record(
            url,
            resp.probed_length(),
        ),
        _ => tracker,
    }
}

/// Decides on one answer to a size probe for `url`, and counts the length
/// that a successful answer declares, once per URL. `jitter` is the pause to
/// take if the server throttles.
pub fn probe(tracker: &mut AggregateState, url: &str, reply: HttpReply, jitter: u64) -> (out:
    ProbeStep)
    ensures
        out@ == probe_verdict(reply, jitter),
        final(tracker)@ == probe_effect(old(tracker)@, url@, reply),
{
    match reply {
        HttpReply::Failure(detail) => ProbeStep::Failed(
            DownloadError::ReqwestError(RequestFailure::Transport(detail)),
        ),
        HttpReply::Response(resp) => {
            if throttled(resp.status) {
                ProbeStep::Retry { after_millis: jitter }
            } else if success(resp.status) {
                let length = resp.probed_length();
                tracker.count_once(url, length);
                ProbeStep::Sized(length)
            } else {
                ProbeStep::Failed(DownloadError::ReqwestError(RequestFailure::Status(resp.status)))
            }
        },
    }
}

} // verus!
