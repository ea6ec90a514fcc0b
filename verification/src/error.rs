//! What can go wrong while a batch is downloaded.

use vstd::prelude::*;
use crate::decimal::{decimal, decimal_digits};
use crate::text::joined;

verus! {

/// Why an HTTP request did not give a usable answer.
#[derive(Clone, Debug, PartialEq, Eq)]
pub enum RequestFailure {
    /// The server answered with this status code, which is an error.
    Status(u16),
    /// No answer was received; the text says why.
    Transport(String),
}

/// The mathematical value of a [`RequestFailure`].
pub ghost enum RequestFailureView {
    Status(u16),
    Transport(Seq<char>),
}

impl View for RequestFailure {
    type V = RequestFailureView;

    open spec fn view(&self) -> RequestFailureView {
        match self {
            RequestFailure::Status(code) => RequestFailureView::Status(*code),
            RequestFailure::Transport(detail) => RequestFailureView::Transport(detail@),
        }
    }
}

/// An error of the downloader.
#[derive(Clone, Debug, PartialEq, Eq)]
pub enum DownloadError {
    /// A URL could not be parsed.
    UrlParseError(String),
    /// An HTTP request failed.
    ReqwestError(RequestFailure),
    /// A file could not be read, written or renamed.
    IoError(String),
    /// The destination directory could not be created.
    DestDirError(String),
    /// A file is in the way and cannot be resumed.
    FileExistsError(String),
    /// A URL has a form that cannot be downloaded.
    InvalidUrlError(String),
    /// The progress display could not be set up.
    IndicatifError(String),
}

/// The mathematical value of a [`DownloadError`].
pub ghost enum DownloadErrorView {
    UrlParseError(Seq<char>),
    ReqwestError(RequestFailureView),
    IoError(Seq<char>),
    DestDirError(Seq<char>),
    FileExistsError(Seq<char>),
    InvalidUrlError(Seq<char>),
    IndicatifError(Seq<char>),
}

impl View for DownloadError {
    type V = DownloadErrorView;

    open spec fn view(&self) -> DownloadErrorView {
        match self {
            DownloadError::UrlParseError(d) => DownloadErrorView::UrlParseError(d@),
            DownloadError::ReqwestError(f) => DownloadErrorView::ReqwestError(f@),
            DownloadError::IoError(d) => DownloadErrorView::IoError(d@),
            DownloadError::DestDirError(d) => DownloadErrorView::DestDirError(d@),
            DownloadError::FileExistsError(d) => DownloadErrorView::FileExistsError(d@),
            DownloadError::InvalidUrlError(d) => DownloadErrorView::InvalidUrlError(d@),
            DownloadError::IndicatifError(d) => DownloadErrorView::IndicatifError(d@),
        }
    }
}

impl RequestFailureView {
    /// The text that describes the failure.
    pub open spec fn message(self) -> Seq<char> {
        match self {
            RequestFailureView::Status(code) => "status "@ + decimal_digits(code as nat),
            RequestFailureView::Transport(detail) => detail,
        }
    }
}

impl DownloadErrorView {
    /// The text that describes the error: what kind it is, then its cause.
    pub open spec fn message(self) -> Seq<char> {
        match self {
            DownloadErrorView::UrlParseError(d) => "Failed to parse URL: "@ + d,
            DownloadErrorView::ReqwestError(f) => "HTTP request failed: "@ + f.message(),
            DownloadErrorView::IoError(d) => "IO error: "@ + d,
            DownloadErrorView::DestDirError(d) => "Failed to create destination directory: "@
                + d,
            DownloadErrorView::FileExistsError(d) => "File already exists and cannot be resumed: "@
                + d,
            DownloadErrorView::InvalidUrlError(d) => "Invalid URL format: "@ + d,
            DownloadErrorView::IndicatifError(d) => "Indicatif error: "@ + d,
        }
    }
}

impl RequestFailure {
    /// The text that describes the failure.
    pub fn message(&self) -> (out: String)
        ensures
            out@ == self@.message(),
    {
        match self {
            RequestFailure::Status(code) => {
                let digits = decimal(*code as u64);
                joined("status ", digits.as_str())
            },
            RequestFailure::Transport(detail) => detail.clone(),
        }
    }
}

impl DownloadError {
    /// The text that describes the error: what kind it is, then its cause.
    pub fn message(&self) -> (out: String)
        ensures
            out@ == self@.message(),
    {
        match self {
            DownloadError::UrlParseError(d) => joined("Failed to parse URL: ", d.as_str()),
            DownloadError::ReqwestError(f) => {
                let cause = f.message();
                joined("HTTP request failed: ", cause.as_str())
            },
            DownloadError::IoError(d) => joined("IO error: ", d.as_str()),
            DownloadError::DestDirError(d) => joined(
                "Failed to create destination directory: ",
                d.as_str(),
            ),
            DownloadError::FileExistsError(d) => joined(
                "File already exists and cannot be resumed: ",
                d.as_str(),
            ),
            DownloadError::InvalidUrlError(d) => joined("Invalid URL format: ", d.as_str()),
            DownloadError::IndicatifError(d) => joined("Indicatif error: ", d.as_str()),
        }
    }
}

} // verus!
