//! Decision core of a concurrent, resumable multi-file downloader.
//!
//! The crate holds no I/O. A caller performs the requests and file operations
//! that the functions here ask for and reports back what happened:
//!
//! - [`downloader::Downloader::run`] decides which job starts when, so that
//!   the destination is prepared first and never more jobs are active than
//!   there are workers;
//! - [`downloader::Downloader::download_file`] takes one job through the
//!   existence check, the size probe, the resume check, the ranged fetch and
//!   the final rename;
//! - [`tracker::AggregateState`] keeps the byte total of the batch, to which
//!   every URL contributes at most once.
//!
//! What holds of these together is proved in [`laws`].

pub mod cli;
pub mod decimal;
pub mod display;
pub mod downloader;
pub mod error;
pub mod http;
pub mod job;
pub mod laws;
pub mod probe;
pub mod schedule;
pub mod text;
pub mod tracker;
pub mod trusted;
pub mod urls;
pub mod variables;

pub use crate::cli::{Cli, Shell};
pub use crate::downloader::{human_readable_size, Downloader};
pub use crate::error::DownloadError;
