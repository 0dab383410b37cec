//! A bounded-concurrency file downloader with resume capability.
//!
//! The library holds the download-orchestration logic: job ordering,
//! the per-file resumable-transfer state machine, the retry/backoff
//! policy, and the progress and statistics aggregation. The I/O shell
//! around it (HTTP transport, filesystem, terminal rendering) lives
//! outside the library and drives these functions.

pub mod cache;
pub mod config;
pub mod downloader;
pub mod error;
pub mod events;
pub mod progress;
pub mod stats;
pub mod transfer;
pub mod utils;

pub use cache::{CacheManager, DownloadCache};
pub use config::Config;
pub use error::DownloadError;
pub use events::{DefaultEventHandler, DownloadEventHandler};
pub use progress::GlobalProgress;
pub use stats::DownloadStats;
