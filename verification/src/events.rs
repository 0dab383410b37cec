//! Event-handler capability: the four callbacks a display or logging
//! layer may register to follow a run. Handlers may be invoked from
//! many concurrent workers; implementations must tolerate that.

use vstd::prelude::*;

use crate::error::DownloadError;

verus! {

/// Callbacks fired at a job's well-defined transitions: `start` when
/// its first request is issued, `progress` after each streamed chunk,
/// `complete` when verification succeeds, `error` on a terminal
/// failure.
pub trait DownloadEventHandler {
    /// The job for `url` issued its first request.
    fn on_download_start(&self, url: &str);

    /// One more chunk was written: `downloaded` of `total` bytes are
    /// on disk (`total` is 0 while the length is unknown).
    fn on_download_progress(&self, url: &str, downloaded: u64, total: u64);

    /// The job for `url` finished successfully.
    fn on_download_complete(&self, url: &str);

    /// The job for `url` ended with a terminal error.
    fn on_download_error(&self, url: &str, error: &DownloadError);
}

/// The default handler: it ignores every event.
pub struct DefaultEventHandler;

impl DownloadEventHandler for DefaultEventHandler {
    fn on_download_start(&self, _url: &str) {
    }

    fn on_download_progress(&self, _url: &str, _downloaded: u64, _total: u64) {
    }

    fn on_download_complete(&self, _url: &str) {
    }

    fn on_download_error(&self, _url: &str, _error: &DownloadError) {
    }
}

} // verus!
