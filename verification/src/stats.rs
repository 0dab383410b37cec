//! Statistics recorder: counters for successes, failures and retries,
//! used for final summary reporting.

use vstd::math::max;
use vstd::prelude::*;

verus! {

/// Aggregate counters for one download run. Timestamps are kept as
/// whole seconds; the caller supplies clock readings, so that every
/// derived value here is a pure function of its inputs.
pub struct DownloadStats {
    /// Clock reading (in seconds) at the start of the run.
    pub start_time: u64,
    /// Clock reading at the end of the run, once it has finished.
    pub end_time: Option<u64>,
    /// Bytes transferred by successful downloads.
    pub total_bytes: u64,
    /// Number of jobs that finished successfully.
    pub successful_downloads: usize,
    /// Number of jobs that ended in a terminal error.
    pub failed_downloads: usize,
    /// Number of retry attempts made across all jobs.
    pub retry_count: usize,
    /// Last computed average transfer speed, in bytes per second.
    pub average_speed: u64,
}

impl Default for DownloadStats {
    /// Fresh statistics: every counter zero, no end time recorded.
    fn default() -> (stats: DownloadStats)
        ensures
            stats.start_time == 0,
            stats.end_time is None,
            stats.total_bytes == 0,
            stats.successful_downloads == 0,
            stats.failed_downloads == 0,
            stats.retry_count == 0,
            stats.average_speed == 0,
    {
        DownloadStats {
            start_time: 0,
            end_time: None,
            total_bytes: 0,
            successful_downloads: 0,
            failed_downloads: 0,
            retry_count: 0,
            average_speed: 0,
        }
    }
}

impl DownloadStats {
    /// Fresh statistics whose run began at the given clock reading.
    pub fn new(start_time: u64) -> (stats: DownloadStats)
        ensures
            stats.start_time == start_time,
            stats.end_time is None,
            stats.total_bytes == 0,
            stats.successful_downloads == 0,
            stats.failed_downloads == 0,
            stats.retry_count == 0,
            stats.average_speed == 0,
    {
        DownloadStats {
            start_time,
            end_time: None,
            total_bytes: 0,
            successful_downloads: 0,
            failed_downloads: 0,
            retry_count: 0,
            average_speed: 0,
        }
    }

    /// One job succeeded after transferring `bytes` bytes: count it and
    /// add its bytes to the running total. Both counters saturate at
    /// their maximum rather than wrap.
    pub fn record_success(&mut self, bytes: u64)
        ensures
            final(self).successful_downloads
                == old(self).successful_downloads.saturating_add(1),
            final(self).total_bytes == old(self).total_bytes.saturating_add(bytes),
            final(self).failed_downloads == old(self).failed_downloads,
            final(self).retry_count == old(self).retry_count,
            final(self).start_time == old(self).start_time,
            final(self).end_time == old(self).end_time,
            final(self).average_speed == old(self).average_speed,
            old(self).successful_downloads <= final(self).successful_downloads,
            old(self).total_bytes <= final(self).total_bytes,
    {
        self.successful_downloads = self.successful_downloads.saturating_add(1);
        self.total_bytes = self.total_bytes.saturating_add(bytes);
    }

    /// One job ended in a terminal error: count it.
    pub fn record_failure(&mut self)
        ensures
            final(self).failed_downloads == old(self).failed_downloads.saturating_add(1),
            final(self).successful_downloads == old(self).successful_downloads,
            final(self).total_bytes == old(self).total_bytes,
            final(self).retry_count == old(self).retry_count,
            final(self).start_time == old(self).start_time,
            final(self).end_time == old(self).end_time,
            final(self).average_speed == old(self).average_speed,
            old(self).failed_downloads <= final(self).failed_downloads,
    {
        self.failed_downloads = self.failed_downloads.saturating_add(1);
    }

    /// One retry attempt was made: count it.
    pub fn record_retry(&mut self)
        ensures
            final(self).retry_count == old(self).retry_count.saturating_add(1),
            final(self).successful_downloads == old(self).successful_downloads,
            final(self).failed_downloads == old(self).failed_downloads,
            final(self).total_bytes == old(self).total_bytes,
            final(self).start_time == old(self).start_time,
            final(self).end_time == old(self).end_time,
            final(self).average_speed == old(self).average_speed,
            old(self).retry_count <= final(self).retry_count,
    {
        self.retry_count = self.retry_count.saturating_add(1);
    }

    /// Recompute the average speed from a clock reading taken now:
    /// bytes transferred divided by elapsed seconds, with the elapsed
    /// time floored at one second so the division is always defined.
    /// A clock reading from before the start of the run is ignored.
    pub fn update_speed(&mut self, now: u64)
        ensures
            now >= old(self).start_time ==> final(self).average_speed == (old(self).total_bytes
                / max((now - old(self).start_time) as int, 1) as u64),
            now < old(self).start_time ==> final(self).average_speed
                == old(self).average_speed,
            final(self).successful_downloads == old(self).successful_downloads,
            final(self).failed_downloads == old(self).failed_downloads,
            final(self).total_bytes == old(self).total_bytes,
            final(self).retry_count == old(self).retry_count,
            final(self).start_time == old(self).start_time,
            final(self).end_time == old(self).end_time,
    {
        if now >= self.start_time {
            let elapsed = now - self.start_time;
            let seconds = if elapsed < 1 { 1 } else { elapsed };
            self.average_speed = self.total_bytes / seconds;
        }
    }
}

} // verus!
