//! Progress aggregator: run-wide counters of files and bytes, shared
//! by every worker and read by the display layer.

use vstd::prelude::*;

verus! {

/// Run-wide progress counters. `completed_files` never exceeds
/// `total_files`; once every file is complete the aggregate is
/// terminal and stops changing. Byte and file counters only ever
/// grow.
pub struct GlobalProgress {
    /// How many files the run fetches; fixed at construction.
    pub total_files: usize,
    /// How many files have finished successfully.
    pub completed_files: usize,
    /// Total bytes the run expects, when known; 0 when unknown.
    pub total_bytes: u64,
    /// Bytes durably written so far, across all workers.
    pub downloaded_bytes: u64,
}

impl GlobalProgress {
    /// The aggregate never counts more completed files than it has
    /// files.
    pub open spec fn wf(self) -> bool {
        self.completed_files <= self.total_files
    }

    /// Fresh progress for a run over `total_files` files.
    pub fn new(total_files: usize) -> (p: GlobalProgress)
        ensures
            p.total_files == total_files,
            p.completed_files == 0,
            p.total_bytes == 0,
            p.downloaded_bytes == 0,
            p.wf(),
    {
        GlobalProgress { total_files, completed_files: 0, total_bytes: 0, downloaded_bytes: 0 }
    }

    /// Count `bytes` more bytes as durably written. The byte counter
    /// saturates rather than wraps, so it never decreases.
    pub fn update_progress(&mut self, bytes: u64)
        ensures
            final(self).downloaded_bytes == old(self).downloaded_bytes.saturating_add(bytes),
            old(self).downloaded_bytes <= final(self).downloaded_bytes,
            final(self).completed_files == old(self).completed_files,
            final(self).total_files == old(self).total_files,
            final(self).total_bytes == old(self).total_bytes,
            old(self).wf() ==> final(self).wf(),
    {
        self.downloaded_bytes = self.downloaded_bytes.saturating_add(bytes);
    }

    /// Count one more file as complete. Once every file is complete
    /// the aggregate is terminal: further calls change nothing.
    pub fn complete_file(&mut self)
        ensures
            old(self).completed_files < old(self).total_files ==> final(self).completed_files
                == old(self).completed_files + 1,
            old(self).completed_files >= old(self).total_files ==> final(self).completed_files
                == old(self).completed_files,
            old(self).completed_files <= final(self).completed_files,
            final(self).total_files == old(self).total_files,
            final(self).total_bytes == old(self).total_bytes,
            final(self).downloaded_bytes == old(self).downloaded_bytes,
            old(self).wf() ==> final(self).wf(),
    {
        if self.completed_files < self.total_files {
            self.completed_files = self.completed_files + 1;
        }
    }

    /// Record the run's expected total byte count, once known.
    pub fn set_total_bytes(&mut self, bytes: u64)
        ensures
            final(self).total_bytes == bytes,
            final(self).completed_files == old(self).completed_files,
            final(self).total_files == old(self).total_files,
            final(self).downloaded_bytes == old(self).downloaded_bytes,
            old(self).wf() ==> final(self).wf(),
    {
        self.total_bytes = bytes;
    }

    /// Whole-run completion as a percentage, rounded down; 0 when the
    /// run has no files at all.
    pub fn completion_percent(&self) -> (p: u32)
        requires
            self.wf(),
        ensures
            self.total_files > 0 ==> p == self.completed_files as int * 100
                / self.total_files as int,
            self.total_files == 0 ==> p == 0,
            p <= 100,
    {
        if self.total_files == 0 {
            0
        } else {
            let p = (self.completed_files as u128 * 100 / self.total_files as u128) as u32;
            proof {
                assert(self.completed_files as int * 100 / self.total_files as int <= 100)
                    by (nonlinear_arith)
                    requires
                        0 < self.total_files,
                        self.completed_files <= self.total_files,
                ;
            }
            p
        }
    }
}

} // verus!
