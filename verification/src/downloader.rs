//! Download orchestration: the bounded worker pool, the dispatch
//! order, per-job URL checks and file naming, and the collection of
//! every job's outcome into the run's overall result.
//!
//! The I/O shell owns the actual concurrency: it holds one
//! [`WorkerPool`] slot per in-flight transfer, drives each job's
//! [`crate::transfer::TransferMachine`], and hands the finished
//! outcomes back to [`first_error`].

use rand::seq::SliceRandom;
use vstd::math::min;
use vstd::prelude::*;
use vstd::string::*;

use crate::config::{has_supported_scheme, spec_has_supported_scheme};
use crate::error::DownloadError;
use crate::progress::GlobalProgress;
use crate::transfer::TransferOutcome;
use crate::utils::{spec_dec_digits, u64_to_dec_string};

verus! {

/// The bounded pool of worker slots. Dispatching a job means holding
/// one slot for the whole life of its transfer, so the number of
/// in-flight transfers never exceeds the pool's capacity.
pub struct WorkerPool {
    /// How many transfers may run at once.
    pub capacity: usize,
    /// How many slots are held right now.
    pub active: usize,
}

impl WorkerPool {
    /// No more slots are ever held than the pool has.
    pub open spec fn wf(self) -> bool {
        self.active <= self.capacity
    }

    /// An empty pool with room for `capacity` concurrent transfers.
    pub fn new(capacity: usize) -> (pool: WorkerPool)
        ensures
            pool.capacity == capacity,
            pool.active == 0,
            pool.wf(),
    {
        WorkerPool { capacity, active: 0 }
    }

    /// Take a slot if one is free. Acquiring never pushes the pool
    /// past its capacity; a full pool refuses, and the caller waits.
    pub fn try_acquire(&mut self) -> (acquired: bool)
        requires
            old(self).wf(),
        ensures
            final(self).capacity == old(self).capacity,
            acquired == (old(self).active < old(self).capacity),
            acquired ==> final(self).active == old(self).active + 1,
            !acquired ==> final(self).active == old(self).active,
            final(self).wf(),
    {
        if self.active < self.capacity {
            self.active = self.active + 1;
            true
        } else {
            false
        }
    }

    /// Give a slot back once a transfer has finished, whatever its
    /// outcome.
    pub fn release(&mut self)
        requires
            old(self).active > 0,
        ensures
            final(self).capacity == old(self).capacity,
            final(self).active == old(self).active - 1,
            old(self).wf() ==> final(self).wf(),
    {
        self.active = self.active - 1;
    }
}

/// Law (bounded concurrency): at any point, a well-formed pool has at
/// most `capacity` slots held, so at most that many transfers are
/// streaming at once; `try_acquire` and `release` both keep the pool
/// well-formed.
pub proof fn lemma_pool_bounded(pool: WorkerPool)
    requires
        pool.wf(),
    ensures
        pool.active <= pool.capacity,
{
}

/// Relies on rand's `SliceRandom::shuffle`: whatever permutation the
/// generator picks, the slice afterwards holds exactly the elements
/// it held before.
#[verifier::external_body]
fn shuffle_indices(indices: &mut Vec<u32>)
    ensures
        final(indices)@.to_multiset() == old(indices)@.to_multiset(),
        final(indices)@.len() == old(indices)@.len(),
{
    indices.as_mut_slice().shuffle(&mut rand::rng());
}

/// The order jobs are dispatched in: the indices `0..n`, in input
/// order, or uniformly shuffled when `random_order` asks for it. The
/// order never changes which jobs run: it is always a permutation of
/// the input order.
pub fn plan_job_order(n: u32, random_order: bool) -> (order: Vec<u32>)
    ensures
        order@.len() == n,
        order@.to_multiset() == Seq::new(n as nat, |i: int| i as u32).to_multiset(),
        !random_order ==> order@ == Seq::new(n as nat, |i: int| i as u32),
        forall|j: int| 0 <= j < order@.len() ==> order@[j] < n,
{
    broadcast use vstd::seq_lib::group_to_multiset_ensures;

    let ghost identity = Seq::new(n as nat, |i: int| i as u32);
    let mut order: Vec<u32> = Vec::new();
    let mut i: u32 = 0;
    while i < n
        invariant
            i <= n,
            order@ =~= Seq::new(i as nat, |j: int| j as u32),
        decreases n - i,
    {
        order.push(i);
        proof {
            assert(order@ =~= Seq::new((i + 1) as nat, |j: int| j as u32));
        }
        i += 1;
    }
    proof {
        assert(order@ =~= identity);
    }
    if random_order {
        shuffle_indices(&mut order);
        proof {
            assert forall|j: int| 0 <= j < order@.len() implies order@[j] < n by {
                assert(order@.to_multiset().contains(order@[j]));
                assert(identity.to_multiset().contains(order@[j]));
                assert(identity.contains(order@[j]));
                let k = choose|k: int| 0 <= k < identity.len() && identity[k] == order@[j];
                assert(identity[k] == k as u32);
            }
        }
    }
    order
}

/// Whether a string parses as an absolute URL.
pub uninterp spec fn spec_url_parses(url: Seq<char>) -> bool;

/// Relies on `url::Url::parse`: whether a string parses depends on the
/// string alone.
#[verifier::external_body]
fn url_parse_ok(url: &str) -> (r: bool)
    ensures
        r == spec_url_parses(url@),
{
    url::Url::parse(url).is_ok()
}

/// Check that job `file_index` names a fetchable URL: the index must
/// have a URL, the URL must carry a supported scheme, and it must
/// parse. Each rejection says which check failed and for what input.
pub fn validate_job_url(urls: &Vec<String>, file_index: u32) -> (r: Result<(), DownloadError>)
    ensures
        r is Ok <==> (file_index < urls@.len() && spec_has_supported_scheme(
            urls@[file_index as int]@,
        ) && spec_url_parses(urls@[file_index as int]@)),
        file_index >= urls@.len() ==> (r matches Err(e) && e matches DownloadError::InvalidUrl(m)
            && m@ == "No URL found for index "@ + spec_dec_digits(file_index as nat)),
        file_index < urls@.len() && !spec_has_supported_scheme(urls@[file_index as int]@) ==> (
        r matches Err(e) && e matches DownloadError::InvalidUrl(m) && m@
            == "Invalid URL scheme: "@ + urls@[file_index as int]@),
        file_index < urls@.len() && spec_has_supported_scheme(urls@[file_index as int]@)
            && !spec_url_parses(urls@[file_index as int]@) ==> (r matches Err(e) && e matches
            DownloadError::InvalidUrl(m) && m@ == "Invalid URL format: "@
            + urls@[file_index as int]@),
{
    if (file_index as usize) >= urls.len() {
        let mut m = "No URL found for index ".to_owned();
        let digits = u64_to_dec_string(file_index as u64);
        m.append(digits.as_str());
        return Err(DownloadError::InvalidUrl(m));
    }
    let url = &urls[file_index as usize];
    if !has_supported_scheme(url.as_str()) {
        let mut m = "Invalid URL scheme: ".to_owned();
        m.append(url.as_str());
        return Err(DownloadError::InvalidUrl(m));
    }
    if !url_parse_ok(url.as_str()) {
        let mut m = "Invalid URL format: ".to_owned();
        m.append(url.as_str());
        return Err(DownloadError::InvalidUrl(m));
    }
    Ok(())
}

/// Where a URL's last path segment begins: the index right after the
/// last '/', or 0 when the URL has no '/' at all.
pub open spec fn spec_name_start(url: Seq<char>) -> int
    decreases url.len(),
{
    if url.len() == 0 {
        0
    } else if url.last() == '/' {
        url.len() as int
    } else {
        spec_name_start(url.drop_last())
    }
}

/// The last path segment never starts past the URL's end.
pub proof fn lemma_name_start_in_range(url: Seq<char>)
    ensures
        0 <= spec_name_start(url) <= url.len(),
    decreases url.len(),
{
    if url.len() > 0 && url.last() != '/' {
        lemma_name_start_in_range(url.drop_last());
    }
}

/// The destination file name for a job: the URL's last path segment,
/// or, when that segment is empty, a synthetic name keyed by the job
/// index.
pub fn derive_file_name(url: &String, file_index: u32) -> (name: String)
    ensures
        spec_name_start(url@) < url@.len() ==> name@ == url@.subrange(
            spec_name_start(url@),
            url@.len() as int,
        ),
        spec_name_start(url@) == url@.len() ==> name@ == "file_"@ + spec_dec_digits(
            file_index as nat,
        ),
{
    proof {
        lemma_name_start_in_range(url@);
    }
    let s = url.as_str();
    let len = s.unicode_len();
    let mut cut: usize = 0;
    let mut i: usize = 0;
    while i < len
        invariant
            i <= len,
            len == url@.len(),
            s@ == url@,
            cut <= i,
            cut == spec_name_start(url@.subrange(0, i as int)),
        decreases len - i,
    {
        proof {
            assert(url@.subrange(0, (i + 1) as int).drop_last() =~= url@.subrange(0, i as int));
            assert(url@.subrange(0, (i + 1) as int).last() == url@[i as int]);
        }
        if s.get_char(i) == '/' {
            cut = i + 1;
        }
        i += 1;
    }
    proof {
        assert(url@.subrange(0, len as int) =~= url@);
    }
    if cut < len {
        let segment = s.substring_char(cut, len);
        segment.to_owned()
    } else {
        let mut name = "file_".to_owned();
        let digits = u64_to_dec_string(file_index as u64);
        name.append(digits.as_str());
        name
    }
}

/// The digest registered for a job in the built-in checksum
/// database. No database is wired in, so no job has one; callers
/// supply registered digests through their own configuration.
pub fn get_expected_md5(_file_index: u32) -> (r: Option<String>)
    ensures
        r is None,
{
    None
}

/// How many outcomes report success.
pub open spec fn spec_success_count(outcomes: Seq<(u32, TransferOutcome)>) -> nat
    decreases outcomes.len(),
{
    if outcomes.len() == 0 {
        0
    } else {
        spec_success_count(outcomes.drop_last()) + if outcomes.last().1 is Success {
            1nat
        } else {
            0nat
        }
    }
}

/// Law: when every outcome is a success, the success count is the
/// whole run's job count — so a run with no errors drives
/// `completed_files` all the way to `total_files`.
pub proof fn lemma_all_success_count(outcomes: Seq<(u32, TransferOutcome)>)
    requires
        forall|i: int| 0 <= i < outcomes.len() ==> outcomes[i].1 is Success,
    ensures
        spec_success_count(outcomes) == outcomes.len(),
    decreases outcomes.len(),
{
    if outcomes.len() > 0 {
        lemma_all_success_count(outcomes.drop_last());
    }
}

/// Fold every job's outcome into the run-wide progress: one completed
/// file per success, capped — as the aggregate always is — at the
/// run's total.
pub fn record_outcomes(progress: &mut GlobalProgress, outcomes: &Vec<(u32, TransferOutcome)>)
    requires
        old(progress).wf(),
    ensures
        final(progress).completed_files == min(
            old(progress).completed_files + spec_success_count(outcomes@),
            old(progress).total_files as int,
        ),
        old(progress).completed_files <= final(progress).completed_files,
        final(progress).total_files == old(progress).total_files,
        final(progress).total_bytes == old(progress).total_bytes,
        final(progress).downloaded_bytes == old(progress).downloaded_bytes,
        final(progress).wf(),
{
    let n = outcomes.len();
    let mut i: usize = 0;
    while i < n
        invariant
            i <= n,
            n == outcomes@.len(),
            progress.completed_files == min(
                old(progress).completed_files + spec_success_count(outcomes@.subrange(0, i as int)),
                old(progress).total_files as int,
            ),
            old(progress).completed_files <= progress.completed_files,
            progress.total_files == old(progress).total_files,
            progress.total_bytes == old(progress).total_bytes,
            progress.downloaded_bytes == old(progress).downloaded_bytes,
            progress.wf(),
        decreases n - i,
    {
        proof {
            assert(outcomes@.subrange(0, (i + 1) as int).drop_last() =~= outcomes@.subrange(
                0,
                i as int,
            ));
            assert(outcomes@.subrange(0, (i + 1) as int).last() == outcomes@[i as int]);
        }
        match &outcomes[i].1 {
            TransferOutcome::Success { .. } => {
                progress.complete_file();
            },
            TransferOutcome::Failed { .. } => {
            },
        }
        i += 1;
    }
    proof {
        assert(outcomes@.subrange(0, n as int) =~= outcomes@);
    }
}

/// The run's overall result: success when every job succeeded,
/// otherwise the terminal error of the earliest-dispatched failure —
/// the failed job with the lowest index.
pub fn first_error(outcomes: Vec<(u32, TransferOutcome)>) -> (r: Option<DownloadError>)
    ensures
        r is None <==> (forall|i: int|
            0 <= i < outcomes@.len() ==> outcomes@[i].1 is Success),
        r matches Some(e) ==> exists|i: int|
            #![trigger outcomes@[i]]
            {
                &&& 0 <= i < outcomes@.len()
                &&& (outcomes@[i].1 matches TransferOutcome::Failed { error } && error == e)
                &&& (forall|j: int|
                    0 <= j < outcomes@.len() && outcomes@[j].1 is Failed ==> outcomes@[i].0
                        <= outcomes@[j].0)
            },
{
    let n = outcomes.len();
    let mut best: Option<usize> = None;
    let mut i: usize = 0;
    while i < n
        invariant
            i <= n,
            n == outcomes@.len(),
            match best {
                None => forall|j: int| 0 <= j < i ==> outcomes@[j].1 is Success,
                Some(b) => {
                    &&& b < i
                    &&& outcomes@[b as int].1 is Failed
                    &&& forall|j: int|
                        0 <= j < i && outcomes@[j].1 is Failed ==> outcomes@[b as int].0
                            <= outcomes@[j].0
                },
            },
        decreases n - i,
    {
        match &outcomes[i].1 {
            TransferOutcome::Failed { .. } => {
                match best {
                    None => {
                        best = Some(i);
                    },
                    Some(b) => {
                        if outcomes[i].0 < outcomes[b].0 {
                            best = Some(i);
                        }
                    },
                }
            },
            TransferOutcome::Success { .. } => {
            },
        }
        i += 1;
    }
    match best {
        None => None,
        Some(b) => {
            let mut outcomes = outcomes;
            let (_, picked) = outcomes.remove(b);
            match picked {
                TransferOutcome::Failed { error } => Some(error),
                TransferOutcome::Success { .. } => {
                    proof {
                        assert(false);
                    }
                    None
                },
            }
        },
    }
}

} // verus!
