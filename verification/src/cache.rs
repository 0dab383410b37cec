//! Resume cache: what is known about each URL's last download, keyed
//! by URL. Loading the cache from disk and persisting it again are
//! the I/O shell's concern; this module holds the lookup and update
//! logic.

use vstd::prelude::*;

verus! {

/// What the cache remembers about one URL.
#[derive(Debug)]
pub struct DownloadCache {
    /// The URL this entry describes.
    pub url: String,
    /// Full size of the file, when the server reported one.
    pub file_size: u64,
    /// How many bytes are already on disk.
    pub downloaded_size: u64,
    /// Validator for conditional requests, when the server sent one.
    pub etag: Option<String>,
    /// Last-modified stamp, when the server sent one.
    pub last_modified: Option<String>,
    /// Registered digest of the content, when one is known.
    pub checksum: Option<String>,
}

/// The cache itself: entries keyed by URL, each URL present at most
/// once.
pub struct CacheManager {
    /// The entries, as (URL key, entry) pairs.
    pub entries: Vec<(String, DownloadCache)>,
}

impl CacheManager {
    /// No two entries share a key.
    pub open spec fn wf(self) -> bool {
        forall|i: int, j: int|
            0 <= i < j < self.entries@.len() ==> self.entries@[i].0@ != self.entries@[j].0@
    }

    /// An empty cache. The I/O shell fills it from disk with
    /// `update_cache`, one entry at a time.
    pub fn new() -> (mgr: CacheManager)
        ensures
            mgr.entries@.len() == 0,
            mgr.wf(),
    {
        CacheManager { entries: Vec::new() }
    }

    /// The entry stored for a URL, if any.
    pub fn get_cache<'a>(&'a self, url: &String) -> (r: Option<&'a DownloadCache>)
        ensures
            match r {
                Some(c) => exists|i: int|
                    #![trigger self.entries@[i]]
                    {
                        &&& 0 <= i < self.entries@.len()
                        &&& self.entries@[i].0@ == url@
                        &&& c == &self.entries@[i].1
                    },
                None => forall|i: int|
                    0 <= i < self.entries@.len() ==> self.entries@[i].0@ != url@,
            },
    {
        let n = self.entries.len();
        let mut i: usize = 0;
        while i < n
            invariant
                i <= n,
                n == self.entries@.len(),
                forall|j: int| 0 <= j < i ==> self.entries@[j].0@ != url@,
            decreases n - i,
        {
            if self.entries[i].0.eq(url) {
                return Some(&self.entries[i].1);
            }
            i += 1;
        }
        None
    }

    /// Store `cache` under `url`: replace the entry already keyed by
    /// that URL, or add one. Keys stay unique either way.
    pub fn update_cache(&mut self, url: String, cache: DownloadCache)
        requires
            old(self).wf(),
        ensures
            final(self).wf(),
            (exists|i: int|
                0 <= i < old(self).entries@.len() && #[trigger] old(self).entries@[i].0@ == url@)
                ==> exists|i: int|
                {
                    &&& 0 <= i < old(self).entries@.len()
                    &&& #[trigger] old(self).entries@[i].0@ == url@
                    &&& final(self).entries@ =~= old(self).entries@.update(i, (url, cache))
                },
            (forall|i: int|
                0 <= i < old(self).entries@.len() ==> #[trigger] old(self).entries@[i].0@ != url@)
                ==> final(self).entries@ =~= old(self).entries@.push((url, cache)),
    {
        let n = self.entries.len();
        let mut i: usize = 0;
        while i < n
            invariant
                i <= n,
                n == self.entries@.len(),
                self == old(self),
                old(self).wf(),
                forall|j: int| 0 <= j < i ==> self.entries@[j].0@ != url@,
            decreases n - i,
        {
            if self.entries[i].0.eq(&url) {
                let ghost key_view = url@;
                let _ = self.entries.remove(i);
                self.entries.insert(i, (url, cache));
                proof {
                    let updated = old(self).entries@.update(i as int, (url, cache));
                    assert(self.entries@ =~= updated);
                    assert(old(self).entries@[i as int].0@ == key_view);
                    assert forall|p: int|
                        0 <= p < self.entries@.len() implies #[trigger] self.entries@[p].0@ == old(
                        self,
                    ).entries@[p].0@ by {
                        if p != i {
                            assert(updated[p] == old(self).entries@[p]);
                        }
                    }
                    assert forall|p: int, q: int|
                        0 <= p < q < self.entries@.len() implies self.entries@[p].0@
                        != self.entries@[q].0@ by {
                        assert(self.entries@[p].0@ == old(self).entries@[p].0@);
                        assert(self.entries@[q].0@ == old(self).entries@[q].0@);
                        assert(old(self).entries@[p].0@ != old(self).entries@[q].0@);
                    }
                    assert(self.wf());
                    assert(0 <= i < old(self).entries@.len() && old(self).entries@[i as int].0@
                        == url@ && self.entries@ =~= old(self).entries@.update(
                        i as int,
                        (url, cache),
                    ));
                }
                return ;
            }
            i += 1;
        }
        self.entries.push((url, cache));
    }
}

} // verus!
