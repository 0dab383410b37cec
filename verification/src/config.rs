//! Run configuration: worker and retry limits, URL list, and the
//! validation rules a configuration must pass before a run starts.

use vstd::arithmetic::mul::lemma_mul_left_inequality;
use vstd::arithmetic::power::{lemma_pow_increases, lemma_pow_strictly_increases, pow};
use vstd::math::min;
use vstd::prelude::*;
use vstd::string::*;

use crate::utils::{spec_dec_digits, str_starts_with, u64_to_dec_string};

verus! {

/// Retry policy: how many retries a job may make and how long each
/// backoff pause lasts. The delay before the k-th retry is
/// `initial_delay * backoff_factor^k` seconds, capped at `max_delay`.
#[derive(Debug, Clone, Copy, PartialEq, Eq, Structural)]
pub struct RetryConfig {
    /// How many retries one job may make after its first attempt.
    pub max_retries: u32,
    /// Base delay in seconds, before the growth factor is applied.
    pub initial_delay: u64,
    /// Upper bound on any single backoff delay, in seconds.
    pub max_delay: u64,
    /// Multiplier applied to the delay for each further attempt.
    pub backoff_factor: u64,
}

impl Default for RetryConfig {
    /// Three retries, starting at one second and doubling each time,
    /// never pausing longer than thirty seconds.
    fn default() -> (cfg: RetryConfig)
        ensures
            cfg == (RetryConfig {
                max_retries: 3,
                initial_delay: 1,
                max_delay: 30,
                backoff_factor: 2,
            }),
    {
        RetryConfig { max_retries: 3, initial_delay: 1, max_delay: 30, backoff_factor: 2 }
    }
}

/// The backoff pause before retry number `attempt` (counted from 1):
/// exponential growth from the initial delay, capped at the maximum.
pub open spec fn spec_backoff_delay(cfg: RetryConfig, attempt: nat) -> int {
    min(cfg.initial_delay as int * pow(cfg.backoff_factor as int, attempt), cfg.max_delay as int)
}

/// Compute the backoff pause in seconds before the given retry.
pub fn backoff_delay(cfg: &RetryConfig, attempt: u32) -> (delay: u64)
    ensures
        delay as int == spec_backoff_delay(*cfg, attempt as nat),
{
    let ghost factor = cfg.backoff_factor as int;
    let mut acc: u64 = cfg.initial_delay;
    let mut i: u32 = 0;
    proof {
        vstd::arithmetic::power::lemma_pow0(factor);
    }
    while i < attempt
        invariant
            i <= attempt,
            acc as int == cfg.initial_delay as int * pow(factor, i as nat),
            factor == cfg.backoff_factor as int,
        decreases attempt - i,
    {
        match acc.checked_mul(cfg.backoff_factor) {
            Some(v) => {
                proof {
                    vstd::arithmetic::power::lemma_pow1(factor);
                    vstd::arithmetic::power::lemma_pow_adds(factor, i as nat, 1nat);
                    assert(cfg.initial_delay as int * (pow(factor, i as nat) * factor) == (
                    cfg.initial_delay as int * pow(factor, i as nat)) * factor)
                        by (nonlinear_arith);
                }
                acc = v;
            },
            None => {
                // The true product no longer fits in 64 bits, so it is
                // certainly at least the cap.
                proof {
                    assert(acc as int * factor > u64::MAX);
                    assert(factor >= 1 && acc >= 1) by (nonlinear_arith)
                        requires
                            acc as int * factor > u64::MAX,
                            acc >= 0,
                            factor >= 0,
                    ;
                    assert(cfg.initial_delay as int >= 1) by (nonlinear_arith)
                        requires
                            acc as int == cfg.initial_delay as int * pow(factor, i as nat),
                            acc >= 1,
                            cfg.initial_delay >= 0,
                    ;
                    lemma_pow_increases(
                        cfg.backoff_factor as nat,
                        (i + 1) as nat,
                        attempt as nat,
                    );
                    lemma_mul_left_inequality(
                        cfg.initial_delay as int,
                        pow(factor, (i + 1) as nat),
                        pow(factor, attempt as nat),
                    );
                    vstd::arithmetic::power::lemma_pow1(factor);
                    vstd::arithmetic::power::lemma_pow_adds(factor, i as nat, 1nat);
                    assert(cfg.initial_delay as int * (pow(factor, i as nat) * factor) == (
                    cfg.initial_delay as int * pow(factor, i as nat)) * factor)
                        by (nonlinear_arith);
                    assert(cfg.initial_delay as int * pow(factor, attempt as nat)
                        >= cfg.max_delay as int);
                }
                return cfg.max_delay;
            },
        }
        i += 1;
    }
    if acc < cfg.max_delay {
        acc
    } else {
        cfg.max_delay
    }
}

/// Law: below the cap, the backoff pause grows strictly with the
/// attempt number, so every further retry waits longer than the one
/// before it.
pub proof fn lemma_backoff_delay_strictly_increases(cfg: RetryConfig, a1: nat, a2: nat)
    requires
        cfg.initial_delay >= 1,
        cfg.backoff_factor >= 2,
        a1 < a2,
        spec_backoff_delay(cfg, a2) < cfg.max_delay,
    ensures
        spec_backoff_delay(cfg, a1) < spec_backoff_delay(cfg, a2),
{
    let factor = cfg.backoff_factor as int;
    lemma_pow_strictly_increases(cfg.backoff_factor as nat, a1, a2);
    lemma_mul_left_inequality(
        cfg.initial_delay as int,
        pow(factor, a1),
        pow(factor, a2),
    );
}

/// Whether a URL begins with one of the two supported schemes.
pub open spec fn spec_has_supported_scheme(url: Seq<char>) -> bool {
    (url.len() >= 7 && url.subrange(0, 7) == "http://"@) || (url.len() >= 8 && url.subrange(0, 8)
        == "https://"@)
}

/// Check a URL's scheme prefix.
pub fn has_supported_scheme(url: &str) -> (r: bool)
    ensures
        r == spec_has_supported_scheme(url@),
{
    proof {
        reveal_strlit("http://");
        reveal_strlit("https://");
    }
    str_starts_with(url, "http://") || str_starts_with(url, "https://")
}

/// A whole run's configuration.
#[derive(Debug, Clone)]
pub struct Config {
    /// Directory every destination file is placed in.
    pub download_dir: String,
    /// Worker-pool capacity: the cap on concurrent transfers.
    pub workers: usize,
    /// Whether to shuffle the dispatch order of the jobs.
    pub random_order: bool,
    /// The files to fetch, one job per URL.
    pub urls: Vec<String>,
    /// Advisory rate limit; not enforced by the core logic.
    pub rate_limit_kb: Option<u64>,
    /// Retry policy shared by every job.
    pub retry: RetryConfig,
    /// Accepted for compatibility; the effective cap is `workers`.
    pub concurrent_downloads: usize,
    /// Connection timeout in seconds, applied by the transport layer.
    pub connection_timeout: u64,
}

impl Default for Config {
    /// Four workers, input-order dispatch, default retry policy and no
    /// URLs yet.
    fn default() -> (cfg: Config)
        ensures
            cfg.download_dir@ == "downloads"@,
            cfg.workers == 4,
            !cfg.random_order,
            cfg.urls@.len() == 0,
            cfg.rate_limit_kb is None,
            cfg.retry == (RetryConfig {
                max_retries: 3,
                initial_delay: 1,
                max_delay: 30,
                backoff_factor: 2,
            }),
            cfg.concurrent_downloads == 4,
            cfg.connection_timeout == 30,
    {
        Config {
            download_dir: "downloads".to_owned(),
            workers: 4,
            random_order: false,
            urls: Vec::new(),
            rate_limit_kb: None,
            retry: RetryConfig::default(),
            concurrent_downloads: 4,
            connection_timeout: 30,
        }
    }
}

/// Why a configuration was rejected.
#[derive(Debug)]
pub enum ConfigError {
    /// The download directory is unusable; carries its path.
    InvalidDownloadDir(String),
    /// The worker count is outside 1..=100; carries the count.
    InvalidWorkers(usize),
    /// The URL list is empty.
    NoUrls,
    /// A URL is unusable; carries the URL or a description.
    InvalidUrl(String),
}

/// The description `ConfigError::into_description` renders.
pub open spec fn spec_config_error_description(err: ConfigError) -> Seq<char> {
    match err {
        ConfigError::InvalidDownloadDir(d) => "Invalid download directory: "@ + d@,
        ConfigError::InvalidWorkers(n) => "Invalid number of workers: "@ + spec_dec_digits(
            n as nat,
        ),
        ConfigError::NoUrls => "No download URLs provided"@,
        ConfigError::InvalidUrl(u) => "Invalid URL format: "@ + u@,
    }
}

impl ConfigError {
    /// Spec-level view of the description this error renders to.
    pub open spec fn describe_spec(self) -> Seq<char> {
        spec_config_error_description(self)
    }

    /// Render the rejection as a sentence.
    pub fn into_description(self) -> (s: String)
        ensures
            s@ == spec_config_error_description(self),
    {
        match self {
            ConfigError::InvalidDownloadDir(d) => {
                let mut s = "Invalid download directory: ".to_owned();
                s.append(d.as_str());
                s
            },
            ConfigError::InvalidWorkers(n) => {
                let mut s = "Invalid number of workers: ".to_owned();
                let digits = u64_to_dec_string(n as u64);
                s.append(digits.as_str());
                s
            },
            ConfigError::NoUrls => "No download URLs provided".to_owned(),
            ConfigError::InvalidUrl(u) => {
                let mut s = "Invalid URL format: ".to_owned();
                s.append(u.as_str());
                s
            },
        }
    }
}

impl Config {
    /// The download directory names something.
    pub open spec fn dir_ok(self) -> bool {
        self.download_dir@.len() > 0
    }

    /// The worker-pool capacity is within 1..=100.
    pub open spec fn workers_ok(self) -> bool {
        1 <= self.workers <= 100
    }

    /// There is at least one URL to fetch.
    pub open spec fn urls_nonempty(self) -> bool {
        self.urls@.len() > 0
    }

    /// The URL list fits the supported job-index range.
    pub open spec fn url_count_ok(self) -> bool {
        self.urls@.len() <= 163
    }

    /// URL number `i` begins with a supported scheme.
    pub open spec fn url_ok(self, i: int) -> bool {
        spec_has_supported_scheme(self.urls@[i]@)
    }

    /// Every URL begins with a supported scheme.
    pub open spec fn all_urls_ok(self) -> bool {
        forall|i: int| 0 <= i < self.urls@.len() ==> self.url_ok(i)
    }

    /// Everything `validate` checks.
    pub open spec fn is_valid(self) -> bool {
        &&& self.dir_ok()
        &&& self.workers_ok()
        &&& self.urls_nonempty()
        &&& self.url_count_ok()
        &&& self.all_urls_ok()
    }

    /// Reject a configuration a run could not honour. Checks run in a
    /// fixed order, and the first failed check names the error. The
    /// caller is responsible for actually creating the download
    /// directory; only its name is judged here.
    pub fn validate(&self) -> (r: Result<(), ConfigError>)
        ensures
            r is Ok <==> self.is_valid(),
            !self.dir_ok() ==> r == Result::<(), ConfigError>::Err(
                ConfigError::InvalidDownloadDir(self.download_dir),
            ),
            self.dir_ok() && !self.workers_ok() ==> r == Result::<(), ConfigError>::Err(
                ConfigError::InvalidWorkers(self.workers),
            ),
            self.dir_ok() && self.workers_ok() && !self.urls_nonempty() ==> r == Result::<
                (),
                ConfigError,
            >::Err(ConfigError::NoUrls),
            self.dir_ok() && self.workers_ok() && self.urls_nonempty() && !self.url_count_ok()
                ==> (r matches Err(e) && e matches ConfigError::InvalidUrl(m) && m@
                == "too many URLs: "@ + spec_dec_digits(self.urls@.len())),
            self.dir_ok() && self.workers_ok() && self.urls_nonempty() && self.url_count_ok()
                && !self.all_urls_ok() ==> (r matches Err(e) && e matches ConfigError::InvalidUrl(m)
                && exists|i: int|
                {
                    &&& 0 <= i < self.urls@.len()
                    &&& !self.url_ok(i)
                    &&& (forall|j: int| 0 <= j < i ==> self.url_ok(j))
                    &&& m == self.urls@[i]
                }),
    {
        if self.download_dir.as_str().unicode_len() == 0 {
            return Err(ConfigError::InvalidDownloadDir(self.download_dir.clone()));
        }
        if self.workers == 0 || self.workers > 100 {
            return Err(ConfigError::InvalidWorkers(self.workers));
        }
        if self.urls.len() == 0 {
            return Err(ConfigError::NoUrls);
        }
        if self.urls.len() > 163 {
            let mut m = "too many URLs: ".to_owned();
            let digits = u64_to_dec_string(self.urls.len() as u64);
            m.append(digits.as_str());
            return Err(ConfigError::InvalidUrl(m));
        }
        let n = self.urls.len();
        let mut i: usize = 0;
        while i < n
            invariant
                i <= n,
                n == self.urls@.len(),
                self.dir_ok(),
                self.workers_ok(),
                self.urls_nonempty(),
                self.url_count_ok(),
                forall|j: int| 0 <= j < i ==> self.url_ok(j),
            decreases n - i,
        {
            if !has_supported_scheme(self.urls[i].as_str()) {
                let m = self.urls[i].clone();
                proof {
                    assert(!self.url_ok(i as int));
                    assert(!self.all_urls_ok());
                    assert(0 <= i < self.urls@.len() && !self.url_ok(i as int) && (forall|j: int|
                        0 <= j < i ==> self.url_ok(j)) && m == self.urls@[i as int]);
                }
                return Err(ConfigError::InvalidUrl(m));
            }
            i += 1;
        }
        Ok(())
    }
}

/// Which hash algorithm a registered checksum uses.
#[derive(Debug, Clone, Copy, PartialEq, Eq, Structural)]
pub enum ChecksumAlgorithm {
    MD5,
    SHA256,
    SHA512,
}

/// Registered checksums to verify downloads against, keyed by URL.
#[derive(Debug, Clone)]
pub struct IntegrityCheck {
    /// Whether verification is performed at all.
    pub enabled: bool,
    /// The algorithm the registered digests use.
    pub algorithm: ChecksumAlgorithm,
    /// (URL, expected digest) pairs.
    pub checksums: Vec<(String, String)>,
}

impl IntegrityCheck {
    /// The digest registered for a URL: the first pair whose URL reads
    /// the same, if any.
    pub fn checksum_for<'a>(&'a self, url: &String) -> (r: Option<&'a String>)
        ensures
            match r {
                Some(c) => exists|i: int|
                    {
                        &&& 0 <= i < self.checksums@.len()
                        &&& self.checksums@[i].0@ == url@
                        &&& (forall|j: int| 0 <= j < i ==> self.checksums@[j].0@ != url@)
                        &&& c == &self.checksums@[i].1
                    },
                None => forall|i: int|
                    0 <= i < self.checksums@.len() ==> self.checksums@[i].0@ != url@,
            },
    {
        let n = self.checksums.len();
        let mut i: usize = 0;
        while i < n
            invariant
                i <= n,
                n == self.checksums@.len(),
                forall|j: int| 0 <= j < i ==> self.checksums@[j].0@ != url@,
            decreases n - i,
        {
            if self.checksums[i].0.eq(url) {
                proof {
                    assert(0 <= i < self.checksums@.len() && self.checksums@[i as int].0@ == url@
                        && (forall|j: int| 0 <= j < i ==> self.checksums@[j].0@ != url@));
                }
                return Some(&self.checksums[i].1);
            }
            i += 1;
        }
        None
    }
}

/// Name- and size-based selection of which URLs a run should fetch.
#[derive(Debug, Clone)]
pub struct DownloadFilter {
    /// File-name patterns to include.
    pub include_patterns: Vec<String>,
    /// File-name patterns to exclude.
    pub exclude_patterns: Vec<String>,
    /// Smallest acceptable file size in bytes.
    pub min_size: Option<u64>,
    /// Largest acceptable file size in bytes.
    pub max_size: Option<u64>,
}

} // verus!
