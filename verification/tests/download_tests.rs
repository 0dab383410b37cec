use multhreadown::cache::{CacheManager, DownloadCache};
use multhreadown::config::{
    backoff_delay, ChecksumAlgorithm, Config, ConfigError, IntegrityCheck, RetryConfig,
};
use multhreadown::downloader::{
    derive_file_name, first_error, get_expected_md5, plan_job_order, record_outcomes,
    validate_job_url, WorkerPool,
};
use multhreadown::error::DownloadError;
use multhreadown::events::{DefaultEventHandler, DownloadEventHandler};
use multhreadown::progress::GlobalProgress;
use multhreadown::stats::DownloadStats;
use multhreadown::transfer::{
    TransferAction, TransferEvent, TransferMachine, TransferOutcome, TransferPhase,
};
use multhreadown::utils::{calculate_md5, u64_to_dec_string};

use std::sync::atomic::{AtomicUsize, Ordering};

fn retry_cfg(max_retries: u32) -> RetryConfig {
    RetryConfig {
        max_retries,
        initial_delay: 1,
        max_delay: 30,
        backoff_factor: 2,
    }
}

#[test]
fn test_download_stats() {
    let mut stats = DownloadStats::default();

    stats.record_success(1024);
    assert_eq!(stats.successful_downloads, 1);
    assert_eq!(stats.total_bytes, 1024);

    stats.record_failure();
    assert_eq!(stats.failed_downloads, 1);

    stats.record_retry();
    assert_eq!(stats.retry_count, 1);
}

#[test]
fn test_update_speed() {
    let mut stats = DownloadStats::new(100);
    stats.record_success(3000);

    stats.update_speed(103);
    assert_eq!(stats.average_speed, 1000);

    // Elapsed time is floored at one second.
    stats.update_speed(100);
    assert_eq!(stats.average_speed, 3000);

    // A clock reading from before the start is ignored.
    stats.update_speed(99);
    assert_eq!(stats.average_speed, 3000);
}

#[test]
fn test_cache_manager() {
    let mut cache_manager = CacheManager::new();

    let cache = DownloadCache {
        url: "https://example.com/test.zip".to_string(),
        file_size: 1024,
        downloaded_size: 1024,
        etag: Some("abc123".to_string()),
        last_modified: Some("Thu, 01 Jan 2024 00:00:00 GMT".to_string()),
        checksum: Some("d41d8cd98f00b204e9800998ecf8427e".to_string()),
    };

    cache_manager.update_cache(cache.url.clone(), cache);
    let saved = cache_manager.get_cache(&"https://example.com/test.zip".to_string());
    assert!(saved.is_some());
    assert_eq!(saved.unwrap().file_size, 1024);
}

#[test]
fn test_cache_update_replaces() {
    let mut cache_manager = CacheManager::new();
    let url = "https://example.com/a".to_string();

    let entry = |size: u64| DownloadCache {
        url: url.clone(),
        file_size: size,
        downloaded_size: 0,
        etag: None,
        last_modified: None,
        checksum: None,
    };

    cache_manager.update_cache(url.clone(), entry(10));
    cache_manager.update_cache(url.clone(), entry(20));

    assert_eq!(cache_manager.entries.len(), 1);
    assert_eq!(cache_manager.get_cache(&url).unwrap().file_size, 20);
}

struct TestEventHandler {
    start_count: AtomicUsize,
    complete_count: AtomicUsize,
}

impl DownloadEventHandler for TestEventHandler {
    fn on_download_start(&self, _url: &str) {
        self.start_count.fetch_add(1, Ordering::SeqCst);
    }

    fn on_download_progress(&self, _url: &str, _downloaded: u64, _total: u64) {}

    fn on_download_complete(&self, _url: &str) {
        self.complete_count.fetch_add(1, Ordering::SeqCst);
    }

    fn on_download_error(&self, _url: &str, _error: &DownloadError) {}
}

#[test]
fn test_event_handler() {
    let handler = TestEventHandler {
        start_count: AtomicUsize::new(0),
        complete_count: AtomicUsize::new(0),
    };

    handler.on_download_start("test.zip");
    assert_eq!(handler.start_count.load(Ordering::SeqCst), 1);

    handler.on_download_complete("test.zip");
    assert_eq!(handler.complete_count.load(Ordering::SeqCst), 1);

    let default_handler = DefaultEventHandler;
    default_handler.on_download_start("test.zip");
    default_handler.on_download_progress("test.zip", 1, 2);
    default_handler.on_download_complete("test.zip");
    default_handler.on_download_error("test.zip", &DownloadError::Other("x".to_string()));
}

#[test]
fn test_invalid_url() {
    let urls = vec!["not-a-url".to_string()];
    let result = validate_job_url(&urls, 0);
    assert!(result.is_err(), "Expected error for invalid URL");
    match result {
        Err(DownloadError::InvalidUrl(m)) => {
            assert_eq!(m, "Invalid URL scheme: not-a-url");
        }
        other => panic!("Unexpected result: {:?}", other.map(|_| ())),
    }
}

#[test]
fn test_validate_job_url() {
    let urls = vec![
        "https://raw.githubusercontent.com/rust-lang/rust/master/README.md".to_string(),
        "http://#".to_string(),
    ];

    assert!(validate_job_url(&urls, 0).is_ok());

    match validate_job_url(&urls, 5) {
        Err(DownloadError::InvalidUrl(m)) => assert_eq!(m, "No URL found for index 5"),
        other => panic!("Unexpected result: {:?}", other.map(|_| ())),
    }

    // Scheme is fine but the URL does not parse.
    match validate_job_url(&urls, 1) {
        Err(DownloadError::InvalidUrl(m)) => assert_eq!(m, "Invalid URL format: http://#"),
        other => panic!("Unexpected result: {:?}", other.map(|_| ())),
    }
}

#[test]
fn test_config_validate() {
    let mut config = Config::default();
    config.urls = vec!["https://example.com/a.zip".to_string()];
    assert!(config.validate().is_ok());

    config.workers = 0;
    match config.validate() {
        Err(ConfigError::InvalidWorkers(n)) => assert_eq!(n, 0),
        other => panic!("Unexpected result: {:?}", other),
    }
    config.workers = 101;
    assert!(matches!(
        config.validate(),
        Err(ConfigError::InvalidWorkers(101))
    ));
    config.workers = 100;
    assert!(config.validate().is_ok());

    config.urls = Vec::new();
    assert!(matches!(config.validate(), Err(ConfigError::NoUrls)));

    config.urls = vec!["ftp://example.com/a".to_string()];
    match config.validate() {
        Err(ConfigError::InvalidUrl(m)) => assert_eq!(m, "ftp://example.com/a"),
        other => panic!("Unexpected result: {:?}", other),
    }

    config.urls = vec!["https://example.com/a".to_string(); 164];
    match config.validate() {
        Err(ConfigError::InvalidUrl(m)) => assert_eq!(m, "too many URLs: 164"),
        other => panic!("Unexpected result: {:?}", other),
    }

    config.urls = vec!["https://example.com/a".to_string()];
    config.download_dir = String::new();
    match config.validate() {
        Err(ConfigError::InvalidDownloadDir(d)) => assert_eq!(d, ""),
        other => panic!("Unexpected result: {:?}", other),
    }
}

#[test]
fn test_config_error_messages() {
    assert_eq!(
        ConfigError::NoUrls.into_description(),
        "No download URLs provided"
    );
    assert_eq!(
        ConfigError::InvalidWorkers(0).into_description(),
        "Invalid number of workers: 0"
    );
    assert_eq!(
        ConfigError::InvalidDownloadDir("x".to_string()).into_description(),
        "Invalid download directory: x"
    );

    match DownloadError::from(ConfigError::NoUrls) {
        DownloadError::ConfigError(m) => assert_eq!(m, "No download URLs provided"),
        other => panic!("Unexpected error: {:?}", other),
    }
}

#[test]
fn test_error_messages() {
    assert_eq!(
        DownloadError::HttpError(3, 500, "Internal Server Error".to_string()).message(),
        "HTTP error for file 3: 500 Internal Server Error"
    );
    assert_eq!(
        DownloadError::NetworkError(0, "connection reset".to_string()).message(),
        "Network error for file 0: connection reset"
    );
    assert_eq!(
        DownloadError::ChecksumMismatch(1, "aa".to_string(), "bb".to_string()).message(),
        "Checksum mismatch for file 1: expected aa, got bb"
    );
    assert_eq!(
        DownloadError::InvalidUrl("not-a-url".to_string()).message(),
        "Invalid URL: not-a-url"
    );
    assert_eq!(
        DownloadError::Io("disk full".to_string()).message(),
        "IO error: disk full"
    );
}

#[test]
fn test_backoff_delays() {
    let cfg = retry_cfg(10);
    assert_eq!(backoff_delay(&cfg, 1), 2);
    assert_eq!(backoff_delay(&cfg, 2), 4);
    assert_eq!(backoff_delay(&cfg, 3), 8);
    assert_eq!(backoff_delay(&cfg, 4), 16);
    // Capped at max_delay from here on.
    assert_eq!(backoff_delay(&cfg, 5), 30);
    assert_eq!(backoff_delay(&cfg, 20), 30);

    // Large exponents saturate at the cap instead of overflowing.
    let wide = RetryConfig {
        max_retries: 200,
        initial_delay: 3,
        max_delay: u64::MAX,
        backoff_factor: 7,
    };
    assert_eq!(backoff_delay(&wide, 100), u64::MAX);
}

#[test]
fn test_is_retryable() {
    assert!(DownloadError::HttpError(0, 500, "err".to_string()).is_retryable());
    assert!(DownloadError::NetworkError(0, "err".to_string()).is_retryable());
    assert!(!DownloadError::ChecksumMismatch(0, "a".to_string(), "b".to_string()).is_retryable());
    assert!(!DownloadError::Io("err".to_string()).is_retryable());
    assert!(!DownloadError::InvalidUrl("err".to_string()).is_retryable());
}

#[test]
fn test_get_expected_md5() {
    assert!(get_expected_md5(0).is_none());
    assert!(get_expected_md5(162).is_none());
}

#[test]
fn test_md5_known_digests() {
    assert_eq!(calculate_md5(&[]), "d41d8cd98f00b204e9800998ecf8427e");
    assert_eq!(calculate_md5(b"abc"), "900150983cd24fb0d6963f7d28e17f72");
}

#[test]
fn test_u64_to_dec_string() {
    assert_eq!(u64_to_dec_string(0), "0");
    assert_eq!(u64_to_dec_string(7), "7");
    assert_eq!(u64_to_dec_string(1234567890), "1234567890");
    assert_eq!(u64_to_dec_string(u64::MAX), "18446744073709551615");
}

#[test]
fn test_derive_file_name() {
    assert_eq!(
        derive_file_name(&"https://example.com/path/file.zip".to_string(), 0),
        "file.zip"
    );
    // URL with an empty last segment falls back to a synthetic name.
    assert_eq!(
        derive_file_name(&"https://example.com/".to_string(), 3),
        "file_3"
    );
    // No slash at all: the whole string is the segment.
    assert_eq!(derive_file_name(&"no-slash".to_string(), 0), "no-slash");
}

#[test]
fn test_worker_pool_bounds() {
    let mut pool = WorkerPool::new(2);
    assert!(pool.try_acquire());
    assert!(pool.try_acquire());
    // The pool is full: a third transfer may not start.
    assert!(!pool.try_acquire());
    assert_eq!(pool.active, 2);

    pool.release();
    assert!(pool.try_acquire());
    assert_eq!(pool.active, 2);

    pool.release();
    pool.release();
    assert_eq!(pool.active, 0);
}

#[test]
fn test_plan_job_order() {
    let order = plan_job_order(3, false);
    assert_eq!(order, vec![0, 1, 2]);

    let mut shuffled = plan_job_order(20, true);
    assert_eq!(shuffled.len(), 20);
    shuffled.sort();
    let expected: Vec<u32> = (0..20).collect();
    assert_eq!(shuffled, expected);
}

#[test]
fn test_resume_transfer() {
    // A destination file holding 100 bytes; the server reports 900
    // bytes remaining, for a total length of 1000.
    let mut machine = TransferMachine::new(0, 100, retry_cfg(3), None);
    assert_eq!(machine.request_range_start(), Some(100));

    let action = machine.step(TransferEvent::Response {
        status: 206,
        status_text: "Partial Content".to_string(),
        content_length: Some(900),
    });
    assert!(matches!(action, TransferAction::ReadChunk));
    assert_eq!(machine.phase, TransferPhase::Streaming);
    assert_eq!(machine.expected_total, Some(1000));

    machine.step(TransferEvent::ChunkWritten { len: 400 });
    machine.step(TransferEvent::ChunkWritten { len: 500 });
    assert_eq!(machine.downloaded, 1000);

    let action = machine.step(TransferEvent::StreamEnded);
    assert!(matches!(action, TransferAction::Finish));
    assert_eq!(machine.phase, TransferPhase::Done);

    match machine.into_outcome() {
        TransferOutcome::Success { bytes_written } => assert_eq!(bytes_written, 900),
        TransferOutcome::Failed { error } => panic!("Unexpected failure: {:?}", error),
    }
}

#[test]
fn test_fresh_transfer_has_no_range() {
    let machine = TransferMachine::new(0, 0, retry_cfg(3), None);
    assert_eq!(machine.request_range_start(), None);
}

#[test]
fn test_retry_exhaustion() {
    // A source that fails every attempt, with a budget of 2 retries:
    // exactly 2 retries happen, each after a strictly longer pause,
    // and the job ends with an HttpError.
    let mut machine = TransferMachine::new(4, 0, retry_cfg(2), None);
    let mut delays = Vec::new();

    loop {
        let action = machine.step(TransferEvent::Response {
            status: 500,
            status_text: "Internal Server Error".to_string(),
            content_length: None,
        });
        match action {
            TransferAction::Sleep { seconds } => {
                delays.push(seconds);
                machine.step(TransferEvent::BackoffElapsed);
            }
            TransferAction::Abort => break,
            other => panic!("Unexpected action: {:?}", action_name(&other)),
        }
    }

    assert_eq!(delays, vec![2, 4]);
    assert!(delays[0] < delays[1]);
    assert_eq!(machine.retries_done, 2);
    assert_eq!(machine.phase, TransferPhase::Failed);
    match machine.into_outcome() {
        TransferOutcome::Failed {
            error: DownloadError::HttpError(index, status, text),
        } => {
            assert_eq!(index, 4);
            assert_eq!(status, 500);
            assert_eq!(text, "Internal Server Error");
        }
        _ => panic!("Expected an HttpError outcome"),
    }
}

fn action_name(action: &TransferAction) -> &'static str {
    match action {
        TransferAction::IssueRequest { .. } => "IssueRequest",
        TransferAction::ReadChunk => "ReadChunk",
        TransferAction::Sleep { .. } => "Sleep",
        TransferAction::ComputeChecksum => "ComputeChecksum",
        TransferAction::Finish => "Finish",
        TransferAction::Abort => "Abort",
    }
}

#[test]
fn test_network_failure_retries_keep_resume_offset() {
    let mut machine = TransferMachine::new(0, 0, retry_cfg(1), None);
    machine.step(TransferEvent::Response {
        status: 200,
        status_text: "OK".to_string(),
        content_length: Some(1000),
    });
    machine.step(TransferEvent::ChunkWritten { len: 300 });

    // The stream breaks mid-body: the retry resumes from byte 300.
    let action = machine.step(TransferEvent::StreamFailed {
        message: "connection reset".to_string(),
    });
    assert!(matches!(action, TransferAction::Sleep { .. }));
    let action = machine.step(TransferEvent::BackoffElapsed);
    match action {
        TransferAction::IssueRequest { range_start } => assert_eq!(range_start, Some(300)),
        other => panic!("Unexpected action: {:?}", action_name(&other)),
    }
}

#[test]
fn test_write_failure_is_terminal() {
    let mut machine = TransferMachine::new(0, 0, retry_cfg(5), None);
    machine.step(TransferEvent::Response {
        status: 200,
        status_text: "OK".to_string(),
        content_length: None,
    });
    let action = machine.step(TransferEvent::WriteFailed {
        message: "disk full".to_string(),
    });
    assert!(matches!(action, TransferAction::Abort));
    assert_eq!(machine.phase, TransferPhase::Failed);
    assert_eq!(machine.retries_done, 0);
}

#[test]
fn test_checksum_mismatch() {
    let expected = "d41d8cd98f00b204e9800998ecf8427e".to_string();
    let mut machine = TransferMachine::new(9, 0, retry_cfg(3), Some(expected.clone()));
    machine.step(TransferEvent::Response {
        status: 200,
        status_text: "OK".to_string(),
        content_length: Some(3),
    });
    machine.step(TransferEvent::ChunkWritten { len: 3 });

    let action = machine.step(TransferEvent::StreamEnded);
    assert!(matches!(action, TransferAction::ComputeChecksum));
    assert_eq!(machine.phase, TransferPhase::Verifying);

    let actual = calculate_md5(b"abc");
    let action = machine.step(TransferEvent::ChecksumComputed { actual });
    assert!(matches!(action, TransferAction::Abort));
    assert_eq!(machine.phase, TransferPhase::Failed);
    // The mismatch is terminal: no retry was spent on it.
    assert_eq!(machine.retries_done, 0);
    match machine.into_outcome() {
        TransferOutcome::Failed {
            error: DownloadError::ChecksumMismatch(index, exp, act),
        } => {
            assert_eq!(index, 9);
            assert_eq!(exp, "d41d8cd98f00b204e9800998ecf8427e");
            assert_eq!(act, "900150983cd24fb0d6963f7d28e17f72");
        }
        _ => panic!("Expected a ChecksumMismatch outcome"),
    }
}

#[test]
fn test_checksum_match_succeeds() {
    let expected = calculate_md5(b"abc");
    let mut machine = TransferMachine::new(0, 0, retry_cfg(3), Some(expected));
    machine.step(TransferEvent::Response {
        status: 200,
        status_text: "OK".to_string(),
        content_length: Some(3),
    });
    machine.step(TransferEvent::ChunkWritten { len: 3 });
    machine.step(TransferEvent::StreamEnded);
    let action = machine.step(TransferEvent::ChecksumComputed {
        actual: calculate_md5(b"abc"),
    });
    assert!(matches!(action, TransferAction::Finish));
    assert_eq!(machine.phase, TransferPhase::Done);
}

#[test]
fn test_zero_byte_download_succeeds() {
    let mut machine = TransferMachine::new(0, 0, retry_cfg(3), None);
    machine.step(TransferEvent::Response {
        status: 200,
        status_text: "OK".to_string(),
        content_length: Some(0),
    });
    let action = machine.step(TransferEvent::StreamEnded);
    assert!(matches!(action, TransferAction::Finish));
    match machine.into_outcome() {
        TransferOutcome::Success { bytes_written } => assert_eq!(bytes_written, 0),
        TransferOutcome::Failed { error } => panic!("Unexpected failure: {:?}", error),
    }
}

#[test]
fn test_progress_counters() {
    let mut progress = GlobalProgress::new(3);
    assert_eq!(progress.completion_percent(), 0);

    progress.complete_file();
    assert_eq!(progress.completed_files, 1);
    assert_eq!(progress.completion_percent(), 33);

    progress.complete_file();
    progress.complete_file();
    assert_eq!(progress.completed_files, 3);
    assert_eq!(progress.completion_percent(), 100);

    // Terminal: further completions change nothing.
    progress.complete_file();
    assert_eq!(progress.completed_files, 3);

    progress.update_progress(500);
    progress.update_progress(250);
    assert_eq!(progress.downloaded_bytes, 750);

    progress.set_total_bytes(1000);
    assert_eq!(progress.total_bytes, 1000);
}

#[test]
fn test_scenario_sequential_run() {
    // Three URLs, one worker, input order: jobs run strictly in input
    // order, every file completes, and the run reports success.
    let urls = vec![
        "https://example.com/a.txt".to_string(),
        "https://example.com/b.txt".to_string(),
        "https://example.com/c.txt".to_string(),
    ];
    let order = plan_job_order(urls.len() as u32, false);
    assert_eq!(order, vec![0, 1, 2]);

    let mut pool = WorkerPool::new(1);
    let mut progress = GlobalProgress::new(urls.len());
    let mut executed = Vec::new();
    let mut outcomes = Vec::new();

    for index in order {
        assert!(pool.try_acquire());
        executed.push(index);

        let mut machine = TransferMachine::new(index, 0, retry_cfg(3), None);
        machine.step(TransferEvent::Response {
            status: 200,
            status_text: "OK".to_string(),
            content_length: Some(10),
        });
        machine.step(TransferEvent::ChunkWritten { len: 10 });
        machine.step(TransferEvent::StreamEnded);
        outcomes.push((index, machine.into_outcome()));

        pool.release();
    }

    assert_eq!(executed, vec![0, 1, 2]);
    record_outcomes(&mut progress, &outcomes);
    assert_eq!(progress.completed_files, 3);
    assert!(first_error(outcomes).is_none());
}

#[test]
fn test_first_error_picks_lowest_index() {
    let outcomes = vec![
        (
            2,
            TransferOutcome::Failed {
                error: DownloadError::HttpError(2, 500, "late".to_string()),
            },
        ),
        (0, TransferOutcome::Success { bytes_written: 10 }),
        (
            1,
            TransferOutcome::Failed {
                error: DownloadError::NetworkError(1, "early".to_string()),
            },
        ),
    ];
    match first_error(outcomes) {
        Some(DownloadError::NetworkError(index, m)) => {
            assert_eq!(index, 1);
            assert_eq!(m, "early");
        }
        other => panic!("Unexpected result: {:?}", other),
    }
}

#[test]
fn test_record_outcomes_counts_successes() {
    let mut progress = GlobalProgress::new(2);
    let outcomes = vec![
        (0, TransferOutcome::Success { bytes_written: 1 }),
        (
            1,
            TransferOutcome::Failed {
                error: DownloadError::Other("boom".to_string()),
            },
        ),
    ];
    record_outcomes(&mut progress, &outcomes);
    assert_eq!(progress.completed_files, 1);
}

#[test]
fn test_integrity_check_lookup() {
    let check = IntegrityCheck {
        enabled: true,
        algorithm: ChecksumAlgorithm::MD5,
        checksums: vec![(
            "https://example.com/a".to_string(),
            "900150983cd24fb0d6963f7d28e17f72".to_string(),
        )],
    };
    assert_eq!(
        check.checksum_for(&"https://example.com/a".to_string()),
        Some(&"900150983cd24fb0d6963f7d28e17f72".to_string())
    );
    assert!(check
        .checksum_for(&"https://example.com/b".to_string())
        .is_none());
}
