//! Full scrapes through `System`.

use maintenance::config::Configuration;
use maintenance::disk::{DirEntry, DirListing};
use maintenance::errors::{DiskError, MetricsError};
use maintenance::query::QueryOutcome;
use maintenance::system::{Metrics, ScrapeInputs, System};

fn answer(text: &str) -> QueryOutcome {
    QueryOutcome::Answer(text.to_string())
}

fn good_inputs(listing: DirListing) -> ScrapeInputs {
    ScrapeInputs {
        disk_listing: listing,
        cpu_frequency: answer("2400 MHz"),
        cpu_stats: answer("ctx switches: 5"),
        cpu_time: answer("user: 10s"),
        memory: answer("memory: 1024 total"),
        swap: answer("swap: 2048 total"),
    }
}

fn store_system(path: &str) -> System {
    System::new(&Configuration { block_store_path: path.to_string() })
}

#[test]
fn successful_scrape_returns_a_fully_populated_snapshot() {
    let system = store_system("blocks");
    let listing = DirListing::Entries(vec![
        DirEntry::File { size: 10 },
        DirEntry::File { size: 20 },
        DirEntry::Other,
    ]);
    let snapshot = system.scrape_metrics(good_inputs(listing)).unwrap();
    assert_eq!(snapshot.disk().block_storage_size(), 30);
    assert_eq!(snapshot.disk().block_storage_path().as_str(), "blocks");
    assert!(!snapshot.cpu().load().frequency().is_empty());
    assert!(!snapshot.cpu().load().stats().is_empty());
    assert!(!snapshot.cpu().load().time().is_empty());
    assert!(!snapshot.memory().memory().is_empty());
    assert!(!snapshot.memory().swap().is_empty());
}

#[test]
fn scrape_on_unreadable_path_fails_with_directory_unreadable() {
    let system = store_system("missing");
    let r = system.scrape_metrics(good_inputs(DirListing::Unreadable {
        cause: "No such file or directory".to_string(),
    }));
    assert_eq!(
        r.unwrap_err(),
        MetricsError::Disk(DiskError::DirectoryUnreadable {
            path: "missing".to_string(),
            cause: "No such file or directory".to_string(),
        })
    );
}

#[test]
fn disk_failure_short_circuits_the_other_probes() {
    let system = store_system("blocks");
    let inputs = ScrapeInputs {
        disk_listing: DirListing::Unreadable { cause: "gone".to_string() },
        cpu_frequency: QueryOutcome::Refused("also broken".to_string()),
        cpu_stats: answer("stats"),
        cpu_time: answer("time"),
        memory: answer("memory"),
        swap: answer("swap"),
    };
    let r = system.scrape_metrics(inputs);
    assert_eq!(
        r.unwrap_err(),
        MetricsError::Disk(DiskError::DirectoryUnreadable {
            path: "blocks".to_string(),
            cause: "gone".to_string(),
        })
    );
}

#[test]
fn failed_os_query_aborts_the_scrape() {
    let system = store_system("blocks");
    let mut inputs = good_inputs(DirListing::Entries(vec![DirEntry::File { size: 1 }]));
    inputs.cpu_time = QueryOutcome::Refused("unsupported".to_string());
    let r = system.scrape_metrics(inputs);
    assert_eq!(
        r.unwrap_err(),
        MetricsError::OsQueryError {
            metric: "cpu time".to_string(),
            cause: "unsupported".to_string(),
        }
    );
}

#[test]
fn concurrent_scrapes_do_not_contaminate_each_other() {
    let system = store_system("blocks");
    let inputs_a = good_inputs(DirListing::Entries(vec![
        DirEntry::File { size: 10 },
        DirEntry::File { size: 20 },
    ]));
    let inputs_b = good_inputs(DirListing::Entries(vec![DirEntry::File { size: 5 }]));

    // two scrapes of the same system, in flight together: each snapshot sees
    // only its own listing
    let a = system.scrape_metrics(inputs_a);
    let b = system.scrape_metrics(inputs_b);
    let a = a.unwrap();
    let b = b.unwrap();
    assert_eq!(a.disk().block_storage_size(), 30);
    assert_eq!(b.disk().block_storage_size(), 5);
}

#[test]
fn every_scrape_starts_from_a_fresh_snapshot() {
    let system = store_system("blocks");
    let first = system
        .scrape_metrics(good_inputs(DirListing::Entries(vec![DirEntry::File { size: 42 }])))
        .unwrap();
    let second = system
        .scrape_metrics(good_inputs(DirListing::Entries(vec![])))
        .unwrap();
    assert_eq!(first.disk().block_storage_size(), 42);
    assert_eq!(second.disk().block_storage_size(), 0);
}

#[test]
fn metrics_new_seeds_the_disk_path_only() {
    let metrics = Metrics::new(&Configuration { block_store_path: "blocks".to_string() });
    assert_eq!(metrics.disk().block_storage_path().as_str(), "blocks");
    assert_eq!(metrics.disk().block_storage_size(), 0);
    assert!(metrics.cpu().load().frequency().is_empty());
    assert!(metrics.memory().memory().is_empty());
}

#[test]
fn metrics_calculate_runs_disk_then_cpu_then_memory() {
    let mut metrics = Metrics::new(&Configuration { block_store_path: "blocks".to_string() });
    let mut inputs = good_inputs(DirListing::Entries(vec![DirEntry::File { size: 3 }]));
    inputs.memory = QueryOutcome::Refused("late failure".to_string());
    let r = metrics.calculate(inputs);
    assert_eq!(
        r,
        Err(MetricsError::OsQueryError {
            metric: "memory".to_string(),
            cause: "late failure".to_string(),
        })
    );
    // the probes before the failing one had already run...
    assert_eq!(metrics.disk().block_storage_size(), 3);
    assert_eq!(metrics.cpu().load().frequency().as_str(), "2400 MHz");
    // ...and the failing one left its probe untouched
    assert!(metrics.memory().memory().is_empty());
}
