//! The disk probe over directory listings.

use maintenance::config::Configuration;
use maintenance::disk::{DirEntry, DirListing, Disk};
use maintenance::errors::DiskError;

fn store_config() -> Configuration {
    Configuration { block_store_path: "blocks".to_string() }
}

#[test]
fn new_stores_the_path_without_touching_the_filesystem() {
    let disk = Disk::new(&store_config());
    assert_eq!(disk.block_storage_path().as_str(), "blocks");
    assert_eq!(disk.block_storage_size(), 0);
}

#[test]
fn default_disk_is_empty() {
    let disk = Disk::default();
    assert_eq!(disk.block_storage_path().as_str(), "");
    assert_eq!(disk.block_storage_size(), 0);
}

#[test]
fn empty_directory_sums_to_zero() {
    let mut disk = Disk::new(&store_config());
    let r = disk.calculate(DirListing::Entries(vec![]));
    assert!(r.is_ok());
    assert_eq!(disk.block_storage_size(), 0);
}

#[test]
fn two_files_and_a_subdirectory_sum_to_their_sizes() {
    let mut disk = Disk::new(&store_config());
    let listing = DirListing::Entries(vec![
        DirEntry::File { size: 10 },
        DirEntry::File { size: 20 },
        DirEntry::Other,
    ]);
    let r = disk.calculate(listing);
    assert!(r.is_ok());
    assert_eq!(disk.block_storage_size(), 30);
}

#[test]
fn adding_a_file_grows_the_total_by_its_size() {
    let mut disk = Disk::new(&store_config());
    let before = vec![DirEntry::File { size: 10 }, DirEntry::File { size: 20 }];
    let mut after = before.clone();
    after.push(DirEntry::File { size: 7 });

    disk.calculate(DirListing::Entries(before)).unwrap();
    let first = disk.block_storage_size();
    disk.calculate(DirListing::Entries(after)).unwrap();
    let second = disk.block_storage_size();

    assert_eq!(first, 30);
    assert_eq!(second, first + 7);
}

#[test]
fn unreadable_directory_fails_with_directory_unreadable() {
    let mut disk = Disk::new(&store_config());
    let r = disk.calculate(DirListing::Unreadable { cause: "no such directory".to_string() });
    assert_eq!(
        r,
        Err(DiskError::DirectoryUnreadable {
            path: "blocks".to_string(),
            cause: "no such directory".to_string(),
        })
    );
    assert_eq!(disk.block_storage_size(), 0);
}

#[test]
fn unresolvable_entry_fails_with_entry_unreadable() {
    let mut disk = Disk::new(&store_config());
    let listing = DirListing::Entries(vec![
        DirEntry::File { size: 10 },
        DirEntry::Unresolvable { cause: "broken link".to_string() },
    ]);
    let r = disk.calculate(listing);
    assert_eq!(
        r,
        Err(DiskError::EntryUnreadable {
            path: "blocks".to_string(),
            cause: "broken link".to_string(),
        })
    );
}

#[test]
fn unreadable_metadata_fails_with_metadata_unreadable() {
    let mut disk = Disk::new(&store_config());
    let listing = DirListing::Entries(vec![
        DirEntry::MetadataUnreadable { cause: "permission denied".to_string() },
    ]);
    let r = disk.calculate(listing);
    assert_eq!(
        r,
        Err(DiskError::MetadataUnreadable {
            path: "blocks".to_string(),
            cause: "permission denied".to_string(),
        })
    );
}

#[test]
fn first_unreadable_entry_decides_the_error() {
    let mut disk = Disk::new(&store_config());
    let listing = DirListing::Entries(vec![
        DirEntry::File { size: 1 },
        DirEntry::Unresolvable { cause: "first".to_string() },
        DirEntry::MetadataUnreadable { cause: "second".to_string() },
    ]);
    let r = disk.calculate(listing);
    assert_eq!(
        r,
        Err(DiskError::EntryUnreadable { path: "blocks".to_string(), cause: "first".to_string() })
    );
}

#[test]
fn failed_calculation_keeps_the_prior_footprint() {
    let mut disk = Disk::new(&store_config());
    disk.calculate(DirListing::Entries(vec![DirEntry::File { size: 30 }])).unwrap();
    assert_eq!(disk.block_storage_size(), 30);

    let r = disk.calculate(DirListing::Entries(vec![
        DirEntry::File { size: 99 },
        DirEntry::Unresolvable { cause: "gone".to_string() },
    ]));
    assert!(r.is_err());
    assert_eq!(disk.block_storage_size(), 30);
    assert_eq!(disk.block_storage_path().as_str(), "blocks");
}
