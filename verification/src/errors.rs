//! The errors a scrape can end in. Every probe error aborts the whole scrape:
//! no metric is ever reported as a stale or default value disguised as fresh.

use vstd::prelude::*;

verus! {

/// A filesystem-level failure of the disk probe. Each variant carries the
/// configured block-storage path and the underlying error's text, so the
/// caller can log them.
#[derive(Debug, Clone, PartialEq, Eq)]
pub enum DiskError {
    /// The configured directory could not be opened for listing (missing,
    /// permission denied, or not a directory).
    DirectoryUnreadable { path: String, cause: String },
    /// A directory entry's path could not be resolved.
    EntryUnreadable { path: String, cause: String },
    /// A regular file's metadata could not be read.
    MetadataUnreadable { path: String, cause: String },
}

/// The mathematical shape of a `DiskError`: the same variants over character
/// sequences.
pub enum DiskErrorView {
    DirectoryUnreadable { path: Seq<char>, cause: Seq<char> },
    EntryUnreadable { path: Seq<char>, cause: Seq<char> },
    MetadataUnreadable { path: Seq<char>, cause: Seq<char> },
}

impl View for DiskError {
    type V = DiskErrorView;

    open spec fn view(&self) -> DiskErrorView {
        match self {
            DiskError::DirectoryUnreadable { path, cause } => DiskErrorView::DirectoryUnreadable {
                path: path@,
                cause: cause@,
            },
            DiskError::EntryUnreadable { path, cause } => DiskErrorView::EntryUnreadable {
                path: path@,
                cause: cause@,
            },
            DiskError::MetadataUnreadable { path, cause } => DiskErrorView::MetadataUnreadable {
                path: path@,
                cause: cause@,
            },
        }
    }
}

/// Why a scrape failed: the host OS could not answer a cpu or memory query,
/// or the disk probe failed at the filesystem.
#[derive(Debug, Clone, PartialEq, Eq)]
pub enum MetricsError {
    /// The host operating system refused or could not answer the query for
    /// the named metric; the cause is the underlying error's text.
    OsQueryError { metric: String, cause: String },
    /// The disk probe failed at the filesystem.
    Disk(DiskError),
}

/// The mathematical shape of a `MetricsError`.
pub enum MetricsErrorView {
    OsQueryError { metric: Seq<char>, cause: Seq<char> },
    Disk(DiskErrorView),
}

impl View for MetricsError {
    type V = MetricsErrorView;

    open spec fn view(&self) -> MetricsErrorView {
        match self {
            MetricsError::OsQueryError { metric, cause } => MetricsErrorView::OsQueryError {
                metric: metric@,
                cause: cause@,
            },
            MetricsError::Disk(e) => MetricsErrorView::Disk(e@),
        }
    }
}

} // verus!
