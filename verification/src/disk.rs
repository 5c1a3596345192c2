//! The disk probe: it approximates the block-storage footprint by summing the
//! byte lengths of the regular files at the top level of the configured
//! directory. Subdirectories are not recursed into. The surrounding process
//! lists the directory and hands the listing in as plain values; everything
//! concluded from the listing is verified here.

use vstd::prelude::*;
use crate::config::Configuration;
use crate::errors::{DiskError, DiskErrorView};

verus! {

/// One entry of the configured directory, as the listing reports it.
#[derive(Debug, Clone, PartialEq, Eq)]
pub enum DirEntry {
    /// A regular file and its byte length.
    File { size: u64 },
    /// A subdirectory or other non-regular entry; it does not count.
    Other,
    /// The entry's path could not be resolved; the text is the underlying
    /// error.
    Unresolvable { cause: String },
    /// A regular file whose metadata could not be read.
    MetadataUnreadable { cause: String },
}

/// The mathematical shape of a `DirEntry`.
pub enum DirEntryView {
    File { size: u64 },
    Other,
    Unresolvable { cause: Seq<char> },
    MetadataUnreadable { cause: Seq<char> },
}

impl View for DirEntry {
    type V = DirEntryView;

    open spec fn view(&self) -> DirEntryView {
        match self {
            DirEntry::File { size } => DirEntryView::File { size: *size },
            DirEntry::Other => DirEntryView::Other,
            DirEntry::Unresolvable { cause } => DirEntryView::Unresolvable { cause: cause@ },
            DirEntry::MetadataUnreadable { cause } => DirEntryView::MetadataUnreadable {
                cause: cause@,
            },
        }
    }
}

/// What opening the configured directory for listing produced.
#[derive(Debug, Clone, PartialEq, Eq)]
pub enum DirListing {
    /// The directory could not be opened (missing, permission denied, not a
    /// directory); the text is the underlying error.
    Unreadable { cause: String },
    /// The directory's entries, in listing order.
    Entries(Vec<DirEntry>),
}

/// The mathematical shape of a `DirListing`.
pub enum DirListingView {
    Unreadable { cause: Seq<char> },
    Entries(Seq<DirEntryView>),
}

impl View for DirListing {
    type V = DirListingView;

    open spec fn view(&self) -> DirListingView {
        match self {
            DirListing::Unreadable { cause } => DirListingView::Unreadable { cause: cause@ },
            DirListing::Entries(entries) => DirListingView::Entries(
                entries@.map_values(|e: DirEntry| e@),
            ),
        }
    }
}

/// Total bytes of the regular files among the entries; non-file and faulty
/// entries contribute nothing.
pub open spec fn total_file_size(entries: Seq<DirEntryView>) -> nat
    decreases entries.len(),
{
    if entries.len() == 0 {
        0
    } else {
        total_file_size(entries.drop_last()) + (match entries.last() {
            DirEntryView::File { size } => size as nat,
            _ => 0nat,
        })
    }
}

/// An entry the probe can account for: a regular file with readable metadata,
/// or a non-file entry.
pub open spec fn entry_readable(e: DirEntryView) -> bool {
    e is File || e is Other
}

/// A listing the probe can sum in full: every entry is readable.
pub open spec fn listing_clean(entries: Seq<DirEntryView>) -> bool {
    forall|i: int| 0 <= i < entries.len() ==> entry_readable(#[trigger] entries[i])
}

/// The scan of a listing at `path`: the total size of the regular files,
/// unless some entry cannot be read, in which case the first such entry's
/// error aborts the scan.
pub open spec fn scan_entries(path: Seq<char>, entries: Seq<DirEntryView>) -> Result<
    nat,
    DiskErrorView,
>
    decreases entries.len(),
{
    if entries.len() == 0 {
        Ok(0)
    } else {
        match scan_entries(path, entries.drop_last()) {
            Err(e) => Err(e),
            Ok(t) => match entries.last() {
                DirEntryView::File { size } => Ok(t + size as nat),
                DirEntryView::Other => Ok(t),
                DirEntryView::Unresolvable { cause } => Err(
                    DiskErrorView::EntryUnreadable { path, cause },
                ),
                DirEntryView::MetadataUnreadable { cause } => Err(
                    DiskErrorView::MetadataUnreadable { path, cause },
                ),
            },
        }
    }
}

/// What the disk probe concludes from a listing of the directory at `path`:
/// the footprint in bytes, or the error that aborts the scrape.
pub open spec fn disk_outcome(path: Seq<char>, listing: DirListingView) -> Result<
    nat,
    DiskErrorView,
> {
    match listing {
        DirListingView::Unreadable { cause } => Err(
            DiskErrorView::DirectoryUnreadable { path, cause },
        ),
        DirListingView::Entries(entries) => scan_entries(path, entries),
    }
}

/// Over a prefix the files sum to no more than over the whole listing.
pub proof fn lemma_total_file_size_prefix(entries: Seq<DirEntryView>, i: int)
    requires
        0 <= i <= entries.len(),
    ensures
        total_file_size(entries.subrange(0, i)) <= total_file_size(entries),
    decreases entries.len() - i,
{
    if i == entries.len() {
        assert(entries.subrange(0, i) =~= entries);
    } else {
        lemma_total_file_size_prefix(entries, i + 1);
        assert(entries.subrange(0, i + 1).drop_last() =~= entries.subrange(0, i));
    }
}

/// Law: over a listing of only readable entries the scan succeeds, and its
/// total is exactly the files' summed byte lengths.
pub proof fn lemma_scan_of_clean_listing(path: Seq<char>, entries: Seq<DirEntryView>)
    requires
        listing_clean(entries),
    ensures
        scan_entries(path, entries) == Ok::<nat, DiskErrorView>(total_file_size(entries)),
    decreases entries.len(),
{
    if entries.len() > 0 {
        assert(listing_clean(entries.drop_last())) by {
            assert forall|i: int| 0 <= i < entries.drop_last().len() implies entry_readable(
                #[trigger] entries.drop_last()[i],
            ) by {
                assert(entries.drop_last()[i] == entries[i]);
            }
        }
        lemma_scan_of_clean_listing(path, entries.drop_last());
        assert(entry_readable(entries[entries.len() - 1]));
    }
}

/// The scan succeeds exactly on clean listings.
pub proof fn lemma_scan_success_condition(path: Seq<char>, entries: Seq<DirEntryView>)
    ensures
        scan_entries(path, entries) is Ok <==> listing_clean(entries),
    decreases entries.len(),
{
    if entries.len() == 0 {
    } else {
        lemma_scan_success_condition(path, entries.drop_last());
        assert forall|i: int| 0 <= i < entries.drop_last().len() implies entries.drop_last()[i]
            == entries[i] by {}
        if listing_clean(entries) {
            assert(listing_clean(entries.drop_last()));
            assert(entry_readable(entries[entries.len() - 1]));
        } else {
            if scan_entries(path, entries) is Ok {
                assert(listing_clean(entries.drop_last()));
                assert(entry_readable(entries.last()));
                assert forall|i: int| 0 <= i < entries.len() implies entry_readable(
                    #[trigger] entries[i],
                ) by {
                    if i < entries.len() - 1 {
                        assert(entries[i] == entries.drop_last()[i]);
                    }
                }
            }
        }
    }
}

/// An erring scan stays as it is when the listing is extended: the first
/// unreadable entry decides.
pub proof fn lemma_scan_error_persists(path: Seq<char>, entries: Seq<DirEntryView>, i: int)
    requires
        0 <= i <= entries.len(),
        scan_entries(path, entries.subrange(0, i)) is Err,
    ensures
        scan_entries(path, entries) == scan_entries(path, entries.subrange(0, i)),
    decreases entries.len() - i,
{
    if i == entries.len() {
        assert(entries.subrange(0, i) =~= entries);
    } else {
        assert(entries.subrange(0, i + 1).drop_last() =~= entries.subrange(0, i));
        lemma_scan_error_persists(path, entries, i + 1);
    }
}

/// Law: adding one regular file of `size` bytes raises the files' total by
/// exactly that size.
pub proof fn lemma_total_file_size_add_file(entries: Seq<DirEntryView>, size: u64)
    ensures
        total_file_size(entries.push(DirEntryView::File { size })) == total_file_size(entries)
            + size,
{
    assert(entries.push(DirEntryView::File { size }).drop_last() =~= entries);
}

/// Law: on a listing of only readable entries, a rescan after one more
/// regular file of `size` bytes computes exactly `size` more.
pub proof fn lemma_rescan_after_new_file(
    path: Seq<char>,
    entries: Seq<DirEntryView>,
    size: u64,
)
    requires
        listing_clean(entries),
    ensures
        ({
            let grown = entries.push(DirEntryView::File { size });
            &&& scan_entries(path, entries) == Ok::<nat, DiskErrorView>(total_file_size(entries))
            &&& scan_entries(path, grown) == Ok::<nat, DiskErrorView>(
                total_file_size(entries) + size as nat,
            )
        }),
{
    lemma_scan_of_clean_listing(path, entries);
    assert(entries.push(DirEntryView::File { size }).drop_last() =~= entries);
}

/// The disk probe: the configured directory and the latest computed
/// footprint of its regular files.
#[derive(Debug, Clone)]
pub struct Disk {
    block_storage_size: u64,
    block_storage_path: String,
}

/// The mathematical shape of the disk probe's state.
pub struct DiskView {
    pub size: nat,
    pub path: Seq<char>,
}

impl View for Disk {
    type V = DiskView;

    closed spec fn view(&self) -> DiskView {
        DiskView { size: self.block_storage_size as nat, path: self.block_storage_path@ }
    }
}

impl Default for Disk {
    /// A disk probe with no configured path and a zero footprint.
    fn default() -> (r: Disk)
        ensures
            r@ == (DiskView { size: 0, path: Seq::<char>::empty() }),
    {
        Disk { block_storage_size: 0, block_storage_path: String::new() }
    }
}

impl Disk {
    /// Stores the configured path without touching the filesystem; the
    /// footprint starts at zero.
    pub fn new(configuration: &Configuration) -> (r: Disk)
        ensures
            r@ == (DiskView { size: 0, path: configuration@ }),
    {
        Disk { block_storage_size: 0, block_storage_path: configuration.block_store_path.clone() }
    }

    /// The footprint computed by the latest successful `calculate`, in bytes.
    pub fn block_storage_size(&self) -> (r: u64)
        ensures
            r as nat == self@.size,
    {
        self.block_storage_size
    }

    /// The configured block-storage directory.
    pub fn block_storage_path(&self) -> (r: &String)
        ensures
            r@ == self@.path,
    {
        &self.block_storage_path
    }

    /// Sums the regular files of the listing, stopping at the first entry
    /// that cannot be read.
    fn sum_listing(path: &String, entries: &Vec<DirEntry>) -> (r: Result<u64, DiskError>)
        requires
            total_file_size(entries@.map_values(|e: DirEntry| e@)) <= u64::MAX,
        ensures
            ({
                let out = scan_entries(path@, entries@.map_values(|e: DirEntry| e@));
                &&& r matches Ok(total) ==> out == Ok::<nat, DiskErrorView>(total as nat)
                &&& r matches Err(e) ==> out matches Err(oe) && e@ == oe
                &&& r is Ok <==> out is Ok
            }),
    {
        let ghost eview = entries@.map_values(|e: DirEntry| e@);
        let mut total: u64 = 0;
        let mut i: usize = 0;
        while i < entries.len()
            invariant
                0 <= i <= entries.len(),
                eview == entries@.map_values(|e: DirEntry| e@),
                eview.len() == entries@.len(),
                total_file_size(eview) <= u64::MAX,
                total as nat == total_file_size(eview.subrange(0, i as int)),
                scan_entries(path@, eview.subrange(0, i as int)) == Ok::<nat, DiskErrorView>(
                    total as nat,
                ),
            decreases entries.len() - i,
        {
            proof {
                assert(eview[i as int] == entries@[i as int]@);
                assert(eview.subrange(0, i + 1 as int).drop_last() =~= eview.subrange(0, i as int));
                assert(eview.subrange(0, i + 1 as int).last() == eview[i as int]);
            }
            match &entries[i] {
                DirEntry::File { size } => {
                    proof {
                        lemma_total_file_size_prefix(eview, i + 1 as int);
                    }
                    total = total + *size;
                },
                DirEntry::Other => {},
                DirEntry::Unresolvable { cause } => {
                    proof {
                        lemma_scan_error_persists(path@, eview, i + 1 as int);
                    }
                    return Err(
                        DiskError::EntryUnreadable { path: path.clone(), cause: cause.clone() },
                    );
                },
                DirEntry::MetadataUnreadable { cause } => {
                    proof {
                        lemma_scan_error_persists(path@, eview, i + 1 as int);
                    }
                    return Err(
                        DiskError::MetadataUnreadable { path: path.clone(), cause: cause.clone() },
                    );
                },
            }
            i = i + 1;
        }
        proof {
            assert(eview.subrange(0, entries@.len() as int) =~= eview);
        }
        Ok(total)
    }

    /// Recomputes the footprint from a fresh listing of the configured
    /// directory: on success the summed size of the listing's regular files
    /// replaces the prior value; on any failure the probe is left untouched
    /// and the first failing entry's error is returned.
    pub fn calculate(&mut self, listing: DirListing) -> (r: Result<(), DiskError>)
        requires
            listing@ matches DirListingView::Entries(entries) ==> total_file_size(entries)
                <= u64::MAX,
        ensures
            ({
                let out = disk_outcome(old(self)@.path, listing@);
                &&& r is Ok <==> out is Ok
                &&& out matches Ok(total) ==> final(self)@ == (DiskView {
                    size: total,
                    path: old(self)@.path,
                })
                &&& out matches Err(e) ==> *final(self) == *old(self) && (r matches Err(re)
                    && re@ == e)
            }),
    {
        match listing {
            DirListing::Unreadable { cause } => Err(
                DiskError::DirectoryUnreadable {
                    path: self.block_storage_path.clone(),
                    cause,
                },
            ),
            DirListing::Entries(entries) => {
                match Self::sum_listing(&self.block_storage_path, &entries) {
                    Ok(total) => {
                        self.block_storage_size = total;
                        Ok(())
                    },
                    Err(e) => Err(e),
                }
            },
        }
    }
}

} // verus!
