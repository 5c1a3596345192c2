//! The entry point of the subsystem: `System` holds the configuration and
//! turns the inputs of one scrape — a directory listing and five host OS
//! query outcomes — into a fully populated `Metrics` snapshot, or into the
//! first error encountered. Probes run in a fixed order, disk first because
//! it is the most failure-prone and most expensive, then cpu, then memory,
//! and the first failure short-circuits the rest.

use vstd::prelude::*;
use crate::config::Configuration;
use crate::cpu::{cpu_outcome, Cpu, LoadView};
use crate::disk::{
    disk_outcome, listing_clean, total_file_size, DirListing, DirListingView, Disk, DiskView,
};
use crate::errors::{DiskErrorView, MetricsError, MetricsErrorView};
use crate::memory::{memory_outcome, Memory, MemoryView};
use crate::query::{query_answered, QueryOutcome, QueryView};

verus! {

/// Everything one scrape consumes: the listing of the configured directory
/// and the outcomes of the five host OS queries, gathered by the surrounding
/// process.
#[derive(Debug, Clone)]
pub struct ScrapeInputs {
    pub disk_listing: DirListing,
    pub cpu_frequency: QueryOutcome,
    pub cpu_stats: QueryOutcome,
    pub cpu_time: QueryOutcome,
    pub memory: QueryOutcome,
    pub swap: QueryOutcome,
}

/// The mathematical shape of one scrape's inputs.
pub struct ScrapeInputsView {
    pub disk_listing: DirListingView,
    pub cpu_frequency: QueryView,
    pub cpu_stats: QueryView,
    pub cpu_time: QueryView,
    pub memory: QueryView,
    pub swap: QueryView,
}

impl View for ScrapeInputs {
    type V = ScrapeInputsView;

    open spec fn view(&self) -> ScrapeInputsView {
        ScrapeInputsView {
            disk_listing: self.disk_listing@,
            cpu_frequency: self.cpu_frequency@,
            cpu_stats: self.cpu_stats@,
            cpu_time: self.cpu_time@,
            memory: self.memory@,
            swap: self.swap@,
        }
    }
}

/// A snapshot of all metrics, created fresh per scrape; either it is fully
/// populated, or the scrape fails and no snapshot reaches the caller.
#[derive(Debug, Clone)]
pub struct Metrics {
    cpu: Cpu,
    disk: Disk,
    memory: Memory,
}

/// The mathematical shape of a snapshot.
pub struct MetricsView {
    pub cpu: LoadView,
    pub disk: DiskView,
    pub memory: MemoryView,
}

impl View for Metrics {
    type V = MetricsView;

    closed spec fn view(&self) -> MetricsView {
        MetricsView { cpu: self.cpu@, disk: self.disk@, memory: self.memory@ }
    }
}

/// Everything a scrape over the directory at `path` concludes from its
/// inputs: the view of the fully populated snapshot, or the first error in
/// probe order (disk, then cpu, then memory).
pub open spec fn scrape_outcome(path: Seq<char>, inputs: ScrapeInputsView) -> Result<
    MetricsView,
    MetricsErrorView,
> {
    match disk_outcome(path, inputs.disk_listing) {
        Err(e) => Err(MetricsErrorView::Disk(e)),
        Ok(size) => match cpu_outcome(inputs.cpu_frequency, inputs.cpu_stats, inputs.cpu_time) {
            Err(e) => Err(e),
            Ok(load) => match memory_outcome(inputs.memory, inputs.swap) {
                Err(e) => Err(e),
                Ok(mem) => Ok(
                    MetricsView { cpu: load, disk: DiskView { size, path }, memory: mem },
                ),
            },
        },
    }
}

/// When a scrape is owed success: the directory listing is readable with
/// every entry accounted for, and every OS query answered with a non-empty
/// diagnostic.
pub open spec fn scrape_admissible(inputs: ScrapeInputsView) -> bool {
    &&& inputs.disk_listing matches DirListingView::Entries(entries) && listing_clean(entries)
    &&& query_answered(inputs.cpu_frequency)
    &&& query_answered(inputs.cpu_stats)
    &&& query_answered(inputs.cpu_time)
    &&& query_answered(inputs.memory)
    &&& query_answered(inputs.swap)
}

/// Law: a scrape succeeds exactly on admissible inputs.
pub proof fn lemma_scrape_success_condition(path: Seq<char>, inputs: ScrapeInputsView)
    ensures
        scrape_outcome(path, inputs) is Ok <==> scrape_admissible(inputs),
{
    match inputs.disk_listing {
        DirListingView::Unreadable { .. } => {},
        DirListingView::Entries(entries) => {
            crate::disk::lemma_scan_success_condition(path, entries);
        },
    }
}

/// Law: a snapshot from a successful scrape is fully populated — every cpu
/// and memory diagnostic is non-empty, and the disk component holds the
/// configured path and the exact sum of the listed regular files' sizes.
pub proof fn lemma_snapshot_fully_populated(path: Seq<char>, inputs: ScrapeInputsView)
    requires
        scrape_outcome(path, inputs) is Ok,
    ensures
        ({
            let m = scrape_outcome(path, inputs)->Ok_0;
            &&& m.cpu.frequency.len() > 0
            &&& m.cpu.stats.len() > 0
            &&& m.cpu.time.len() > 0
            &&& m.memory.memory.len() > 0
            &&& m.memory.swap.len() > 0
            &&& inputs.disk_listing matches DirListingView::Entries(entries) && m.disk.size
                == total_file_size(entries)
            &&& m.disk.path == path
        }),
{
    lemma_scrape_success_condition(path, inputs);
    match inputs.disk_listing {
        DirListingView::Unreadable { .. } => {},
        DirListingView::Entries(entries) => {
            crate::disk::lemma_scan_of_clean_listing(path, entries);
        },
    }
}

/// Law: a scrape over an unreadable directory always fails with
/// `DirectoryUnreadable` — carrying the configured path and the underlying
/// cause — and yields no snapshot.
pub proof fn lemma_unreadable_directory_scrape(path: Seq<char>, inputs: ScrapeInputsView)
    requires
        inputs.disk_listing matches DirListingView::Unreadable { .. },
    ensures
        scrape_outcome(path, inputs) == Err::<MetricsView, MetricsErrorView>(
            MetricsErrorView::Disk(
                DiskErrorView::DirectoryUnreadable {
                    path,
                    cause: inputs.disk_listing->Unreadable_cause,
                },
            ),
        ),
{
}

/// Law: a scrape's outcome is deterministic in the configured path and the
/// scrape's own inputs — two scrapes that read the same listing and the same
/// query answers conclude the same, however they interleave, because no
/// state is shared between them.
pub proof fn lemma_scrape_deterministic(
    path: Seq<char>,
    own: ScrapeInputsView,
    other: ScrapeInputsView,
)
    requires
        own == other,
    ensures
        scrape_outcome(path, own) == scrape_outcome(path, other),
{
}

/// Law: the disk total a successful scrape reports comes from its own listing
/// alone — scrapes over one directory listing agree on it whatever their
/// other inputs, so concurrent scrapes cannot contaminate each other's
/// totals.
pub proof fn lemma_disk_total_from_own_listing(
    path: Seq<char>,
    own: ScrapeInputsView,
    other: ScrapeInputsView,
)
    requires
        own.disk_listing == other.disk_listing,
        scrape_outcome(path, own) is Ok,
        scrape_outcome(path, other) is Ok,
    ensures
        (scrape_outcome(path, own)->Ok_0).disk == (scrape_outcome(path, other)->Ok_0).disk,
{
}

impl Metrics {
    /// A snapshot seeded with the configured disk path, a zero footprint and
    /// empty cpu and memory diagnostics.
    pub fn new(configuration: &Configuration) -> (r: Metrics)
        ensures
            r@ == (MetricsView {
                cpu: LoadView {
                    frequency: Seq::<char>::empty(),
                    stats: Seq::<char>::empty(),
                    time: Seq::<char>::empty(),
                },
                disk: DiskView { size: 0, path: configuration@ },
                memory: MemoryView { memory: Seq::<char>::empty(), swap: Seq::<char>::empty() },
            }),
    {
        Metrics { cpu: Cpu::new(), disk: Disk::new(configuration), memory: Memory::new() }
    }

    /// The cpu probe's latest diagnostics.
    pub fn cpu(&self) -> (r: &Cpu)
        ensures
            r@ == self@.cpu,
    {
        &self.cpu
    }

    /// The disk probe's latest state.
    pub fn disk(&self) -> (r: &Disk)
        ensures
            r@ == self@.disk,
    {
        &self.disk
    }

    /// The memory probe's latest diagnostics.
    pub fn memory(&self) -> (r: &Memory)
        ensures
            r@ == self@.memory,
    {
        &self.memory
    }

    /// Updates the snapshot from one scrape's inputs: disk, then cpu, then
    /// memory, failing on the first error and leaving the probes after the
    /// failing one untouched. A snapshot that saw an error is never handed to
    /// callers; `System::scrape_metrics` drops it.
    pub fn calculate(&mut self, inputs: ScrapeInputs) -> (r: Result<(), MetricsError>)
        requires
            inputs.disk_listing@ matches DirListingView::Entries(entries) ==> total_file_size(
                entries,
            ) <= u64::MAX,
        ensures
            ({
                let out = scrape_outcome(old(self)@.disk.path, inputs@);
                let dout = disk_outcome(old(self)@.disk.path, inputs@.disk_listing);
                let cout = cpu_outcome(inputs@.cpu_frequency, inputs@.cpu_stats, inputs@.cpu_time);
                &&& r is Ok <==> out is Ok
                &&& out matches Ok(m) ==> final(self)@ == m
                &&& out matches Err(e) ==> (r matches Err(re) && re@ == e)
                &&& dout is Err ==> *final(self) == *old(self)
                &&& dout matches Ok(size) ==> final(self)@.disk == (DiskView {
                    size,
                    path: old(self)@.disk.path,
                })
                &&& dout is Ok && cout is Err ==> final(self)@.cpu == old(self)@.cpu
                &&& dout is Ok ==> (cout matches Ok(load) ==> final(self)@.cpu == load)
                &&& r is Err ==> final(self)@.memory == old(self)@.memory
            }),
    {
        match self.disk.calculate(inputs.disk_listing) {
            Ok(()) => {},
            Err(e) => {
                return Err(MetricsError::Disk(e));
            },
        }
        match self.cpu.calculate(inputs.cpu_frequency, inputs.cpu_stats, inputs.cpu_time) {
            Ok(()) => {},
            Err(e) => {
                return Err(e);
            },
        }
        match self.memory.calculate(inputs.memory, inputs.swap) {
            Ok(()) => {},
            Err(e) => {
                return Err(e);
            },
        }
        Ok(())
    }
}

/// The entry point of the subsystem: it owns a copy of the configuration and
/// produces one fresh snapshot per scrape.
#[derive(Debug)]
pub struct System {
    configuration: Configuration,
}

impl View for System {
    type V = Seq<char>;

    closed spec fn view(&self) -> Seq<char> {
        self.configuration@
    }
}

impl System {
    /// Stores an owned copy of the configuration; it is immutable thereafter.
    pub fn new(configuration: &Configuration) -> (r: System)
        ensures
            r@ == configuration@,
    {
        System { configuration: configuration.clone() }
    }

    /// One scrape: builds a fresh snapshot seeded with the configured disk
    /// path, runs the full calculation pipeline over this scrape's inputs,
    /// and returns either the completed snapshot or the first error. No
    /// partial snapshot is ever returned, and the system itself is never
    /// mutated, so concurrent scrapes are fully independent.
    pub fn scrape_metrics(&self, inputs: ScrapeInputs) -> (r: Result<Metrics, MetricsError>)
        requires
            inputs.disk_listing@ matches DirListingView::Entries(entries) ==> total_file_size(
                entries,
            ) <= u64::MAX,
        ensures
            ({
                let out = scrape_outcome(self@, inputs@);
                &&& r is Ok <==> out is Ok
                &&& out matches Ok(m) ==> (r matches Ok(snapshot) && snapshot@ == m)
                &&& out matches Err(e) ==> (r matches Err(re) && re@ == e)
            }),
    {
        let mut metrics = Metrics::new(&self.configuration);
        match metrics.calculate(inputs) {
            Ok(()) => Ok(metrics),
            Err(e) => Err(e),
        }
    }
}

} // verus!
