//! The memory probe: it stores the diagnostic form of the host's main-memory
//! and swap usage, as opaque descriptive strings for the same reason the cpu
//! probe does. The surrounding process performs the OS queries and hands
//! their outcomes in.

use vstd::prelude::*;
use crate::errors::{MetricsError, MetricsErrorView};
use crate::query::{query_result, take_query, QueryOutcome, QueryView};

verus! {

/// The memory diagnostics of one scrape.
#[derive(Debug, Clone)]
pub struct Memory {
    memory: String,
    swap: String,
}

/// The mathematical shape of the memory diagnostics.
pub struct MemoryView {
    pub memory: Seq<char>,
    pub swap: Seq<char>,
}

impl View for Memory {
    type V = MemoryView;

    closed spec fn view(&self) -> MemoryView {
        MemoryView { memory: self.memory@, swap: self.swap@ }
    }
}

/// What the memory probe concludes from its two query outcomes, in the order
/// memory, swap: the diagnostics to store, or the first error.
pub open spec fn memory_outcome(memory: QueryView, swap: QueryView) -> Result<
    MemoryView,
    MetricsErrorView,
> {
    match query_result("memory"@, memory) {
        Err(e) => Err(e),
        Ok(m) => match query_result("swap"@, swap) {
            Err(e) => Err(e),
            Ok(s) => Ok(MemoryView { memory: m, swap: s }),
        },
    }
}

impl Default for Memory {
    /// Memory diagnostics before any calculation: all empty.
    fn default() -> (r: Memory)
        ensures
            r@ == (MemoryView { memory: Seq::<char>::empty(), swap: Seq::<char>::empty() }),
    {
        Memory { memory: String::new(), swap: String::new() }
    }
}

impl Memory {
    /// Memory diagnostics before any calculation: all empty.
    pub fn new() -> (r: Memory)
        ensures
            r@ == (MemoryView { memory: Seq::<char>::empty(), swap: Seq::<char>::empty() }),
    {
        Memory { memory: String::new(), swap: String::new() }
    }

    /// The diagnostic form of the main-memory usage.
    pub fn memory(&self) -> (r: &String)
        ensures
            r@ == self@.memory,
    {
        &self.memory
    }

    /// The diagnostic form of the swap usage.
    pub fn swap(&self) -> (r: &String)
        ensures
            r@ == self@.swap,
    {
        &self.swap
    }

    /// Replaces the stored diagnostics with the outcomes of fresh queries for
    /// main-memory and swap usage, in that order; the first failed query
    /// aborts the calculation, leaving the probe untouched, and its error
    /// propagates.
    pub fn calculate(&mut self, memory: QueryOutcome, swap: QueryOutcome) -> (r: Result<
        (),
        MetricsError,
    >)
        ensures
            ({
                let out = memory_outcome(memory@, swap@);
                &&& r is Ok <==> out is Ok
                &&& out matches Ok(m) ==> final(self)@ == m
                &&& out matches Err(e) ==> *final(self) == *old(self) && (r matches Err(re)
                    && re@ == e)
            }),
    {
        let m = match take_query("memory", memory) {
            Ok(text) => text,
            Err(e) => return Err(e),
        };
        let s = match take_query("swap", swap) {
            Ok(text) => text,
            Err(e) => return Err(e),
        };
        self.memory = m;
        self.swap = s;
        Ok(())
    }
}

} // verus!
