//! The cpu probe: it stores the diagnostic form of the host's cpu frequency,
//! aggregate usage statistics, and cumulative time. The values are kept as
//! opaque descriptive strings because the host's introspection does not
//! guarantee a stable structured format across platforms. The surrounding
//! process performs the OS queries and hands their outcomes in.

use vstd::prelude::*;
use crate::errors::{MetricsError, MetricsErrorView};
use crate::query::{query_result, take_query, QueryOutcome, QueryView};

verus! {

/// The cpu load diagnostics of one scrape.
#[derive(Debug, Clone)]
pub struct Load {
    frequency: String,
    stats: String,
    time: String,
}

/// The mathematical shape of the cpu load diagnostics.
pub struct LoadView {
    pub frequency: Seq<char>,
    pub stats: Seq<char>,
    pub time: Seq<char>,
}

impl View for Load {
    type V = LoadView;

    closed spec fn view(&self) -> LoadView {
        LoadView { frequency: self.frequency@, stats: self.stats@, time: self.time@ }
    }
}

/// What the cpu probe concludes from its three query outcomes, in the order
/// frequency, stats, time: the diagnostics to store, or the first error.
pub open spec fn cpu_outcome(frequency: QueryView, stats: QueryView, time: QueryView) -> Result<
    LoadView,
    MetricsErrorView,
> {
    match query_result("cpu frequency"@, frequency) {
        Err(e) => Err(e),
        Ok(f) => match query_result("cpu stats"@, stats) {
            Err(e) => Err(e),
            Ok(s) => match query_result("cpu time"@, time) {
                Err(e) => Err(e),
                Ok(t) => Ok(LoadView { frequency: f, stats: s, time: t }),
            },
        },
    }
}

impl Default for Load {
    /// Load diagnostics before any calculation: all empty.
    fn default() -> (r: Load)
        ensures
            r@ == (LoadView {
                frequency: Seq::<char>::empty(),
                stats: Seq::<char>::empty(),
                time: Seq::<char>::empty(),
            }),
    {
        Load { frequency: String::new(), stats: String::new(), time: String::new() }
    }
}

impl Load {
    /// Load diagnostics before any calculation: all empty.
    pub fn new() -> (r: Load)
        ensures
            r@ == (LoadView {
                frequency: Seq::<char>::empty(),
                stats: Seq::<char>::empty(),
                time: Seq::<char>::empty(),
            }),
    {
        Load { frequency: String::new(), stats: String::new(), time: String::new() }
    }

    /// The diagnostic form of the cpu frequency.
    pub fn frequency(&self) -> (r: &String)
        ensures
            r@ == self@.frequency,
    {
        &self.frequency
    }

    /// The diagnostic form of the aggregate cpu usage statistics.
    pub fn stats(&self) -> (r: &String)
        ensures
            r@ == self@.stats,
    {
        &self.stats
    }

    /// The diagnostic form of the cumulative cpu time.
    pub fn time(&self) -> (r: &String)
        ensures
            r@ == self@.time,
    {
        &self.time
    }

    /// Replaces the stored diagnostics with the outcomes of fresh queries for
    /// cpu frequency, usage statistics, and cumulative time, in that order;
    /// the first failed query aborts the calculation, leaving the probe
    /// untouched, and its error propagates.
    pub fn calculate(
        &mut self,
        frequency: QueryOutcome,
        stats: QueryOutcome,
        time: QueryOutcome,
    ) -> (r: Result<(), MetricsError>)
        ensures
            ({
                let out = cpu_outcome(frequency@, stats@, time@);
                &&& r is Ok <==> out is Ok
                &&& out matches Ok(load) ==> final(self)@ == load
                &&& out matches Err(e) ==> *final(self) == *old(self) && (r matches Err(re)
                    && re@ == e)
            }),
    {
        let f = match take_query("cpu frequency", frequency) {
            Ok(text) => text,
            Err(e) => return Err(e),
        };
        let s = match take_query("cpu stats", stats) {
            Ok(text) => text,
            Err(e) => return Err(e),
        };
        let t = match take_query("cpu time", time) {
            Ok(text) => text,
            Err(e) => return Err(e),
        };
        self.frequency = f;
        self.stats = s;
        self.time = t;
        Ok(())
    }
}

/// The cpu probe; it carries the load diagnostics of the latest calculation.
#[derive(Debug, Clone)]
pub struct Cpu {
    load: Load,
}

impl View for Cpu {
    type V = LoadView;

    closed spec fn view(&self) -> LoadView {
        self.load@
    }
}

impl Default for Cpu {
    /// A cpu probe before any calculation: all diagnostics empty.
    fn default() -> (r: Cpu)
        ensures
            r@ == (LoadView {
                frequency: Seq::<char>::empty(),
                stats: Seq::<char>::empty(),
                time: Seq::<char>::empty(),
            }),
    {
        Cpu { load: Load::new() }
    }
}

impl Cpu {
    /// A cpu probe before any calculation: all diagnostics empty.
    pub fn new() -> (r: Cpu)
        ensures
            r@ == (LoadView {
                frequency: Seq::<char>::empty(),
                stats: Seq::<char>::empty(),
                time: Seq::<char>::empty(),
            }),
    {
        Cpu { load: Load::new() }
    }

    /// The load diagnostics of the latest calculation.
    pub fn load(&self) -> (r: &Load)
        ensures
            r@ == self@,
    {
        &self.load
    }

    /// Recalculates the cpu load from the three query outcomes, exactly as
    /// `Load::calculate` does.
    pub fn calculate(
        &mut self,
        frequency: QueryOutcome,
        stats: QueryOutcome,
        time: QueryOutcome,
    ) -> (r: Result<(), MetricsError>)
        ensures
            ({
                let out = cpu_outcome(frequency@, stats@, time@);
                &&& r is Ok <==> out is Ok
                &&& out matches Ok(load) ==> final(self)@ == load
                &&& out matches Err(e) ==> *final(self) == *old(self) && (r matches Err(re)
                    && re@ == e)
            }),
    {
        self.load.calculate(frequency, stats, time)
    }
}

} // verus!
