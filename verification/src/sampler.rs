//! The resource sampler's decision logic.
//!
//! The embedding runtime runs the sampling loop: every fixed interval it
//! reads the current process's CPU utilisation and resident memory from the
//! OS (holding no lock while it does), converts the CPU percentage to
//! thousandths, and hands the reading — or the fact that the OS lookup
//! failed — to `Sampler::step`, which owns every decision: a failure on the
//! very first iteration is fatal, a later failure is a silently skipped
//! iteration that leaves both gauges at their previous readings, and a
//! successful reading is folded into the gauges.

use vstd::prelude::*;

use crate::service::AppMetrics;

verus! {

/// One sampling cycle's raw reading: the process's CPU utilisation in
/// thousandths of a percent and its resident memory in bytes.
pub struct ResourceReading {
    pub cpu_milli_percent: i64,
    pub memory_bytes: u64,
}

/// Resident memory converted from bytes to thousandths of a megabyte.
pub open spec fn spec_mem_milli_mb(bytes: u64) -> int {
    bytes * 1000 / 1048576
}

/// Converts resident memory from bytes to thousandths of a megabyte.
pub fn mem_bytes_to_milli_mb(bytes: u64) -> (r: i64)
    ensures
        r == spec_mem_milli_mb(bytes),
        0 <= r,
{
    proof {
        assert((bytes * 1000) as int / 1048576 <= (u64::MAX * 1000) as int / 1048576) by {
            vstd::arithmetic::div_mod::lemma_div_is_ordered(
                (bytes * 1000) as int,
                (u64::MAX * 1000) as int,
                1048576,
            );
        }
    }
    let wide: u128 = (bytes as u128) * 1000;
    let m: u128 = wide / 1048576;
    m as i64
}

/// What one sampling cycle did.
#[derive(Clone, Copy, PartialEq, Eq, Structural, Debug)]
pub enum SampleOutcome {
    /// The OS lookup failed on the very first iteration: process metadata
    /// is unavailable, a fatal startup condition.
    FatalStartup,
    /// The OS lookup failed after at least one successful reading: the
    /// iteration is skipped and the gauges keep their previous readings.
    Skipped,
    /// A reading was folded into the gauges.
    Applied,
}

/// The sampler's only state: whether any reading has succeeded yet.
pub struct Sampler {
    primed: bool,
}

impl Sampler {
    /// True once at least one reading has been applied.
    pub closed spec fn is_primed(&self) -> bool {
        self.primed
    }

    /// A sampler that has not yet taken its first reading.
    pub fn new() -> (s: Sampler)
        ensures
            !s.is_primed(),
    {
        Sampler { primed: false }
    }

    /// One sampling cycle. A missing reading is fatal on the first
    /// iteration and a skipped iteration afterwards; in both of those
    /// cases every sample keeps its previous value. A present reading is
    /// folded into the two gauges and touches nothing else.
    pub fn step(&mut self, metrics: &mut AppMetrics, reading: Option<ResourceReading>) -> (o:
        SampleOutcome)
        requires
            old(metrics).wf(),
        ensures
            final(metrics).wf(),
            final(metrics).requests() == old(metrics).requests(),
            match o {
                SampleOutcome::FatalStartup => {
                    &&& reading is None
                    &&& !old(self).is_primed()
                    &&& !final(self).is_primed()
                    &&& final(metrics).samples() =~= old(metrics).samples()
                },
                SampleOutcome::Skipped => {
                    &&& reading is None
                    &&& old(self).is_primed()
                    &&& final(self).is_primed()
                    &&& final(metrics).samples() =~= old(metrics).samples()
                },
                SampleOutcome::Applied => {
                    &&& reading is Some
                    &&& final(self).is_primed()
                    &&& final(metrics).memory_gauge_milli() == spec_mem_milli_mb(
                        reading->Some_0.memory_bytes,
                    )
                    &&& final(metrics).cpu_gauge_milli() == reading->Some_0.cpu_milli_percent
                },
            },
    {
        match reading {
            None => {
                if self.primed {
                    SampleOutcome::Skipped
                } else {
                    SampleOutcome::FatalStartup
                }
            },
            Some(r) => {
                let mem = mem_bytes_to_milli_mb(r.memory_bytes);
                metrics.set_resource_gauges(mem, r.cpu_milli_percent);
                self.primed = true;
                SampleOutcome::Applied
            },
        }
    }
}

} // verus!
