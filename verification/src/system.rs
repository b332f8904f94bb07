//! The sampler: what the dashboard knows of the host, tick by tick.
//!
//! The operating system is read elsewhere. Each tick hands the sampler one
//! [`Reading`]; the sampler folds it into its figures and its two usage
//! histories and gives out a [`Snapshot`] for the display.

use vstd::prelude::*;
use crate::history::{blank, record, shifted};

verus! {

/// One answer of the metrics provider. `processor_usages` holds percentages:
/// the entry at index 0 is the load of the whole machine, each further entry
/// the load of one core.
#[derive(Debug, PartialEq, Eq)]
pub struct Reading {
    pub processor_usages: Vec<u64>,
    pub mem_used: u64,
    pub mem_free: u64,
}

pub struct ReadingView {
    pub processor_usages: Seq<u64>,
    pub mem_used: u64,
    pub mem_free: u64,
}

impl View for Reading {
    type V = ReadingView;

    open spec fn view(&self) -> ReadingView {
        ReadingView {
            processor_usages: self.processor_usages@,
            mem_used: self.mem_used,
            mem_free: self.mem_free,
        }
    }
}

/// The figures of one tick, as the display consumes them.
#[derive(Debug, PartialEq, Eq)]
pub struct Snapshot {
    pub cpu_current_usage: u64,
    pub cpu_usage_history: Vec<u64>,
    pub cpu_core_usages: Vec<u16>,
    pub mem_total: u64,
    pub mem_used: u64,
    pub mem_free: u64,
    pub mem_usage_history: Vec<u64>,
}

pub struct SnapshotView {
    pub cpu_current_usage: u64,
    pub cpu_usage_history: Seq<u64>,
    pub cpu_core_usages: Seq<u16>,
    pub mem_total: u64,
    pub mem_used: u64,
    pub mem_free: u64,
    pub mem_usage_history: Seq<u64>,
}

impl View for Snapshot {
    type V = SnapshotView;

    open spec fn view(&self) -> SnapshotView {
        SnapshotView {
            cpu_current_usage: self.cpu_current_usage,
            cpu_usage_history: self.cpu_usage_history@,
            cpu_core_usages: self.cpu_core_usages@,
            mem_total: self.mem_total,
            mem_used: self.mem_used,
            mem_free: self.mem_free,
            mem_usage_history: self.mem_usage_history@,
        }
    }
}

/// A core's load as the display stores it: the percentage itself, or the
/// largest value of the narrower type where it does not fit.
pub open spec fn core_percent(usage: u64) -> u16 {
    if usage > u16::MAX {
        u16::MAX
    } else {
        usage as u16
    }
}

/// The per-core loads of a provider's list: every entry but the first.
pub open spec fn core_percents(processor_usages: Seq<u64>) -> Seq<u16> {
    Seq::new(
        (processor_usages.len() - 1) as nat,
        |i: int| core_percent(processor_usages[i + 1]),
    )
}

impl SnapshotView {
    /// The figures before the first tick: nothing used, `width` zeros in each
    /// history, and no per-core loads yet.
    pub open spec fn idle(mem_total: u64, width: nat) -> SnapshotView {
        SnapshotView {
            cpu_current_usage: 0,
            cpu_usage_history: Seq::new(width, |i: int| 0u64),
            cpu_core_usages: Seq::empty(),
            mem_total,
            mem_used: 0,
            mem_free: 0,
            mem_usage_history: Seq::new(width, |i: int| 0u64),
        }
    }

    /// The figures after `reading` was taken in: the current values are
    /// replaced, each history moves on by one sample, the per-core loads are
    /// computed afresh. The total memory stays what it was at the start.
    pub open spec fn advanced(self, reading: ReadingView) -> SnapshotView {
        SnapshotView {
            cpu_current_usage: reading.processor_usages[0],
            cpu_usage_history: shifted(self.cpu_usage_history, reading.processor_usages[0]),
            cpu_core_usages: core_percents(reading.processor_usages),
            mem_total: self.mem_total,
            mem_used: reading.mem_used,
            mem_free: reading.mem_free,
            mem_usage_history: shifted(self.mem_usage_history, reading.mem_used),
        }
    }
}

/// The sampler's state: the number of cores found at the start and the
/// figures as of the last reading that was taken in.
#[derive(Debug, PartialEq, Eq)]
pub struct System {
    pub cpu_usage_history: Vec<u64>,
    pub cpu_current_usage: u64,
    pub cpu_num_cores: usize,
    pub mem_total: u64,
    pub mem_free: u64,
    pub mem_used: u64,
    pub mem_usage_history: Vec<u64>,
    pub cpu_core_usages: Vec<u16>,
}

pub struct SystemView {
    pub cpu_num_cores: nat,
    pub figures: SnapshotView,
}

impl View for System {
    type V = SystemView;

    open spec fn view(&self) -> SystemView {
        SystemView {
            cpu_num_cores: self.cpu_num_cores as nat,
            figures: SnapshotView {
                cpu_current_usage: self.cpu_current_usage,
                cpu_usage_history: self.cpu_usage_history@,
                cpu_core_usages: self.cpu_core_usages@,
                mem_total: self.mem_total,
                mem_used: self.mem_used,
                mem_free: self.mem_free,
                mem_usage_history: self.mem_usage_history@,
            },
        }
    }
}

impl SystemView {
    /// A reading can be taken in when it holds the machine-wide entry and one
    /// entry for each core that was counted at the start.
    pub open spec fn accepts(self, reading: ReadingView) -> bool {
        reading.processor_usages.len() == self.cpu_num_cores + 1
    }

    /// The state after a tick. A reading that cannot be taken in leaves the
    /// state as it was: the display then shows figures that are stale, and
    /// still valid.
    pub open spec fn ticked(self, reading: ReadingView) -> SystemView {
        if self.accepts(reading) {
            SystemView {
                cpu_num_cores: self.cpu_num_cores,
                figures: self.figures.advanced(reading),
            }
        } else {
            self
        }
    }

    /// The state after a run of ticks, the earliest reading first.
    pub open spec fn ticked_through(self, readings: Seq<ReadingView>) -> SystemView
        decreases readings.len(),
    {
        if readings.len() == 0 {
            self
        } else {
            self.ticked_through(readings.drop_last()).ticked(readings.last())
        }
    }

    /// Both histories have one length, and the per-core loads are one for
    /// each counted core, or none before the first reading was taken in.
    pub open spec fn wf(self) -> bool {
        &&& self.figures.cpu_usage_history.len() == self.figures.mem_usage_history.len()
        &&& self.figures.cpu_core_usages.len() == self.cpu_num_cores
            || self.figures.cpu_core_usages.len() == 0
    }
}

/// Whatever readings arrive, and however many, the sampler keeps counting
/// the same cores, both histories keep the length they have, the total
/// memory stays, and a well-formed state stays well-formed.
pub proof fn lemma_ticks_keep_the_shape(system: SystemView, readings: Seq<ReadingView>)
    ensures
        ({
            let after = system.ticked_through(readings);
            &&& after.cpu_num_cores == system.cpu_num_cores
            &&& after.figures.mem_total == system.figures.mem_total
            &&& after.figures.cpu_usage_history.len() == system.figures.cpu_usage_history.len()
            &&& after.figures.mem_usage_history.len() == system.figures.mem_usage_history.len()
            &&& system.wf() ==> after.wf()
        }),
    decreases readings.len(),
{
    if readings.len() > 0 {
        lemma_ticks_keep_the_shape(system, readings.drop_last());
    }
}

/// After a reading was taken in, each history that has room ends with the
/// value just sampled: the load of the whole machine, and the memory in use.
pub proof fn lemma_histories_end_with_the_latest(system: SystemView, reading: ReadingView)
    requires
        system.accepts(reading),
    ensures
        ({
            let after = system.ticked(reading);
            &&& after.figures.cpu_current_usage == reading.processor_usages[0]
            &&& after.figures.mem_used == reading.mem_used
            &&& after.figures.cpu_usage_history.len() > 0
                ==> after.figures.cpu_usage_history.last() == after.figures.cpu_current_usage
            &&& after.figures.mem_usage_history.len() > 0 ==> after.figures.mem_usage_history.last()
                == after.figures.mem_used
            &&& after.figures.cpu_core_usages.len() == system.cpu_num_cores
        }),
{
}

/// Narrows the per-core entries of a provider's list.
fn core_loads(processor_usages: &Vec<u64>) -> (loads: Vec<u16>)
    requires
        processor_usages@.len() >= 1,
    ensures
        loads@ == core_percents(processor_usages@),
{
    let mut loads: Vec<u16> = Vec::new();
    let mut i: usize = 1;
    while i < processor_usages.len()
        invariant
            1 <= i <= processor_usages@.len(),
            loads@.len() == i - 1,
            forall|k: int| 0 <= k < loads@.len() ==> loads@[k] == core_percent(
                processor_usages@[k + 1],
            ),
        decreases processor_usages@.len() - i,
    {
        let usage = processor_usages[i];
        let load: u16 = if usage > u16::MAX as u64 {
            u16::MAX
        } else {
            usage as u16
        };
        loads.push(load);
        i += 1;
    }
    loads
}

impl System {
    /// Sets the sampler up from the first answer of the metrics provider.
    ///
    /// `processor_count` is the length of the provider's processor list,
    /// which always starts with the entry for the whole machine, so the
    /// number of cores is one less. `initial_size` is the width of the
    /// terminal at the start; the histories get half as many entries and
    /// keep that length for good.
    pub fn new(processor_count: usize, mem_total: u64, initial_size: u16) -> (system: System)
        requires
            processor_count >= 1,
        ensures
            system@.cpu_num_cores == processor_count - 1,
            system@.figures == SnapshotView::idle(mem_total, (initial_size / 2) as nat),
            system@.wf(),
    {
        let history_width = initial_size / 2;
        let cpu_usage_history = blank(history_width as usize);
        let cpu_num_cores: usize = processor_count - 1;
        let mem_usage_history = blank(history_width as usize);
        System {
            cpu_usage_history,
            cpu_current_usage: 0,
            cpu_num_cores,
            mem_total,
            mem_free: 0,
            mem_used: 0,
            mem_usage_history,
            cpu_core_usages: Vec::new(),
        }
    }

    /// Whether `reading` fits this sampler.
    pub fn accepts(&self, reading: &Reading) -> (fits: bool)
        ensures
            fits == self@.accepts(reading@),
    {
        let entries = reading.processor_usages.len();
        entries >= 1 && entries - 1 == self.cpu_num_cores
    }

    /// The figures as they stand, for the display to keep.
    pub fn snapshot(&self) -> (snapshot: Snapshot)
        ensures
            snapshot@ == self@.figures,
    {
        Snapshot {
            cpu_current_usage: self.cpu_current_usage,
            cpu_usage_history: self.cpu_usage_history.clone(),
            cpu_core_usages: self.cpu_core_usages.clone(),
            mem_total: self.mem_total,
            mem_used: self.mem_used,
            mem_free: self.mem_free,
            mem_usage_history: self.mem_usage_history.clone(),
        }
    }

    /// One tick: takes `reading` in and gives out the figures that the
    /// display is to show from now on.
    ///
    /// The load of the whole machine and the memory in use become the newest
    /// entries of their histories, whose oldest entries leave. The per-core
    /// loads are replaced as a whole. A reading with the wrong number of
    /// entries changes nothing, and the figures given out are the previous
    /// ones.
    pub fn update(&mut self, reading: &Reading) -> (snapshot: Snapshot)
        ensures
            final(self)@ == old(self)@.ticked(reading@),
            snapshot@ == final(self)@.figures,
            final(self)@.figures.cpu_usage_history.len() == old(self)@.figures.cpu_usage_history.len(),
            final(self)@.figures.mem_usage_history.len() == old(self)@.figures.mem_usage_history.len(),
            old(self)@.wf() ==> final(self)@.wf(),
    {
        if self.accepts(reading) {
            self.cpu_current_usage = reading.processor_usages[0];
            record(&mut self.cpu_usage_history, self.cpu_current_usage);
            self.mem_used = reading.mem_used;
            self.mem_free = reading.mem_free;
            record(&mut self.mem_usage_history, self.mem_used);
            self.cpu_core_usages = core_loads(&reading.processor_usages);
        }
        self.snapshot()
    }
}

} // verus!
