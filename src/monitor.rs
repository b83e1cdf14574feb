//! The performance sampler's data: a short history of processor and memory
//! readings for the whole system and for this process.
use vstd::prelude::*;

verus! {

/// How many readings each history keeps.
pub const HISTORY_LEN: usize = 10;

/// One reading of the sampler.
#[derive(Clone, Copy, Debug, PartialEq, Eq, Structural)]
pub struct Sample {
    /// System processor use, in hundredths of a percent.
    pub system_cpu: u64,
    /// System memory in use, in MiB.
    pub system_mem: u64,
    /// This process's processor use, in hundredths of a percent.
    pub app_cpu: u64,
    /// This process's memory, in MiB.
    pub app_mem: u64,
    /// Total system memory, in MiB.
    pub total_mem: u64,
}

/// Histories of processor and memory readings, oldest first.
#[derive(Debug)]
pub struct Histories {
    pub cpu: Vec<u64>,
    pub mem: Vec<u64>,
}

/// What the sampler has gathered.
#[derive(Debug)]
pub struct PerformanceData {
    pub system: Histories,
    pub app: Histories,
    /// Total system memory at the last reading, if any.
    pub total_mem: Option<u64>,
}

/// The last `HISTORY_LEN` readings of `s`.
pub open spec fn window(s: Seq<u64>) -> Seq<u64> {
    if s.len() > HISTORY_LEN {
        s.subrange(s.len() - HISTORY_LEN, s.len() as int)
    } else {
        s
    }
}

fn append_reading(history: &mut Vec<u64>, x: u64)
    requires
        old(history)@.len() <= HISTORY_LEN,
    ensures
        final(history)@ == window(old(history)@.push(x)),
        final(history)@.len() <= HISTORY_LEN,
{
    history.push(x);
    if history.len() > HISTORY_LEN {
        history.remove(0);
        assert(history@ =~= window(old(history)@.push(x)));
    }
}

impl PerformanceData {
    /// Histories never hold more than `HISTORY_LEN` readings.
    pub open spec fn wf(&self) -> bool {
        &&& self.system.cpu@.len() <= HISTORY_LEN
        &&& self.system.mem@.len() <= HISTORY_LEN
        &&& self.app.cpu@.len() <= HISTORY_LEN
        &&& self.app.mem@.len() <= HISTORY_LEN
    }

    pub open spec fn is_empty(&self) -> bool {
        &&& self.system.cpu@.len() == 0
        &&& self.system.mem@.len() == 0
        &&& self.app.cpu@.len() == 0
        &&& self.app.mem@.len() == 0
        &&& self.total_mem is None
    }

    /// No readings yet.
    pub fn new() -> (r: PerformanceData)
        ensures
            r.wf(),
            r.is_empty(),
    {
        PerformanceData {
            system: Histories { cpu: Vec::new(), mem: Vec::new() },
            app: Histories { cpu: Vec::new(), mem: Vec::new() },
            total_mem: None,
        }
    }

    /// Appends a reading to each history, dropping the oldest beyond `HISTORY_LEN`.
    pub fn record(&mut self, s: Sample)
        requires
            old(self).wf(),
        ensures
            final(self).wf(),
            final(self).system.cpu@ == window(old(self).system.cpu@.push(s.system_cpu)),
            final(self).system.mem@ == window(old(self).system.mem@.push(s.system_mem)),
            final(self).app.cpu@ == window(old(self).app.cpu@.push(s.app_cpu)),
            final(self).app.mem@ == window(old(self).app.mem@.push(s.app_mem)),
            final(self).total_mem == Some(s.total_mem),
    {
        append_reading(&mut self.system.cpu, s.system_cpu);
        append_reading(&mut self.system.mem, s.system_mem);
        append_reading(&mut self.app.cpu, s.app_cpu);
        append_reading(&mut self.app.mem, s.app_mem);
        self.total_mem = Some(s.total_mem);
    }
}

/// Forgets every reading.
pub fn clear_data(data: &mut PerformanceData)
    ensures
        final(data).wf(),
        final(data).is_empty(),
{
    data.system.cpu.clear();
    data.system.mem.clear();
    data.app.cpu.clear();
    data.app.mem.clear();
    data.total_mem = None;
}

/// Switches the sampler on or off. Returns whether a sampler must be started:
/// only when it was off and is switched on. A running sampler stops by itself
/// once it sees the switch off.
pub fn change_bool(running: &mut bool, new_value: bool) -> (start: bool)
    ensures
        *final(running) == new_value,
        start == (!*old(running) && new_value),
{
    let old_val = *running;
    *running = new_value;
    !old_val && new_value
}

} // verus!
