//! The routing engine: which generation of channel workers is live, the
//! cooperative stop signal, and the volume table the workers read.
//!
//! Threads, sleeps and devices stay with the caller. The engine decides: a
//! start hands back one worker plan per channel, each worker asks the engine
//! every cycle whether it keeps running and at which gain, and a restart first
//! stops the live generation, so that a later start hands out plans of a new
//! one.
use vstd::prelude::*;
use crate::model::{channels_view, unique_names, Channel, ChannelView, SourceKind, UNITY_GAIN};
use crate::volume::VolumeTable;

verus! {

/// The route that one worker realises for one generation. A worker whose
/// source cannot be bound, or whose application source exits, ends; it is not
/// retried within its generation, and its siblings are not affected.
#[derive(Debug)]
pub struct WorkerPlan {
    /// The channel name, which is also the worker's key in the volume table.
    pub channel: String,
    pub source_kind: SourceKind,
    /// The device or application to capture from; `None` selects the system default input.
    pub source_id: Option<String>,
    /// The output device; `None` selects the system default output.
    pub output: Option<String>,
    pub low_latency: bool,
    /// The generation the worker belongs to; it stops once that generation is no longer live.
    pub generation: u64,
}

pub struct WorkerPlanView {
    pub channel: Seq<char>,
    pub source_kind: SourceKind,
    pub source_id: Option<Seq<char>>,
    pub output: Option<Seq<char>>,
    pub low_latency: bool,
    pub generation: u64,
}

pub open spec fn text_view(o: Option<String>) -> Option<Seq<char>> {
    match o {
        Some(s) => Some(s@),
        None => None,
    }
}

impl View for WorkerPlan {
    type V = WorkerPlanView;

    open spec fn view(&self) -> WorkerPlanView {
        WorkerPlanView {
            channel: self.channel@,
            source_kind: self.source_kind,
            source_id: text_view(self.source_id),
            output: text_view(self.output),
            low_latency: self.low_latency,
            generation: self.generation,
        }
    }
}

pub open spec fn plans_view(v: Seq<WorkerPlan>) -> Seq<WorkerPlanView> {
    v.map_values(|p: WorkerPlan| p@)
}

/// An empty name selects the system default.
pub open spec fn named(s: Seq<char>) -> Option<Seq<char>> {
    if s.len() == 0 {
        None
    } else {
        Some(s)
    }
}

/// The plan of the worker that realises channel `c` towards `output` in `generation`.
pub open spec fn plan_for(c: ChannelView, output: Seq<char>, generation: u64) -> WorkerPlanView {
    WorkerPlanView {
        channel: c.name,
        source_kind: c.source_kind,
        source_id: match c.source_kind {
            SourceKind::Device => named(c.source_id),
            SourceKind::Application => Some(c.source_id),
        },
        output: named(output),
        low_latency: c.low_latency,
        generation,
    }
}

/// The volume table after the workers of `chans` have seeded it, in order.
pub open spec fn seeded(m: Map<Seq<char>, u32>, chans: Seq<ChannelView>) -> Map<Seq<char>, u32>
    decreases chans.len(),
{
    if chans.len() == 0 {
        m
    } else {
        seeded(m, chans.drop_last()).insert(chans.last().name, chans.last().gain)
    }
}

pub struct EngineView {
    /// Whether a generation is live (its stop signal is lowered).
    pub running: bool,
    /// The number of the last generation started.
    pub generation: u64,
    pub volumes: Map<Seq<char>, u32>,
}

impl EngineView {
    /// Whether a worker of `generation` keeps running.
    pub open spec fn keeps(self, generation: u64) -> bool {
        self.running && generation == self.generation
    }

    /// The gain a worker applies for `name`: unity where the table has no entry.
    pub open spec fn gain_for(self, name: Seq<char>) -> u32 {
        if self.volumes.contains_key(name) {
            self.volumes[name]
        } else {
            UNITY_GAIN
        }
    }

    /// The engine once a restart has raised the stop signal.
    pub open spec fn drained(self) -> EngineView {
        EngineView { running: false, generation: self.generation, volumes: Map::empty() }
    }

    /// The engine once a stopped engine has started the workers of `chans`.
    pub open spec fn started(self, chans: Seq<ChannelView>) -> EngineView {
        EngineView { running: true, generation: (self.generation + 1) as u64, volumes: seeded(self.volumes, chans) }
    }

    /// The engine once the gain of `name` has been replaced.
    pub open spec fn with_gain(self, name: Seq<char>, gain: u32) -> EngineView {
        EngineView { running: self.running, generation: self.generation, volumes: self.volumes.insert(name, gain) }
    }
}

/// What a start did.
#[derive(Debug)]
pub enum StartOutcome {
    /// A generation was live already: nothing changed; restart instead.
    AlreadyRunning,
    /// A new generation is live; run one worker per plan.
    Started(Vec<WorkerPlan>),
}

/// The routing engine of one process.
#[derive(Debug)]
pub struct RoutingEngine {
    stopped: bool,
    generation: u64,
    volumes: VolumeTable,
}

impl View for RoutingEngine {
    type V = EngineView;

    closed spec fn view(&self) -> EngineView {
        EngineView { running: !self.stopped, generation: self.generation, volumes: self.volumes@ }
    }
}

fn optional_name(s: &String) -> (r: Option<String>)
    ensures
        text_view(r) == named(s@),
{
    if s.as_str().is_empty() {
        None
    } else {
        Some(s.clone())
    }
}

impl RoutingEngine {
    pub closed spec fn wf(&self) -> bool {
        self.volumes.wf()
    }

    /// A stopped engine with an empty volume table.
    pub fn new() -> (r: RoutingEngine)
        ensures
            r.wf(),
            r@ == (EngineView { running: false, generation: 0, volumes: Map::empty() }),
    {
        RoutingEngine { stopped: true, generation: 0, volumes: VolumeTable::new() }
    }

    /// Whether a generation is live.
    pub fn is_running(&self) -> (r: bool)
        ensures
            r == self@.running,
    {
        !self.stopped
    }

    /// The number of the last generation started.
    pub fn generation(&self) -> (r: u64)
        ensures
            r == self@.generation,
    {
        self.generation
    }

    /// The gain stored for `name`, if any.
    pub fn volume(&self, name: &str) -> (r: Option<u32>)
        requires
            self.wf(),
        ensures
            r == (if self@.volumes.contains_key(name@) {
                Some(self@.volumes[name@])
            } else {
                None
            }),
    {
        self.volumes.get(name)
    }

    /// Starts a generation with one worker per channel, each seeding the volume
    /// table with its channel's persisted gain. Refused while a generation is live.
    pub fn start(&mut self, channels: &Vec<Channel>, output: &String) -> (r: StartOutcome)
        requires
            old(self).wf(),
            old(self)@.generation < u64::MAX,
        ensures
            final(self).wf(),
            old(self)@.running ==> r is AlreadyRunning && final(self)@ == old(self)@,
            !old(self)@.running ==> r is Started && final(self)@ == old(self)@.started(channels_view(channels@)),
            r matches StartOutcome::Started(plans) ==> plans_view(plans@) == channels_view(channels@).map_values(
                |c: ChannelView| plan_for(c, output@, final(self)@.generation),
            ),
            r matches StartOutcome::Started(plans) ==> (unique_names(channels_view(channels@)) ==> forall|
                i: int,
                j: int,
            |
                0 <= i < plans@.len() && 0 <= j < plans@.len() && #[trigger] plans@[i].channel@
                    == #[trigger] plans@[j].channel@ ==> i == j),
    {
        if !self.stopped {
            return StartOutcome::AlreadyRunning;
        }
        self.stopped = false;
        self.generation = self.generation + 1;
        let ghost start_volumes = old(self)@.volumes;
        let mut plans: Vec<WorkerPlan> = Vec::new();
        let mut i: usize = 0;
        while i < channels.len()
            invariant
                i <= channels@.len(),
                self.wf(),
                !self.stopped,
                self.generation == old(self)@.generation + 1,
                self.volumes@ == seeded(start_volumes, channels_view(channels@.take(i as int))),
                plans@.len() == i,
                forall|k: int|
                    0 <= k < i ==> (#[trigger] plans@[k])@ == plan_for(channels@[k]@, output@, self.generation),
            decreases channels.len() - i,
        {
            let c = &channels[i];
            self.volumes.set(c.name.as_str(), c.gain);
            let source_id = match c.source_kind {
                SourceKind::Device => optional_name(&c.source_id),
                SourceKind::Application => Some(c.source_id.clone()),
            };
            plans.push(
                WorkerPlan {
                    channel: c.name.clone(),
                    source_kind: c.source_kind,
                    source_id,
                    output: optional_name(output),
                    low_latency: c.low_latency,
                    generation: self.generation,
                },
            );
            proof {
                let prefix = channels_view(channels@.take(i + 1));
                assert(prefix.drop_last() =~= channels_view(channels@.take(i as int)));
                assert(prefix.last() == channels@[i as int]@);
            }
            i += 1;
        }
        assert(channels@.take(i as int) =~= channels@);
        assert(plans_view(plans@) =~= channels_view(channels@).map_values(
            |c: ChannelView| plan_for(c, output@, self.generation),
        ));
        proof {
            assert forall|a: int, b: int|
                0 <= a < plans@.len() && 0 <= b < plans@.len() && #[trigger] plans@[a].channel@
                    == #[trigger] plans@[b].channel@ && unique_names(channels_view(channels@)) implies a == b by {
                assert(plans@[a]@ == plan_for(channels@[a]@, output@, self.generation));
                assert(plans@[b]@ == plan_for(channels@[b]@, output@, self.generation));
                assert(channels_view(channels@)[a].name == channels_view(channels@)[b].name);
            }
        }
        StartOutcome::Started(plans)
    }

    /// First half of a restart: clears the volume table and raises the stop
    /// signal, so that every worker of the live generation exits at its next
    /// cycle. After the grace period the caller starts again.
    pub fn begin_restart(&mut self)
        requires
            old(self).wf(),
        ensures
            final(self).wf(),
            final(self)@ == old(self)@.drained(),
    {
        self.volumes.reset_all();
        self.stopped = true;
    }

    /// Gives up the live generation after its output could not be opened: every
    /// worker of it exits at its next cycle, and routing stays down until the
    /// next start. The volume table is kept.
    pub fn abort_generation(&mut self)
        ensures
            final(self).wf() == old(self).wf(),
            final(self)@ == (EngineView { running: false, ..old(self)@ }),
    {
        self.stopped = true;
    }

    /// Whether a worker of `generation` keeps running.
    pub fn keeps_running(&self, generation: u64) -> (r: bool)
        ensures
            r == self@.keeps(generation),
    {
        !self.stopped && generation == self.generation
    }

    /// One worker cycle: `None` where the worker must release its devices and
    /// exit, else the gain to apply to the next block, read fresh from the table.
    pub fn cycle(&self, plan: &WorkerPlan) -> (r: Option<u32>)
        requires
            self.wf(),
        ensures
            r == (if self@.keeps(plan.generation) {
                Some(self@.gain_for(plan.channel@))
            } else {
                None
            }),
    {
        if !self.keeps_running(plan.generation) {
            return None;
        }
        match self.volumes.get(plan.channel.as_str()) {
            Some(g) => Some(g),
            None => Some(UNITY_GAIN),
        }
    }

    /// Replaces the gain of `name` in the volume table; running workers apply it
    /// at their next cycle.
    pub fn set_channel_volume(&mut self, name: &str, gain: u32)
        requires
            old(self).wf(),
        ensures
            final(self).wf(),
            final(self)@ == old(self)@.with_gain(name@, gain),
    {
        self.volumes.set(name, gain);
    }
}

} // verus!

verus! {

/// With unique names, seeding leaves each channel's own persisted gain in the table.
pub proof fn lemma_seeded_gains(m: Map<Seq<char>, u32>, chans: Seq<ChannelView>)
    requires
        unique_names(chans),
    ensures
        forall|i: int|
            0 <= i < chans.len() ==> #[trigger] seeded(m, chans).contains_key(chans[i].name) && seeded(
                m,
                chans,
            )[chans[i].name] == chans[i].gain,
    decreases chans.len(),
{
    if chans.len() > 0 {
        let rest = chans.drop_last();
        assert(unique_names(rest)) by {
            assert forall|i: int, j: int|
                0 <= i < rest.len() && 0 <= j < rest.len() && #[trigger] rest[i].name == #[trigger] rest[j].name
                    implies i == j by {
                assert(chans[i].name == chans[j].name);
            }
        }
        lemma_seeded_gains(m, rest);
        assert(seeded(m, chans) == seeded(m, rest).insert(chans.last().name, chans.last().gain));
        assert forall|i: int| 0 <= i < chans.len() implies #[trigger] seeded(m, chans).contains_key(chans[i].name)
            && seeded(m, chans)[chans[i].name] == chans[i].gain by {
            if i < chans.len() - 1 {
                assert(rest[i] == chans[i]);
                assert(seeded(m, rest).contains_key(rest[i].name));
                if chans[i].name == chans[chans.len() - 1].name {
                    assert(i == chans.len() - 1);
                }
            }
        }
    }
}

/// Once a restart has begun, no worker of the live or of any earlier generation
/// keeps running, during the grace period or after the next start; the next
/// start hands its workers a generation number that no earlier worker holds.
pub proof fn lemma_restart_retires_prior_generations(
    before: EngineView,
    drained: EngineView,
    after: EngineView,
    chans: Seq<ChannelView>,
    g: u64,
)
    requires
        g <= before.generation < u64::MAX,
        drained == before.drained(),
        after == drained.started(chans),
    ensures
        forall|h: u64| !(#[trigger] drained.keeps(h)),
        !after.keeps(g),
        after.generation > before.generation,
        after.keeps(after.generation),
{
}

/// A replaced gain is what a running worker of the channel applies at its next
/// cycle, with no restart: the worker keeps running.
pub proof fn lemma_volume_applies_next_cycle(e: EngineView, name: Seq<char>, gain: u32, g: u64)
    requires
        e.keeps(g),
    ensures
        e.with_gain(name, gain).keeps(g),
        e.with_gain(name, gain).gain_for(name) == gain,
{
}

} // verus!
