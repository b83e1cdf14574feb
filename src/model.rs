//! The data that the registry persists: channels, soundboard entries and
//! settings, with their mathematical views.
use vstd::prelude::*;

verus! {

/// Unity gain, in thousandths: a gain of `UNITY_GAIN` leaves samples unchanged.
pub const UNITY_GAIN: u32 = 1000;

/// The UI scale factor used when none (or an out-of-range one) is stored, in thousandths.
pub const DEFAULT_SCALE: u32 = 1000;

/// Smallest accepted UI scale factor, in thousandths.
pub const MIN_SCALE: u32 = 100;

/// Largest accepted UI scale factor, in thousandths.
pub const MAX_SCALE: u32 = 2000;

/// Display color of a channel or soundboard entry.
#[derive(Clone, Copy, Debug, PartialEq, Eq, Structural)]
pub struct Color {
    pub r: u8,
    pub g: u8,
    pub b: u8,
}

/// Where a channel captures its audio from.
#[derive(Clone, Copy, Debug, PartialEq, Eq, Structural)]
pub enum SourceKind {
    /// A physical input device, named by `Channel::source_id`.
    Device,
    /// The live output of a running application, named by `Channel::source_id`.
    Application,
}

/// A named, continuous route from one audio source to the selected output.
#[derive(Debug)]
pub struct Channel {
    /// The only lookup key of a channel.
    pub name: String,
    pub icon: String,
    pub color: Color,
    /// Device or application name; empty for a device means the system default.
    pub source_id: String,
    pub source_kind: SourceKind,
    /// Selects the smaller-buffer capture and render path.
    pub low_latency: bool,
    /// Persisted gain, in thousandths.
    pub gain: u32,
}

pub struct ChannelView {
    pub name: Seq<char>,
    pub icon: Seq<char>,
    pub color: Color,
    pub source_id: Seq<char>,
    pub source_kind: SourceKind,
    pub low_latency: bool,
    pub gain: u32,
}

impl View for Channel {
    type V = ChannelView;

    open spec fn view(&self) -> ChannelView {
        ChannelView {
            name: self.name@,
            icon: self.icon@,
            color: self.color,
            source_id: self.source_id@,
            source_kind: self.source_kind,
            low_latency: self.low_latency,
            gain: self.gain,
        }
    }
}

impl Channel {
    /// A field-by-field copy.
    pub fn duplicate(&self) -> (r: Channel)
        ensures
            r@ == self@,
    {
        Channel {
            name: self.name.clone(),
            icon: self.icon.clone(),
            color: self.color,
            source_id: self.source_id.clone(),
            source_kind: self.source_kind,
            low_latency: self.low_latency,
            gain: self.gain,
        }
    }
}

/// A one-shot sound effect that can be played into the output.
#[derive(Debug)]
pub struct SoundboardEntry {
    pub name: String,
    pub icon: String,
    pub color: Color,
    /// The audio file that the entry plays.
    pub sound: String,
    pub low_latency: bool,
}

pub struct SoundboardEntryView {
    pub name: Seq<char>,
    pub icon: Seq<char>,
    pub color: Color,
    pub sound: Seq<char>,
    pub low_latency: bool,
}

impl View for SoundboardEntry {
    type V = SoundboardEntryView;

    open spec fn view(&self) -> SoundboardEntryView {
        SoundboardEntryView {
            name: self.name@,
            icon: self.icon@,
            color: self.color,
            sound: self.sound@,
            low_latency: self.low_latency,
        }
    }
}

impl SoundboardEntry {
    /// A field-by-field copy.
    pub fn duplicate(&self) -> (r: SoundboardEntry)
        ensures
            r@ == self@,
    {
        SoundboardEntry {
            name: self.name.clone(),
            icon: self.icon.clone(),
            color: self.color,
            sound: self.sound.clone(),
            low_latency: self.low_latency,
        }
    }
}

/// Global settings: the selected output and the interface preferences.
#[derive(Debug)]
pub struct Settings {
    /// Output device name; empty selects the system default.
    pub output: String,
    /// UI scale factor, in thousandths.
    pub scale: u32,
    /// Light theme.
    pub light: bool,
    /// Whether the performance sampler runs.
    pub monitor: bool,
    /// Whether level peaks are shown.
    pub peaks: bool,
}

pub struct SettingsView {
    pub output: Seq<char>,
    pub scale: u32,
    pub light: bool,
    pub monitor: bool,
    pub peaks: bool,
}

impl View for Settings {
    type V = SettingsView;

    open spec fn view(&self) -> SettingsView {
        SettingsView {
            output: self.output@,
            scale: self.scale,
            light: self.light,
            monitor: self.monitor,
            peaks: self.peaks,
        }
    }
}

pub open spec fn scale_in_range(scale: int) -> bool {
    MIN_SCALE <= scale <= MAX_SCALE
}

impl SettingsView {
    /// Settings that a load keeps as they are.
    pub open spec fn valid(self) -> bool {
        scale_in_range(self.scale as int)
    }
}

impl Settings {
    /// Settings with every field at its default.
    pub fn defaults() -> (r: Settings)
        ensures
            r@ == default_settings(),
    {
        Settings { output: String::new(), scale: DEFAULT_SCALE, light: false, monitor: true, peaks: true }
    }

    /// A field-by-field copy.
    pub fn duplicate(&self) -> (r: Settings)
        ensures
            r@ == self@,
    {
        Settings {
            output: self.output.clone(),
            scale: self.scale,
            light: self.light,
            monitor: self.monitor,
            peaks: self.peaks,
        }
    }
}

pub open spec fn default_settings() -> SettingsView {
    SettingsView { output: Seq::empty(), scale: DEFAULT_SCALE, light: false, monitor: true, peaks: true }
}

/// Everything the registry persists for one user.
#[derive(Debug)]
pub struct Document {
    pub soundboard: Vec<SoundboardEntry>,
    pub channels: Vec<Channel>,
    pub settings: Settings,
}

pub struct DocumentView {
    pub soundboard: Seq<SoundboardEntryView>,
    pub channels: Seq<ChannelView>,
    pub settings: SettingsView,
}

pub open spec fn channels_view(v: Seq<Channel>) -> Seq<ChannelView> {
    v.map_values(|c: Channel| c@)
}

pub open spec fn sounds_view(v: Seq<SoundboardEntry>) -> Seq<SoundboardEntryView> {
    v.map_values(|e: SoundboardEntry| e@)
}

impl View for Document {
    type V = DocumentView;

    open spec fn view(&self) -> DocumentView {
        DocumentView {
            soundboard: sounds_view(self.soundboard@),
            channels: channels_view(self.channels@),
            settings: self.settings@,
        }
    }
}

impl Document {
    /// The document of a first run: no entries, default settings.
    pub fn empty() -> (r: Document)
        ensures
            r@.soundboard.len() == 0,
            r@.channels.len() == 0,
            r@.settings == default_settings(),
    {
        Document { soundboard: Vec::new(), channels: Vec::new(), settings: Settings::defaults() }
    }
}

/// No two channels share a name.
pub open spec fn unique_names(chans: Seq<ChannelView>) -> bool {
    forall|i: int, j: int|
        0 <= i < chans.len() && 0 <= j < chans.len() && #[trigger] chans[i].name == #[trigger] chans[j].name
            ==> i == j
}

/// Copies a sequence of channels entry by entry.
pub fn duplicate_channels(v: &Vec<Channel>) -> (r: Vec<Channel>)
    ensures
        channels_view(r@) == channels_view(v@),
{
    let mut r: Vec<Channel> = Vec::new();
    let mut i: usize = 0;
    while i < v.len()
        invariant
            i <= v.len(),
            r@.len() == i,
            forall|k: int| 0 <= k < i ==> (#[trigger] r@[k])@ == v@[k]@,
        decreases v.len() - i,
    {
        r.push(v[i].duplicate());
        i += 1;
    }
    assert(channels_view(r@) =~= channels_view(v@));
    r
}

} // verus!
