//! The control plane: channel and soundboard changes on the registry document,
//! live volume changes, and settings. A change to a channel begins a restart
//! of the routing engine; soundboard changes leave the routes alone.
use vstd::prelude::*;
use crate::engine::{EngineView, RoutingEngine};
use crate::loose::same_text;
use crate::model::{
    channels_view, duplicate_channels, sounds_view, Channel, ChannelView, Color, Document, DocumentView, Settings,
    SettingsView, SoundboardEntry, SoundboardEntryView, SourceKind, DEFAULT_SCALE, MAX_SCALE, MIN_SCALE, UNITY_GAIN,
};
use crate::repair::stored_settings;
use crate::sounds::{extension, extension_of};

verus! {

/// Why a registry change was refused.
#[derive(Clone, Copy, Debug, PartialEq, Eq, Structural)]
pub enum RegistryError {
    /// No channel has the given name.
    ChannelNotFound,
    /// No soundboard entry has the given name.
    SoundNotFound,
    /// Another channel already has the given name.
    DuplicateName,
    /// The sound file's path names no extension.
    NoExtension,
}

/// `i` is the first position of `name` in `names`.
pub open spec fn first_index(names: Seq<Seq<char>>, name: Seq<char>, i: int) -> bool {
    &&& 0 <= i < names.len()
    &&& names[i] == name
    &&& forall|j: int| 0 <= j < i ==> names[j] != name
}

pub open spec fn channel_names(chans: Seq<ChannelView>) -> Seq<Seq<char>> {
    chans.map_values(|c: ChannelView| c.name)
}

pub open spec fn sound_names(sounds: Seq<SoundboardEntryView>) -> Seq<Seq<char>> {
    sounds.map_values(|e: SoundboardEntryView| e.name)
}

/// A channel as the registry creates it: unity gain.
pub open spec fn new_channel_view(
    color: Color,
    icon: Seq<char>,
    name: Seq<char>,
    deviceapps: Seq<char>,
    device: bool,
    low: bool,
) -> ChannelView {
    ChannelView {
        name,
        icon,
        color,
        source_id: deviceapps,
        source_kind: if device {
            SourceKind::Device
        } else {
            SourceKind::Application
        },
        low_latency: low,
        gain: UNITY_GAIN,
    }
}

impl DocumentView {
    pub open spec fn with_channels(self, channels: Seq<ChannelView>) -> DocumentView {
        DocumentView { soundboard: self.soundboard, channels, settings: self.settings }
    }

    pub open spec fn with_soundboard(self, soundboard: Seq<SoundboardEntryView>) -> DocumentView {
        DocumentView { soundboard, channels: self.channels, settings: self.settings }
    }

    pub open spec fn with_settings(self, settings: SettingsView) -> DocumentView {
        DocumentView { soundboard: self.soundboard, channels: self.channels, settings }
    }
}

fn channel_position(chans: &Vec<Channel>, name: &str) -> (r: Option<usize>)
    ensures
        match r {
            Some(i) => first_index(channel_names(channels_view(chans@)), name@, i as int),
            None => !channel_names(channels_view(chans@)).contains(name@),
        },
{
    let ghost names = channel_names(channels_view(chans@));
    let mut i: usize = 0;
    while i < chans.len()
        invariant
            i <= chans@.len(),
            names == channel_names(channels_view(chans@)),
            forall|j: int| 0 <= j < i ==> names[j] != name@,
        decreases chans.len() - i,
    {
        if same_text(chans[i].name.as_str(), name) {
            return Some(i);
        }
        i += 1;
    }
    assert forall|j: int| 0 <= j < names.len() implies names[j] != name@ by {}
    None
}

fn sound_position(sounds: &Vec<SoundboardEntry>, name: &str) -> (r: Option<usize>)
    ensures
        match r {
            Some(i) => first_index(sound_names(sounds_view(sounds@)), name@, i as int),
            None => !sound_names(sounds_view(sounds@)).contains(name@),
        },
{
    let ghost names = sound_names(sounds_view(sounds@));
    let mut i: usize = 0;
    while i < sounds.len()
        invariant
            i <= sounds@.len(),
            names == sound_names(sounds_view(sounds@)),
            forall|j: int| 0 <= j < i ==> names[j] != name@,
        decreases sounds.len() - i,
    {
        if same_text(sounds[i].name.as_str(), name) {
            return Some(i);
        }
        i += 1;
    }
    None
}

fn make_channel(color: Color, icon: String, name: String, deviceapps: String, device: bool, low: bool) -> (r:
    Channel)
    ensures
        r@ == new_channel_view(color, icon@, name@, deviceapps@, device, low),
{
    Channel {
        name,
        icon,
        color,
        source_id: deviceapps,
        source_kind: if device {
            SourceKind::Device
        } else {
            SourceKind::Application
        },
        low_latency: low,
        gain: UNITY_GAIN,
    }
}

/// Some channel other than the one at `skip` is named `name`.
pub open spec fn taken_by_other(chans: Seq<ChannelView>, name: Seq<char>, skip: int) -> bool {
    exists|j: int| 0 <= j < chans.len() && j != skip && (#[trigger] chans[j]).name == name
}

fn name_taken_except(chans: &Vec<Channel>, name: &str, skip: usize) -> (r: bool)
    ensures
        r == taken_by_other(channels_view(chans@), name@, skip as int),
{
    let ghost cv = channels_view(chans@);
    let mut j: usize = 0;
    while j < chans.len()
        invariant
            j <= chans@.len(),
            cv == channels_view(chans@),
            forall|k: int| 0 <= k < j && k != skip ==> (#[trigger] cv[k]).name != name@,
        decreases chans.len() - j,
    {
        if j != skip && same_text(chans[j].name.as_str(), name) {
            assert(cv[j as int].name == name@);
            return true;
        }
        j += 1;
    }
    false
}

proof fn lemma_unique_after_push(chans: Seq<ChannelView>, c: ChannelView)
    requires
        crate::model::unique_names(chans),
        !channel_names(chans).contains(c.name),
    ensures
        crate::model::unique_names(chans.push(c)),
{
    let s = chans.push(c);
    assert forall|i: int, j: int|
        0 <= i < s.len() && 0 <= j < s.len() && #[trigger] s[i].name == #[trigger] s[j].name implies i == j by {
        if i < chans.len() && j < chans.len() {
            assert(chans[i].name == chans[j].name);
        } else if i < chans.len() {
            assert(channel_names(chans)[i] == c.name);
        } else if j < chans.len() {
            assert(channel_names(chans)[j] == c.name);
        }
    }
}

proof fn lemma_unique_after_update(chans: Seq<ChannelView>, i: int, c: ChannelView)
    requires
        crate::model::unique_names(chans),
        0 <= i < chans.len(),
        !taken_by_other(chans, c.name, i),
    ensures
        crate::model::unique_names(chans.update(i, c)),
{
    let s = chans.update(i, c);
    assert forall|a: int, b: int|
        0 <= a < s.len() && 0 <= b < s.len() && #[trigger] s[a].name == #[trigger] s[b].name implies a == b by {
        if a != i && b != i {
            assert(chans[a].name == chans[b].name);
        } else if a == i && b != i {
            assert(chans[b].name == c.name);
        } else if b == i && a != i {
            assert(chans[a].name == c.name);
        }
    }
}

/// Adds a channel at unity gain and begins a restart of the routing engine;
/// refused, with no change, where a channel of that name exists already.
pub fn new_channel(
    doc: &mut Document,
    engine: &mut RoutingEngine,
    color: Color,
    icon: String,
    name: String,
    deviceapps: String,
    device: bool,
    low: bool,
) -> (r: Result<(), RegistryError>)
    requires
        old(engine).wf(),
    ensures
        final(engine).wf(),
        r is Ok <==> !channel_names(old(doc)@.channels).contains(name@),
        r is Ok ==> final(doc)@ == old(doc)@.with_channels(
            old(doc)@.channels.push(new_channel_view(color, icon@, name@, deviceapps@, device, low)),
        ),
        r is Ok ==> final(engine)@ == old(engine)@.drained(),
        r is Ok && crate::model::unique_names(old(doc)@.channels) ==> crate::model::unique_names(
            final(doc)@.channels,
        ),
        r == Err::<(), RegistryError>(RegistryError::DuplicateName) || r is Ok,
        r is Err ==> final(doc)@ == old(doc)@ && final(engine)@ == old(engine)@,
{
    if channel_position(&doc.channels, name.as_str()).is_some() {
        return Err(RegistryError::DuplicateName);
    }
    let c = make_channel(color, icon, name, deviceapps, device, low);
    doc.channels.push(c);
    assert(channels_view(doc.channels@) =~= old(doc)@.channels.push(c@));
    proof {
        if crate::model::unique_names(old(doc)@.channels) {
            lemma_unique_after_push(old(doc)@.channels, c@);
        }
    }
    engine.begin_restart();
    Ok(())
}

/// Replaces the first channel named `oldname` by a new one at unity gain and
/// begins a restart. Refused, with no change, where no channel has that name,
/// or where another channel already has the new name.
pub fn edit_channel(
    doc: &mut Document,
    engine: &mut RoutingEngine,
    color: Color,
    icon: String,
    name: String,
    deviceapps: String,
    device: bool,
    oldname: String,
    low: bool,
) -> (r: Result<(), RegistryError>)
    requires
        old(engine).wf(),
    ensures
        final(engine).wf(),
        r == Err::<(), RegistryError>(RegistryError::ChannelNotFound) <==> !channel_names(
            old(doc)@.channels,
        ).contains(oldname@),
        r == Err::<(), RegistryError>(RegistryError::DuplicateName) <==> exists|i: int|
            first_index(channel_names(old(doc)@.channels), oldname@, i) && taken_by_other(
                old(doc)@.channels,
                name@,
                i,
            ),
        r is Ok ==> exists|i: int|
            first_index(channel_names(old(doc)@.channels), oldname@, i) && !taken_by_other(
                old(doc)@.channels,
                name@,
                i,
            ) && final(doc)@ == old(doc)@.with_channels(
                old(doc)@.channels.update(i, new_channel_view(color, icon@, name@, deviceapps@, device, low)),
            ),
        r is Ok ==> final(engine)@ == old(engine)@.drained(),
        r is Ok && crate::model::unique_names(old(doc)@.channels) ==> crate::model::unique_names(
            final(doc)@.channels,
        ),
        r is Ok || r == Err::<(), RegistryError>(RegistryError::ChannelNotFound) || r == Err::<
            (),
            RegistryError,
        >(RegistryError::DuplicateName),
        r is Err ==> final(doc)@ == old(doc)@ && final(engine)@ == old(engine)@,
{
    match channel_position(&doc.channels, oldname.as_str()) {
        Some(i) => {
            proof {
                assert forall|k: int| first_index(channel_names(old(doc)@.channels), oldname@, k) implies k
                    == i by {
                    let names = channel_names(old(doc)@.channels);
                    if k < i {
                        assert(names[k] == oldname@);
                    } else if k > i {
                        assert(names[i as int] == oldname@);
                    }
                }
            }
            if name_taken_except(&doc.channels, name.as_str(), i) {
                return Err(RegistryError::DuplicateName);
            }
            let c = make_channel(color, icon, name, deviceapps, device, low);
            doc.channels.set(i, c);
            assert(channels_view(doc.channels@) =~= old(doc)@.channels.update(i as int, c@));
            proof {
                if crate::model::unique_names(old(doc)@.channels) {
                    lemma_unique_after_update(old(doc)@.channels, i as int, c@);
                }
            }
            engine.begin_restart();
            Ok(())
        },
        None => Err(RegistryError::ChannelNotFound),
    }
}

/// Removes the first channel named `name` and begins a restart; refused, with
/// no change, where no channel has that name.
pub fn delete_channel(doc: &mut Document, engine: &mut RoutingEngine, name: &str) -> (r: Result<
    (),
    RegistryError,
>)
    requires
        old(engine).wf(),
    ensures
        final(engine).wf(),
        r is Ok <==> channel_names(old(doc)@.channels).contains(name@),
        r is Ok ==> exists|i: int|
            first_index(channel_names(old(doc)@.channels), name@, i) && final(doc)@ == old(doc)@.with_channels(
                old(doc)@.channels.remove(i),
            ),
        r is Ok ==> final(engine)@ == old(engine)@.drained(),
        r == Err::<(), RegistryError>(RegistryError::ChannelNotFound) || r is Ok,
        r is Err ==> final(doc)@ == old(doc)@ && final(engine)@ == old(engine)@,
{
    match channel_position(&doc.channels, name) {
        Some(i) => {
            doc.channels.remove(i);
            assert(channels_view(doc.channels@) =~= old(doc)@.channels.remove(i as int));
            engine.begin_restart();
            Ok(())
        },
        None => Err(RegistryError::ChannelNotFound),
    }
}

/// Adds a soundboard entry for the sound file at `sound`; the routes are left
/// alone. Refused, with no change, where that path names no extension, since
/// the entry's file is kept under the entry's name with that extension.
pub fn new_sound(doc: &mut Document, color: Color, icon: String, name: String, sound: String, low: bool) -> (r:
    Result<(), RegistryError>)
    ensures
        r is Ok <==> extension(sound@) is Some,
        r is Ok ==> final(doc)@ == old(doc)@.with_soundboard(
            old(doc)@.soundboard.push(
                SoundboardEntryView { name: name@, icon: icon@, color, sound: sound@, low_latency: low },
            ),
        ),
        r == Err::<(), RegistryError>(RegistryError::NoExtension) || r is Ok,
        r is Err ==> final(doc)@ == old(doc)@,
{
    if extension_of(sound.as_str()).is_none() {
        return Err(RegistryError::NoExtension);
    }
    let e = SoundboardEntry { name, icon, color, sound, low_latency: low };
    doc.soundboard.push(e);
    assert(sounds_view(doc.soundboard@) =~= old(doc)@.soundboard.push(e@));
    Ok(())
}

/// Replaces the first soundboard entry named `oldname`; refused, with no
/// change, where no entry has that name.
pub fn edit_soundboard(
    doc: &mut Document,
    color: Color,
    icon: String,
    name: String,
    sound: String,
    oldname: String,
    low: bool,
) -> (r: Result<(), RegistryError>)
    ensures
        r is Ok <==> sound_names(old(doc)@.soundboard).contains(oldname@),
        r is Ok ==> exists|i: int|
            first_index(sound_names(old(doc)@.soundboard), oldname@, i) && final(doc)@
                == old(doc)@.with_soundboard(
                old(doc)@.soundboard.update(
                    i,
                    SoundboardEntryView { name: name@, icon: icon@, color, sound: sound@, low_latency: low },
                ),
            ),
        r == Err::<(), RegistryError>(RegistryError::SoundNotFound) || r is Ok,
        r is Err ==> final(doc)@ == old(doc)@,
{
    match sound_position(&doc.soundboard, oldname.as_str()) {
        Some(i) => {
            let e = SoundboardEntry { name, icon, color, sound, low_latency: low };
            doc.soundboard.set(i, e);
            assert(sounds_view(doc.soundboard@) =~= old(doc)@.soundboard.update(i as int, e@));
            Ok(())
        },
        None => Err(RegistryError::SoundNotFound),
    }
}

/// Removes the first soundboard entry named `name`; refused, with no change,
/// where no entry has that name.
pub fn delete_sound(doc: &mut Document, name: &str) -> (r: Result<(), RegistryError>)
    ensures
        r is Ok <==> sound_names(old(doc)@.soundboard).contains(name@),
        r is Ok ==> exists|i: int|
            first_index(sound_names(old(doc)@.soundboard), name@, i) && final(doc)@ == old(doc)@.with_soundboard(
                old(doc)@.soundboard.remove(i),
            ),
        r == Err::<(), RegistryError>(RegistryError::SoundNotFound) || r is Ok,
        r is Err ==> final(doc)@ == old(doc)@,
{
    match sound_position(&doc.soundboard, name) {
        Some(i) => {
            doc.soundboard.remove(i);
            assert(sounds_view(doc.soundboard@) =~= old(doc)@.soundboard.remove(i as int));
            Ok(())
        },
        None => Err(RegistryError::SoundNotFound),
    }
}

/// Sets the gain of the first channel named `name`, both in the registry and
/// in the engine's volume table, with no restart; refused, with no change,
/// where no channel has that name.
pub fn set_volume(doc: &mut Document, engine: &mut RoutingEngine, name: &str, gain: u32) -> (r: Result<
    (),
    RegistryError,
>)
    requires
        old(engine).wf(),
    ensures
        final(engine).wf(),
        r is Ok <==> channel_names(old(doc)@.channels).contains(name@),
        r is Ok ==> exists|i: int|
            first_index(channel_names(old(doc)@.channels), name@, i) && final(doc)@ == old(doc)@.with_channels(
                old(doc)@.channels.update(i, ChannelView { gain, ..old(doc)@.channels[i] }),
            ),
        r is Ok ==> final(engine)@ == old(engine)@.with_gain(name@, gain),
        r == Err::<(), RegistryError>(RegistryError::ChannelNotFound) || r is Ok,
        r is Err ==> final(doc)@ == old(doc)@ && final(engine)@ == old(engine)@,
{
    match channel_position(&doc.channels, name) {
        Some(i) => {
            let mut c = doc.channels[i].duplicate();
            c.gain = gain;
            doc.channels.set(i, c);
            assert(channels_view(doc.channels@) =~= old(doc)@.channels.update(
                i as int,
                ChannelView { gain, ..old(doc)@.channels[i as int] },
            ));
            engine.set_channel_volume(name, gain);
            Ok(())
        },
        None => Err(RegistryError::ChannelNotFound),
    }
}

/// The gain that the engine's volume table holds for `name`, if any.
pub fn get_volume(engine: &RoutingEngine, name: &str) -> (r: Option<u32>)
    requires
        engine.wf(),
    ensures
        r == (if engine@.volumes.contains_key(name@) {
            Some(engine@.volumes[name@])
        } else {
            None
        }),
{
    engine.volume(name)
}

/// A copy of the registry's channels.
pub fn get_channels(doc: &Document) -> (r: Vec<Channel>)
    ensures
        channels_view(r@) == doc@.channels,
{
    duplicate_channels(&doc.channels)
}

/// Replaces the registry's channels.
pub fn save_channels(doc: &mut Document, channels: Vec<Channel>)
    ensures
        final(doc)@ == old(doc)@.with_channels(channels_view(channels@)),
{
    doc.channels = channels;
}

/// A copy of the registry's soundboard.
pub fn get_soundboard(doc: &Document) -> (r: Vec<SoundboardEntry>)
    ensures
        sounds_view(r@) == doc@.soundboard,
{
    let mut r: Vec<SoundboardEntry> = Vec::new();
    let mut i: usize = 0;
    while i < doc.soundboard.len()
        invariant
            i <= doc.soundboard@.len(),
            r@.len() == i,
            forall|k: int| 0 <= k < i ==> (#[trigger] r@[k])@ == doc.soundboard@[k]@,
        decreases doc.soundboard.len() - i,
    {
        r.push(doc.soundboard[i].duplicate());
        i += 1;
    }
    assert(sounds_view(r@) =~= doc@.soundboard);
    r
}

/// Replaces the registry's soundboard; the routes are left alone.
pub fn save_soundboard(doc: &mut Document, soundboard_sfxs: Vec<SoundboardEntry>)
    ensures
        final(doc)@ == old(doc)@.with_soundboard(sounds_view(soundboard_sfxs@)),
{
    doc.soundboard = soundboard_sfxs;
}

/// A copy of the registry's settings.
pub fn get_settings(doc: &Document) -> (r: Settings)
    ensures
        r@ == doc@.settings,
{
    doc.settings.duplicate()
}

/// Replaces the registry's settings; an out-of-range scale is stored as the
/// default scale. Where the output device changes, a restart of the routing
/// engine begins and `true` is returned.
pub fn save_settings(doc: &mut Document, engine: &mut RoutingEngine, settings: Settings) -> (r: bool)
    requires
        old(engine).wf(),
    ensures
        final(engine).wf(),
        final(doc)@ == old(doc)@.with_settings(stored_settings(settings@)),
        r == (settings@.output != old(doc)@.settings.output),
        r ==> final(engine)@ == old(engine)@.drained(),
        !r ==> final(engine)@ == old(engine)@,
{
    let changed = !same_text(settings.output.as_str(), doc.settings.output.as_str());
    let mut settings = settings;
    if !(MIN_SCALE <= settings.scale && settings.scale <= MAX_SCALE) {
        settings.scale = DEFAULT_SCALE;
    }
    doc.settings = settings;
    if changed {
        engine.begin_restart();
    }
    changed
}

/// Valid settings read back after they were saved are the settings saved.
pub proof fn lemma_settings_round_trip(before: DocumentView, settings: SettingsView)
    requires
        settings.valid(),
    ensures
        before.with_settings(stored_settings(settings)).settings == settings,
        before.with_settings(stored_settings(settings)).channels == before.channels,
        before.with_settings(stored_settings(settings)).soundboard == before.soundboard,
{
}

/// Deleting a channel of a registry whose names are unique removes exactly that
/// entry: no channel of that name is left and the others keep their order. The
/// restart that the deletion begins retires every live worker, and the next
/// start plans no worker for the deleted channel.
pub proof fn lemma_deleted_channel_not_routed(
    before: DocumentView,
    after: DocumentView,
    name: Seq<char>,
    engine: EngineView,
    restarted: EngineView,
    output: Seq<char>,
)
    requires
        crate::model::unique_names(before.channels),
        engine.generation < u64::MAX,
        exists|i: int|
            first_index(channel_names(before.channels), name, i) && after == before.with_channels(
                before.channels.remove(i),
            ),
        restarted == engine.drained().started(after.channels),
    ensures
        after.channels.len() == before.channels.len() - 1,
        forall|k: int| 0 <= k < after.channels.len() ==> (#[trigger] after.channels[k]).name != name,
        forall|g: u64| !(#[trigger] engine.drained().keeps(g)),
        forall|k: int|
            0 <= k < after.channels.len() ==> crate::engine::plan_for(
                #[trigger] after.channels[k],
                output,
                restarted.generation,
            ).channel != name,
{
    let i = choose|i: int|
        first_index(channel_names(before.channels), name, i) && after == before.with_channels(
            before.channels.remove(i),
        );
    assert(before.channels[i].name == name);
    assert forall|k: int| 0 <= k < after.channels.len() implies (#[trigger] after.channels[k]).name != name by {
        let src = if k < i {
            k
        } else {
            k + 1
        };
        assert(after.channels[k] == before.channels[src]);
        if before.channels[src].name == before.channels[i].name {
            assert(src == i);
        }
    }
}

} // verus!
