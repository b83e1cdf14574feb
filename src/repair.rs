//! Reading a persisted document field by field. A field of the wrong type or
//! out of range is replaced by its default; the rest of the document is kept.
//! Writing a document produces a value that reads back as the same document.
use vstd::prelude::*;
use crate::loose::{field_of, member_value, Loose, Member, Number};
use crate::model::{
    channels_view, default_settings, scale_in_range, sounds_view, Channel, ChannelView, Color, Document,
    DocumentView, Settings, SettingsView, SoundboardEntry, SoundboardEntryView, SourceKind, DEFAULT_SCALE,
    MAX_SCALE, MIN_SCALE, UNITY_GAIN,
};

verus! {

pub open spec fn text_or_empty(f: Option<Loose>) -> Seq<char> {
    match f {
        Some(Loose::Text(s)) => s@,
        _ => Seq::empty(),
    }
}

pub open spec fn flag_or(f: Option<Loose>, default: bool) -> bool {
    match f {
        Some(Loose::Bool(b)) => b,
        _ => default,
    }
}

/// A color component clamped into `[0, 255]`.
pub open spec fn clamp_component(i: i64) -> u8 {
    if i > 255 {
        255
    } else if i < 0 {
        0
    } else {
        i as u8
    }
}

/// A color component as read from a list item; anything but a whole number reads as 0.
pub open spec fn component_of(x: Loose) -> u8 {
    match x {
        Loose::Number(n) => match n.integer {
            Some(i) => clamp_component(i),
            None => 0,
        },
        _ => 0,
    }
}

/// Component `k` of a color list: missing components are 0, extra ones are ignored.
pub open spec fn component_at(items: Seq<Loose>, k: int) -> u8 {
    if k < items.len() {
        component_of(items[k])
    } else {
        0
    }
}

pub open spec fn color_or_black(f: Option<Loose>) -> Color {
    match f {
        Some(Loose::List(items)) => Color {
            r: component_at(items@, 0),
            g: component_at(items@, 1),
            b: component_at(items@, 2),
        },
        _ => Color { r: 0, g: 0, b: 0 },
    }
}

/// A stored scale, or the default scale where it is no number or lies out of range.
pub open spec fn scale_or_default(f: Option<Loose>) -> u32 {
    match f {
        Some(Loose::Number(n)) => if scale_in_range(n.milli as int) {
            n.milli as u32
        } else {
            DEFAULT_SCALE
        },
        _ => DEFAULT_SCALE,
    }
}

/// A stored gain, or unity gain where it is no number or does not fit a gain.
pub open spec fn gain_or_unity(f: Option<Loose>) -> u32 {
    match f {
        Some(Loose::Number(n)) => if 0 <= n.milli <= u32::MAX {
            n.milli as u32
        } else {
            UNITY_GAIN
        },
        _ => UNITY_GAIN,
    }
}

pub open spec fn settings_from(v: Loose) -> SettingsView {
    SettingsView {
        output: text_or_empty(field_of(v, "output"@)),
        scale: scale_or_default(field_of(v, "scale"@)),
        light: flag_or(field_of(v, "light"@), false),
        monitor: flag_or(field_of(v, "monitor"@), true),
        peaks: flag_or(field_of(v, "peaks"@), true),
    }
}

pub open spec fn sound_from(v: Loose) -> SoundboardEntryView {
    SoundboardEntryView {
        name: text_or_empty(field_of(v, "name"@)),
        icon: text_or_empty(field_of(v, "icon"@)),
        color: color_or_black(field_of(v, "color"@)),
        sound: text_or_empty(field_of(v, "sound"@)),
        low_latency: flag_or(field_of(v, "lowlatency"@), false),
    }
}

pub open spec fn channel_from(v: Loose) -> ChannelView {
    ChannelView {
        name: text_or_empty(field_of(v, "name"@)),
        icon: text_or_empty(field_of(v, "icon"@)),
        color: color_or_black(field_of(v, "color"@)),
        source_id: text_or_empty(field_of(v, "device"@)),
        source_kind: if flag_or(field_of(v, "deviceorapp"@), false) {
            SourceKind::Device
        } else {
            SourceKind::Application
        },
        low_latency: flag_or(field_of(v, "lowlatency"@), false),
        gain: gain_or_unity(field_of(v, "volume"@)),
    }
}

pub open spec fn sounds_from(f: Option<Loose>) -> Seq<SoundboardEntryView> {
    match f {
        Some(Loose::List(items)) => items@.map_values(|x: Loose| sound_from(x)),
        _ => Seq::empty(),
    }
}

pub open spec fn channels_from(f: Option<Loose>) -> Seq<ChannelView> {
    match f {
        Some(Loose::List(items)) => items@.map_values(|x: Loose| channel_from(x)),
        _ => Seq::empty(),
    }
}

/// The document that a stored value stands for.
pub open spec fn document_from(v: Loose) -> DocumentView {
    DocumentView {
        soundboard: sounds_from(field_of(v, "soundboard"@)),
        channels: channels_from(field_of(v, "channels"@)),
        settings: match field_of(v, "settings"@) {
            Some(s) => settings_from(s),
            None => default_settings(),
        },
    }
}

fn text_field(v: &Loose, key: &str) -> (r: String)
    ensures
        r@ == text_or_empty(field_of(*v, key@)),
{
    match v.get(key) {
        Some(Loose::Text(s)) => s.clone(),
        _ => String::new(),
    }
}

fn flag_field(v: &Loose, key: &str, default: bool) -> (r: bool)
    ensures
        r == flag_or(field_of(*v, key@), default),
{
    match v.get(key) {
        Some(Loose::Bool(b)) => *b,
        _ => default,
    }
}

fn component(x: &Loose) -> (r: u8)
    ensures
        r == component_of(*x),
{
    match x {
        Loose::Number(n) => match n.integer {
            Some(i) => if i > 255 {
                255
            } else if i < 0 {
                0
            } else {
                i as u8
            },
            None => 0,
        },
        _ => 0,
    }
}

pub(crate) fn component_at_index(items: &Vec<Loose>, k: usize) -> (r: u8)
    ensures
        r == component_at(items@, k as int),
{
    if k < items.len() {
        component(&items[k])
    } else {
        0
    }
}

fn color_field(v: &Loose, key: &str) -> (r: Color)
    ensures
        r == color_or_black(field_of(*v, key@)),
{
    match v.get(key) {
        Some(Loose::List(items)) => Color {
            r: component_at_index(items, 0),
            g: component_at_index(items, 1),
            b: component_at_index(items, 2),
        },
        _ => Color { r: 0, g: 0, b: 0 },
    }
}

/// Reads settings, replacing each malformed or out-of-range field by its default.
pub fn fix_settings(broken: &Loose) -> (r: Settings)
    ensures
        r@ == settings_from(*broken),
{
    let scale = match broken.get("scale") {
        Some(Loose::Number(n)) => if MIN_SCALE as i64 <= n.milli && n.milli <= MAX_SCALE as i64 {
            n.milli as u32
        } else {
            DEFAULT_SCALE
        },
        _ => DEFAULT_SCALE,
    };
    Settings {
        output: text_field(broken, "output"),
        scale,
        light: flag_field(broken, "light", false),
        monitor: flag_field(broken, "monitor", true),
        peaks: flag_field(broken, "peaks", true),
    }
}

/// Settings whose scale is a number out of range load with the default scale,
/// and each other field of the right type loads unchanged.
pub proof fn lemma_out_of_range_scale_reset(v: Loose)
    requires
        field_of(v, "scale"@) matches Some(Loose::Number(n)) && !scale_in_range(n.milli as int),
    ensures
        settings_from(v).scale == DEFAULT_SCALE,
        field_of(v, "output"@) matches Some(Loose::Text(s)) ==> settings_from(v).output == s@,
        field_of(v, "light"@) matches Some(Loose::Bool(b)) ==> settings_from(v).light == b,
        field_of(v, "monitor"@) matches Some(Loose::Bool(b)) ==> settings_from(v).monitor == b,
        field_of(v, "peaks"@) matches Some(Loose::Bool(b)) ==> settings_from(v).peaks == b,
{
}

/// Reads a soundboard entry, replacing each malformed field by its default.
pub fn fix_soundeffect(broken: &Loose) -> (r: SoundboardEntry)
    ensures
        r@ == sound_from(*broken),
{
    SoundboardEntry {
        name: text_field(broken, "name"),
        icon: text_field(broken, "icon"),
        color: color_field(broken, "color"),
        sound: text_field(broken, "sound"),
        low_latency: flag_field(broken, "lowlatency", false),
    }
}

/// Reads a channel, replacing each malformed or out-of-range field by its default.
pub fn fix_channel(broken: &Loose) -> (r: Channel)
    ensures
        r@ == channel_from(*broken),
{
    let gain = match broken.get("volume") {
        Some(Loose::Number(n)) => if 0 <= n.milli && n.milli <= u32::MAX as i64 {
            n.milli as u32
        } else {
            UNITY_GAIN
        },
        _ => UNITY_GAIN,
    };
    let source_kind = if flag_field(broken, "deviceorapp", false) {
        SourceKind::Device
    } else {
        SourceKind::Application
    };
    Channel {
        name: text_field(broken, "name"),
        icon: text_field(broken, "icon"),
        color: color_field(broken, "color"),
        source_id: text_field(broken, "device"),
        source_kind,
        low_latency: flag_field(broken, "lowlatency", false),
        gain,
    }
}

fn fix_soundeffects(items: &Vec<Loose>) -> (r: Vec<SoundboardEntry>)
    ensures
        sounds_view(r@) == items@.map_values(|x: Loose| sound_from(x)),
{
    let mut r: Vec<SoundboardEntry> = Vec::new();
    let mut i: usize = 0;
    while i < items.len()
        invariant
            i <= items.len(),
            r@.len() == i,
            forall|k: int| 0 <= k < i ==> (#[trigger] r@[k])@ == sound_from(items@[k]),
        decreases items.len() - i,
    {
        r.push(fix_soundeffect(&items[i]));
        i += 1;
    }
    assert(sounds_view(r@) =~= items@.map_values(|x: Loose| sound_from(x)));
    r
}

fn fix_channels(items: &Vec<Loose>) -> (r: Vec<Channel>)
    ensures
        channels_view(r@) == items@.map_values(|x: Loose| channel_from(x)),
{
    let mut r: Vec<Channel> = Vec::new();
    let mut i: usize = 0;
    while i < items.len()
        invariant
            i <= items.len(),
            r@.len() == i,
            forall|k: int| 0 <= k < i ==> (#[trigger] r@[k])@ == channel_from(items@[k]),
        decreases items.len() - i,
    {
        r.push(fix_channel(&items[i]));
        i += 1;
    }
    assert(channels_view(r@) =~= items@.map_values(|x: Loose| channel_from(x)));
    r
}

/// Reads a whole document: settings, soundboard and channels are each repaired,
/// and a missing or malformed part becomes its default.
pub fn fix_file(broken: &Loose) -> (r: Document)
    ensures
        r@ == document_from(*broken),
{
    let settings = match broken.get("settings") {
        Some(s) => fix_settings(s),
        None => Settings::defaults(),
    };
    let soundboard = match broken.get("soundboard") {
        Some(Loose::List(items)) => fix_soundeffects(items),
        _ => Vec::new(),
    };
    let channels = match broken.get("channels") {
        Some(Loose::List(items)) => fix_channels(items),
        _ => Vec::new(),
    };
    assert(sounds_view(soundboard@) =~= document_from(*broken).soundboard);
    assert(channels_view(channels@) =~= document_from(*broken).channels);
    Document { soundboard, channels, settings }
}

/// The document that a load yields: the empty document where nothing could be
/// parsed, else the repaired one.
pub fn load_document(parsed: Option<Loose>) -> (r: Document)
    ensures
        parsed is None ==> r@.soundboard.len() == 0 && r@.channels.len() == 0 && r@.settings
            == default_settings(),
        parsed is Some ==> r@ == document_from(parsed.unwrap()),
{
    match parsed {
        Some(v) => fix_file(&v),
        None => Document::empty(),
    }
}

/// Settings as they read back after a write: an out-of-range scale reads as the default.
pub open spec fn stored_settings(s: SettingsView) -> SettingsView {
    SettingsView {
        output: s.output,
        scale: if scale_in_range(s.scale as int) {
            s.scale
        } else {
            DEFAULT_SCALE
        },
        light: s.light,
        monitor: s.monitor,
        peaks: s.peaks,
    }
}

pub broadcast proof fn lemma_member_push(ms: Seq<Member>, m: Member, key: Seq<char>)
    ensures
        #[trigger] member_value(ms.push(m), key) == if m.key@ == key {
            Some(m.value)
        } else {
            member_value(ms, key)
        },
{
    assert(ms.push(m).drop_last() =~= ms);
}

fn member(key: &str, value: Loose) -> (r: Member)
    ensures
        r.key@ == key@,
        r.value == value,
{
    Member { key: key.to_owned(), value }
}

fn color_value(c: Color) -> (r: Loose)
    ensures
        color_or_black(Some(r)) == c,
{
    let mut items: Vec<Loose> = Vec::new();
    items.push(Loose::Number(Number { integer: Some(c.r as i64), milli: c.r as i64 * 1000 }));
    items.push(Loose::Number(Number { integer: Some(c.g as i64), milli: c.g as i64 * 1000 }));
    items.push(Loose::Number(Number { integer: Some(c.b as i64), milli: c.b as i64 * 1000 }));
    Loose::List(items)
}

/// Writes settings as a document value.
pub fn settings_value(s: &Settings) -> (r: Loose)
    ensures
        settings_from(r) == stored_settings(s@),
{
    broadcast use lemma_member_push;
    proof {
        reveal_strlit("output");
        assert("output"@.len() == 6 && "output"@[0] == 'o');
        reveal_strlit("scale");
        assert("scale"@.len() == 5 && "scale"@[0] == 's');
        reveal_strlit("light");
        assert("light"@.len() == 5 && "light"@[0] == 'l');
        reveal_strlit("monitor");
        assert("monitor"@.len() == 7 && "monitor"@[0] == 'm');
        reveal_strlit("peaks");
        assert("peaks"@.len() == 5 && "peaks"@[0] == 'p');
    }
    let mut ms: Vec<Member> = Vec::new();
    ms.push(member("output", Loose::Text(s.output.clone())));
    ms.push(member("scale", Loose::Number(Number { integer: None, milli: s.scale as i64 })));
    ms.push(member("light", Loose::Bool(s.light)));
    ms.push(member("monitor", Loose::Bool(s.monitor)));
    ms.push(member("peaks", Loose::Bool(s.peaks)));
    Loose::Object(ms)
}

/// Writes a soundboard entry as a document value.
pub fn sound_value(e: &SoundboardEntry) -> (r: Loose)
    ensures
        sound_from(r) == e@,
{
    broadcast use lemma_member_push;
    proof {
        reveal_strlit("name");
        assert("name"@.len() == 4 && "name"@[0] == 'n');
        reveal_strlit("icon");
        assert("icon"@.len() == 4 && "icon"@[0] == 'i');
        reveal_strlit("color");
        assert("color"@.len() == 5 && "color"@[0] == 'c');
        reveal_strlit("sound");
        assert("sound"@.len() == 5 && "sound"@[0] == 's');
        reveal_strlit("lowlatency");
        assert("lowlatency"@.len() == 10 && "lowlatency"@[0] == 'l');
    }
    let mut ms: Vec<Member> = Vec::new();
    ms.push(member("name", Loose::Text(e.name.clone())));
    ms.push(member("icon", Loose::Text(e.icon.clone())));
    ms.push(member("color", color_value(e.color)));
    ms.push(member("sound", Loose::Text(e.sound.clone())));
    ms.push(member("lowlatency", Loose::Bool(e.low_latency)));
    Loose::Object(ms)
}

/// Writes a channel as a document value.
pub fn channel_value(c: &Channel) -> (r: Loose)
    ensures
        channel_from(r) == c@,
{
    broadcast use lemma_member_push;
    proof {
        reveal_strlit("name");
        assert("name"@.len() == 4 && "name"@[0] == 'n');
        reveal_strlit("icon");
        assert("icon"@.len() == 4 && "icon"@[0] == 'i');
        reveal_strlit("color");
        assert("color"@.len() == 5 && "color"@[0] == 'c');
        reveal_strlit("device");
        assert("device"@.len() == 6 && "device"@[0] == 'd');
        reveal_strlit("deviceorapp");
        assert("deviceorapp"@.len() == 11 && "deviceorapp"@[0] == 'd');
        reveal_strlit("lowlatency");
        assert("lowlatency"@.len() == 10 && "lowlatency"@[0] == 'l');
        reveal_strlit("volume");
        assert("volume"@.len() == 6 && "volume"@[0] == 'v');
    }
    let mut ms: Vec<Member> = Vec::new();
    ms.push(member("name", Loose::Text(c.name.clone())));
    ms.push(member("icon", Loose::Text(c.icon.clone())));
    ms.push(member("color", color_value(c.color)));
    ms.push(member("device", Loose::Text(c.source_id.clone())));
    ms.push(member("deviceorapp", Loose::Bool(c.source_kind == SourceKind::Device)));
    ms.push(member("lowlatency", Loose::Bool(c.low_latency)));
    ms.push(member("volume", Loose::Number(Number { integer: None, milli: c.gain as i64 })));
    Loose::Object(ms)
}

fn soundboard_values(v: &Vec<SoundboardEntry>) -> (r: Vec<Loose>)
    ensures
        r@.map_values(|x: Loose| sound_from(x)) == sounds_view(v@),
{
    let mut r: Vec<Loose> = Vec::new();
    let mut i: usize = 0;
    while i < v.len()
        invariant
            i <= v.len(),
            r@.len() == i,
            forall|k: int| 0 <= k < i ==> sound_from(#[trigger] r@[k]) == v@[k]@,
        decreases v.len() - i,
    {
        r.push(sound_value(&v[i]));
        i += 1;
    }
    assert(r@.map_values(|x: Loose| sound_from(x)) =~= sounds_view(v@));
    r
}

fn channel_values(v: &Vec<Channel>) -> (r: Vec<Loose>)
    ensures
        r@.map_values(|x: Loose| channel_from(x)) == channels_view(v@),
{
    let mut r: Vec<Loose> = Vec::new();
    let mut i: usize = 0;
    while i < v.len()
        invariant
            i <= v.len(),
            r@.len() == i,
            forall|k: int| 0 <= k < i ==> channel_from(#[trigger] r@[k]) == v@[k]@,
        decreases v.len() - i,
    {
        r.push(channel_value(&v[i]));
        i += 1;
    }
    assert(r@.map_values(|x: Loose| channel_from(x)) =~= channels_view(v@));
    r
}

/// Writes a whole document as a document value. What is written reads back as
/// the same document, but for an out-of-range scale, which reads as the default.
pub fn document_value(d: &Document) -> (r: Loose)
    ensures
        document_from(r) == (DocumentView {
            soundboard: d@.soundboard,
            channels: d@.channels,
            settings: stored_settings(d@.settings),
        }),
{
    broadcast use lemma_member_push;
    proof {
        reveal_strlit("soundboard");
        assert("soundboard"@.len() == 10 && "soundboard"@[0] == 's');
        reveal_strlit("channels");
        assert("channels"@.len() == 8 && "channels"@[0] == 'c');
        reveal_strlit("settings");
        assert("settings"@.len() == 8 && "settings"@[0] == 's');
    }
    let mut ms: Vec<Member> = Vec::new();
    let sounds = soundboard_values(&d.soundboard);
    let chans = channel_values(&d.channels);
    let settings = settings_value(&d.settings);
    ms.push(member("soundboard", Loose::List(sounds)));
    ms.push(member("channels", Loose::List(chans)));
    ms.push(member("settings", settings));
    Loose::Object(ms)
}

/// A document whose settings are valid reads back, after a write, exactly as it was.
pub proof fn lemma_write_then_read(d: DocumentView, written: Loose)
    requires
        d.settings.valid(),
        document_from(written) == (DocumentView {
            soundboard: d.soundboard,
            channels: d.channels,
            settings: stored_settings(d.settings),
        }),
    ensures
        document_from(written) == d,
{
}

} // verus!
