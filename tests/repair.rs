use vice::loose::{Loose, Member, Number};
use vice::model::{Channel, Color, Document, Settings, SoundboardEntry, SourceKind};
use vice::repair::{
    channel_value, document_value, fix_channel, fix_file, fix_settings, fix_soundeffect, load_document,
    settings_value,
};

fn text(s: &str) -> Loose {
    Loose::Text(s.to_string())
}

fn whole(i: i64) -> Loose {
    Loose::Number(Number { integer: Some(i), milli: i.saturating_mul(1000) })
}

fn fraction(milli: i64) -> Loose {
    Loose::Number(Number { integer: None, milli })
}

fn object(members: Vec<(&str, Loose)>) -> Loose {
    Loose::Object(members.into_iter().map(|(k, v)| Member { key: k.to_string(), value: v }).collect())
}

#[test]
fn out_of_range_scale_becomes_default_and_keeps_other_fields() {
    let doc = object(vec![
        ("output", text("Speakers")),
        ("scale", whole(5)),
        ("light", Loose::Bool(true)),
        ("monitor", Loose::Bool(false)),
        ("peaks", Loose::Bool(false)),
    ]);
    let s = fix_settings(&doc);
    assert_eq!(s.scale, 1000);
    assert_eq!(s.output, "Speakers");
    assert!(s.light);
    assert!(!s.monitor);
    assert!(!s.peaks);
}

#[test]
fn scale_in_range_is_kept() {
    let s = fix_settings(&object(vec![("scale", fraction(1500))]));
    assert_eq!(s.scale, 1500);
    let low = fix_settings(&object(vec![("scale", fraction(100))]));
    assert_eq!(low.scale, 100);
    let too_low = fix_settings(&object(vec![("scale", fraction(99))]));
    assert_eq!(too_low.scale, 1000);
    let high = fix_settings(&object(vec![("scale", fraction(2000))]));
    assert_eq!(high.scale, 2000);
}

#[test]
fn malformed_settings_fields_take_defaults() {
    let doc = object(vec![("output", whole(3)), ("scale", text("big")), ("light", text("yes"))]);
    let s = fix_settings(&doc);
    assert_eq!(s.output, "");
    assert_eq!(s.scale, 1000);
    assert!(!s.light);
    assert!(s.monitor);
    assert!(s.peaks);
    let not_object = fix_settings(&Loose::Null);
    assert_eq!(not_object.scale, 1000);
    assert!(not_object.monitor);
}

#[test]
fn color_components_are_clamped_and_padded() {
    let e = fix_soundeffect(&object(vec![
        ("name", text("Horn")),
        ("color", Loose::List(vec![whole(300), whole(-5), whole(7), whole(9)])),
        ("sound", text("horn.wav")),
        ("lowlatency", Loose::Bool(true)),
    ]));
    assert_eq!(e.color, Color { r: 255, g: 0, b: 7 });
    assert_eq!(e.name, "Horn");
    assert_eq!(e.sound, "horn.wav");
    assert!(e.low_latency);
    let short = fix_soundeffect(&object(vec![("color", Loose::List(vec![whole(12)]))]));
    assert_eq!(short.color, Color { r: 12, g: 0, b: 0 });
    let fractional = fix_soundeffect(&object(vec![("color", Loose::List(vec![fraction(3500), text("x"), whole(255)]))]));
    assert_eq!(fractional.color, Color { r: 0, g: 0, b: 255 });
}

#[test]
fn channel_fields_are_repaired_one_by_one() {
    let c = fix_channel(&object(vec![
        ("name", text("Mic1")),
        ("icon", text("mic")),
        ("color", Loose::List(vec![whole(1), whole(2), whole(3)])),
        ("device", text("USB Mic")),
        ("deviceorapp", Loose::Bool(true)),
        ("lowlatency", Loose::Bool(true)),
        ("volume", fraction(750)),
    ]));
    assert_eq!(c.name, "Mic1");
    assert_eq!(c.icon, "mic");
    assert_eq!(c.color, Color { r: 1, g: 2, b: 3 });
    assert_eq!(c.source_id, "USB Mic");
    assert_eq!(c.source_kind, SourceKind::Device);
    assert!(c.low_latency);
    assert_eq!(c.gain, 750);
    let broken = fix_channel(&object(vec![("volume", fraction(-250)), ("deviceorapp", whole(1))]));
    assert_eq!(broken.gain, 1000);
    let missing = fix_channel(&object(vec![("name", text("B"))]));
    assert_eq!(missing.gain, 1000);
    let huge = fix_channel(&object(vec![("volume", fraction(5_000_000_000))]));
    assert_eq!(huge.gain, 1000);
    assert_eq!(broken.source_kind, SourceKind::Application);
    assert_eq!(broken.name, "");
}

#[test]
fn later_duplicate_key_wins() {
    let s = fix_settings(&object(vec![("light", Loose::Bool(false)), ("light", Loose::Bool(true))]));
    assert!(s.light);
}

#[test]
fn missing_parts_of_a_document_become_empty() {
    let d = fix_file(&object(vec![("soundboard", text("oops"))]));
    assert!(d.soundboard.is_empty());
    assert!(d.channels.is_empty());
    assert_eq!(d.settings.scale, 1000);
    let d2 = fix_file(&object(vec![("channels", Loose::List(vec![object(vec![("name", text("A"))]), Loose::Null]))]));
    assert_eq!(d2.channels.len(), 2);
    assert_eq!(d2.channels[0].name, "A");
    assert_eq!(d2.channels[1].name, "");
    let none = load_document(None);
    assert!(none.channels.is_empty());
    assert!(none.settings.monitor);
}

fn sample_document() -> Document {
    Document {
        soundboard: vec![SoundboardEntry {
            name: "Horn".to_string(),
            icon: "bell".to_string(),
            color: Color { r: 10, g: 20, b: 30 },
            sound: "/tmp/horn.wav".to_string(),
            low_latency: true,
        }],
        channels: vec![Channel {
            name: "Mic1".to_string(),
            icon: "mic".to_string(),
            color: Color { r: 255, g: 0, b: 128 },
            source_id: "USB Mic".to_string(),
            source_kind: SourceKind::Device,
            low_latency: false,
            gain: 500,
        }],
        settings: Settings { output: "Speakers".to_string(), scale: 1250, light: true, monitor: false, peaks: true },
    }
}

#[test]
fn written_document_reads_back_unchanged() {
    let d = sample_document();
    let back = fix_file(&document_value(&d));
    assert_eq!(back.settings.output, "Speakers");
    assert_eq!(back.settings.scale, 1250);
    assert!(back.settings.light);
    assert!(!back.settings.monitor);
    assert_eq!(back.channels.len(), 1);
    assert_eq!(back.channels[0].name, "Mic1");
    assert_eq!(back.channels[0].color, Color { r: 255, g: 0, b: 128 });
    assert_eq!(back.channels[0].source_kind, SourceKind::Device);
    assert_eq!(back.channels[0].gain, 500);
    assert_eq!(back.soundboard.len(), 1);
    assert_eq!(back.soundboard[0].sound, "/tmp/horn.wav");
    assert_eq!(back.soundboard[0].color, Color { r: 10, g: 20, b: 30 });
}

#[test]
fn written_out_of_range_scale_reads_back_as_default() {
    let s = Settings { output: String::new(), scale: 5000, light: false, monitor: true, peaks: true };
    assert_eq!(fix_settings(&settings_value(&s)).scale, 1000);
    let c = sample_document().channels.remove(0);
    let back = fix_channel(&channel_value(&c));
    assert_eq!(back.source_id, "USB Mic");
}
