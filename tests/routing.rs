use vice::control::{
    delete_channel, delete_sound, edit_channel, edit_soundboard, get_channels, get_settings, get_soundboard,
    get_volume, new_channel, new_sound, save_channels, save_settings, save_soundboard, set_volume, RegistryError,
};
use vice::engine::{RoutingEngine, StartOutcome, WorkerPlan};
use vice::model::{Channel, Color, Document, Settings, SourceKind};

fn channel(name: &str, source: &str, kind: SourceKind, gain: u32) -> Channel {
    Channel {
        name: name.to_string(),
        icon: String::new(),
        color: Color { r: 0, g: 0, b: 0 },
        source_id: source.to_string(),
        source_kind: kind,
        low_latency: false,
        gain,
    }
}

fn registry() -> Document {
    let mut d = Document::empty();
    d.channels.push(channel("Mic1", "USB Mic", SourceKind::Device, 800));
    d.channels.push(channel("Game", "game.exe", SourceKind::Application, 1000));
    d.channels.push(channel("Line", "", SourceKind::Device, 250));
    d
}

fn plans(outcome: StartOutcome) -> Vec<WorkerPlan> {
    match outcome {
        StartOutcome::Started(p) => p,
        StartOutcome::AlreadyRunning => panic!("engine was running"),
    }
}

#[test]
fn start_plans_one_worker_per_channel() {
    let doc = registry();
    let mut engine = RoutingEngine::new();
    let p = plans(engine.start(&doc.channels, &"Speakers".to_string()));
    assert_eq!(p.len(), 3);
    let names: Vec<&str> = p.iter().map(|w| w.channel.as_str()).collect();
    assert_eq!(names, vec!["Mic1", "Game", "Line"]);
    assert!(p.iter().all(|w| w.generation == 1));
    assert_eq!(p[0].source_id.as_deref(), Some("USB Mic"));
    assert_eq!(p[1].source_kind, SourceKind::Application);
    assert_eq!(p[1].source_id.as_deref(), Some("game.exe"));
    assert_eq!(p[2].source_id, None);
    assert_eq!(p[0].output.as_deref(), Some("Speakers"));
    assert_eq!(engine.volume("Mic1"), Some(800));
    assert_eq!(engine.volume("Line"), Some(250));
    assert!(engine.is_running());
}

#[test]
fn empty_registry_starts_no_worker() {
    let mut engine = RoutingEngine::new();
    let p = plans(engine.start(&Vec::new(), &String::new()));
    assert!(p.is_empty());
    assert!(engine.is_running());
}

#[test]
fn empty_output_selects_default_device() {
    let doc = registry();
    let mut engine = RoutingEngine::new();
    let p = plans(engine.start(&doc.channels, &String::new()));
    assert!(p.iter().all(|w| w.output.is_none()));
}

#[test]
fn second_start_is_refused() {
    let doc = registry();
    let mut engine = RoutingEngine::new();
    plans(engine.start(&doc.channels, &String::new()));
    assert!(matches!(engine.start(&doc.channels, &String::new()), StartOutcome::AlreadyRunning));
    assert_eq!(engine.generation(), 1);
}

#[test]
fn restart_stops_prior_generation_before_next_start() {
    let doc = registry();
    let mut engine = RoutingEngine::new();
    let first = plans(engine.start(&doc.channels, &String::new()));
    assert_eq!(engine.cycle(&first[0]), Some(800));
    engine.begin_restart();
    assert!(!engine.keeps_running(1));
    assert_eq!(engine.cycle(&first[0]), None);
    assert_eq!(engine.volume("Mic1"), None);
    let second = plans(engine.start(&doc.channels, &String::new()));
    assert!(second.iter().all(|w| w.generation == 2));
    assert_eq!(engine.cycle(&first[0]), None);
    assert_eq!(engine.cycle(&second[0]), Some(800));
    assert!(engine.keeps_running(2));
}

#[test]
fn volume_change_applies_at_next_cycle() {
    let mut doc = registry();
    let mut engine = RoutingEngine::new();
    let p = plans(engine.start(&doc.channels, &String::new()));
    assert_eq!(set_volume(&mut doc, &mut engine, "Game", 500), Ok(()));
    assert_eq!(get_volume(&engine, "Game"), Some(500));
    assert_eq!(engine.cycle(&p[1]), Some(500));
    assert_eq!(doc.channels[1].gain, 500);
    assert!(engine.is_running());
    assert_eq!(engine.generation(), 1);
}

#[test]
fn volume_of_unknown_channel_is_refused() {
    let mut doc = registry();
    let mut engine = RoutingEngine::new();
    plans(engine.start(&doc.channels, &String::new()));
    assert_eq!(set_volume(&mut doc, &mut engine, "Nope", 500), Err(RegistryError::ChannelNotFound));
    assert_eq!(get_volume(&engine, "Nope"), None);
    assert_eq!(doc.channels.len(), 3);
}

#[test]
fn deleting_a_channel_removes_it_and_restarts_once() {
    let mut doc = registry();
    let mut engine = RoutingEngine::new();
    let old = plans(engine.start(&doc.channels, &String::new()));
    assert_eq!(delete_channel(&mut doc, &mut engine, "Mic1"), Ok(()));
    let names: Vec<&str> = doc.channels.iter().map(|c| c.name.as_str()).collect();
    assert_eq!(names, vec!["Game", "Line"]);
    assert!(!engine.is_running());
    assert_eq!(engine.cycle(&old[0]), None);
    let new = plans(engine.start(&doc.channels, &String::new()));
    assert!(new.iter().all(|w| w.channel != "Mic1"));
    assert_eq!(new.len(), 2);
}

#[test]
fn deleting_an_unknown_channel_changes_nothing() {
    let mut doc = registry();
    let mut engine = RoutingEngine::new();
    plans(engine.start(&doc.channels, &String::new()));
    assert_eq!(delete_channel(&mut doc, &mut engine, "Mic9"), Err(RegistryError::ChannelNotFound));
    assert_eq!(doc.channels.len(), 3);
    assert!(engine.is_running());
}

#[test]
fn new_and_edited_channels_start_at_unity_gain() {
    let mut doc = registry();
    let mut engine = RoutingEngine::new();
    plans(engine.start(&doc.channels, &String::new()));
    let added = new_channel(
        &mut doc,
        &mut engine,
        Color { r: 1, g: 2, b: 3 },
        "icon".to_string(),
        "Music".to_string(),
        "spotify".to_string(),
        false,
        true,
    );
    assert_eq!(added, Ok(()));
    assert_eq!(doc.channels.len(), 4);
    assert_eq!(doc.channels[3].gain, 1000);
    assert_eq!(doc.channels[3].source_kind, SourceKind::Application);
    assert!(!engine.is_running());
    let r = edit_channel(
        &mut doc,
        &mut engine,
        Color { r: 0, g: 0, b: 0 },
        "i".to_string(),
        "Mic2".to_string(),
        "Other Mic".to_string(),
        true,
        "Mic1".to_string(),
        false,
    );
    assert_eq!(r, Ok(()));
    assert_eq!(doc.channels[0].name, "Mic2");
    assert_eq!(doc.channels[0].gain, 1000);
    let missing = edit_channel(
        &mut doc,
        &mut engine,
        Color { r: 0, g: 0, b: 0 },
        String::new(),
        String::new(),
        String::new(),
        true,
        "Mic1".to_string(),
        false,
    );
    assert_eq!(missing, Err(RegistryError::ChannelNotFound));
}

#[test]
fn soundboard_changes_leave_routes_alone() {
    let mut doc = registry();
    assert_eq!(
        new_sound(&mut doc, Color { r: 9, g: 9, b: 9 }, "i".to_string(), "Horn".to_string(), "horn.wav".to_string(), false),
        Ok(())
    );
    assert_eq!(
        new_sound(&mut doc, Color { r: 9, g: 9, b: 9 }, "i".to_string(), "X".to_string(), "/dir.d/horn".to_string(), false),
        Err(RegistryError::NoExtension)
    );
    assert_eq!(get_soundboard(&doc).len(), 1);
    assert_eq!(
        edit_soundboard(
            &mut doc,
            Color { r: 0, g: 0, b: 0 },
            "j".to_string(),
            "Bell".to_string(),
            "bell.wav".to_string(),
            "Horn".to_string(),
            true
        ),
        Ok(())
    );
    assert_eq!(doc.soundboard[0].name, "Bell");
    assert_eq!(
        edit_soundboard(
            &mut doc,
            Color { r: 0, g: 0, b: 0 },
            String::new(),
            String::new(),
            String::new(),
            "Horn".to_string(),
            true
        ),
        Err(RegistryError::SoundNotFound)
    );
    assert_eq!(delete_sound(&mut doc, "Horn"), Err(RegistryError::SoundNotFound));
    assert_eq!(delete_sound(&mut doc, "Bell"), Ok(()));
    assert!(doc.soundboard.is_empty());
    save_soundboard(&mut doc, Vec::new());
    assert!(get_soundboard(&doc).is_empty());
}

#[test]
fn saved_settings_read_back() {
    let mut doc = registry();
    let mut engine = RoutingEngine::new();
    plans(engine.start(&doc.channels, &String::new()));
    let s = Settings { output: "Headset".to_string(), scale: 1500, light: true, monitor: false, peaks: false };
    assert!(save_settings(&mut doc, &mut engine, s));
    let back = get_settings(&doc);
    assert_eq!(back.output, "Headset");
    assert_eq!(back.scale, 1500);
    assert!(back.light);
    assert!(!back.monitor);
    assert!(!back.peaks);
    assert!(!engine.is_running());
}

#[test]
fn settings_with_same_output_do_not_restart() {
    let mut doc = registry();
    let mut engine = RoutingEngine::new();
    plans(engine.start(&doc.channels, &String::new()));
    let s = Settings { output: String::new(), scale: 800, light: false, monitor: true, peaks: true };
    assert!(!save_settings(&mut doc, &mut engine, s));
    assert!(engine.is_running());
    assert_eq!(get_settings(&doc).scale, 800);
}

#[test]
fn channels_copy_and_replace() {
    let mut doc = registry();
    let copy = get_channels(&doc);
    assert_eq!(copy.len(), 3);
    assert_eq!(copy[2].gain, 250);
    save_channels(&mut doc, vec![channel("Only", "x", SourceKind::Device, 1)]);
    assert_eq!(doc.channels.len(), 1);
}

#[test]
fn duplicate_channel_names_are_refused() {
    let mut doc = registry();
    let mut engine = RoutingEngine::new();
    plans(engine.start(&doc.channels, &String::new()));
    let r = new_channel(
        &mut doc,
        &mut engine,
        Color { r: 0, g: 0, b: 0 },
        String::new(),
        "Game".to_string(),
        "x".to_string(),
        true,
        false,
    );
    assert_eq!(r, Err(RegistryError::DuplicateName));
    assert_eq!(doc.channels.len(), 3);
    assert!(engine.is_running());
    let renamed = edit_channel(
        &mut doc,
        &mut engine,
        Color { r: 0, g: 0, b: 0 },
        String::new(),
        "Game".to_string(),
        "x".to_string(),
        true,
        "Mic1".to_string(),
        false,
    );
    assert_eq!(renamed, Err(RegistryError::DuplicateName));
    assert_eq!(doc.channels[0].name, "Mic1");
    assert!(engine.is_running());
    let same = edit_channel(
        &mut doc,
        &mut engine,
        Color { r: 0, g: 0, b: 0 },
        String::new(),
        "Mic1".to_string(),
        "Other".to_string(),
        true,
        "Mic1".to_string(),
        false,
    );
    assert_eq!(same, Ok(()));
    assert_eq!(doc.channels[0].source_id, "Other");
}

#[test]
fn saved_out_of_range_scale_is_stored_as_default() {
    let mut doc = registry();
    let mut engine = RoutingEngine::new();
    let s = Settings { output: String::new(), scale: 5000, light: true, monitor: true, peaks: true };
    assert!(!save_settings(&mut doc, &mut engine, s));
    assert_eq!(get_settings(&doc).scale, 1000);
    assert!(get_settings(&doc).light);
}
