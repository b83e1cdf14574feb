use vice::engine::{RoutingEngine, StartOutcome};
use vice::mixer::{apply_gain, mix_into};
use vice::model::{Channel, Color, SourceKind};

#[test]
fn gain_scales_and_clips() {
    let mut block: Vec<i16> = vec![100, -100, 32767, 7];
    apply_gain(&mut block, 500);
    assert_eq!(block, vec![50, -50, 16383, 3]);
    let mut loud: Vec<i16> = vec![20000, -20000, 0];
    apply_gain(&mut loud, 3000);
    assert_eq!(loud, vec![32767, -32768, 0]);
    let mut same: Vec<i16> = vec![-5, 5];
    apply_gain(&mut same, 1000);
    assert_eq!(same, vec![-5, 5]);
}

#[test]
fn voices_are_summed_and_clipped() {
    let mut out: Vec<i16> = vec![1, 2];
    mix_into(&mut out, &vec![10, 20, 30]);
    assert_eq!(out, vec![11, 22, 30]);
    let mut hot: Vec<i16> = vec![30000, -30000];
    mix_into(&mut hot, &vec![10000, -10000]);
    assert_eq!(hot, vec![32767, -32768]);
}

#[test]
fn two_sound_effects_both_reach_the_output() {
    let mut out: Vec<i16> = vec![0; 4];
    let horn: Vec<i16> = vec![100, 200, 300, 400];
    let bell: Vec<i16> = vec![-50, 50];
    mix_into(&mut out, &horn);
    mix_into(&mut out, &bell);
    assert_eq!(out, vec![50, 250, 300, 400]);
}

#[test]
fn aborted_generation_stops_its_workers() {
    let channels = vec![Channel {
        name: "Mic1".to_string(),
        icon: String::new(),
        color: Color { r: 0, g: 0, b: 0 },
        source_id: String::new(),
        source_kind: SourceKind::Device,
        low_latency: true,
        gain: 1000,
    }];
    let mut engine = RoutingEngine::new();
    let plans = match engine.start(&channels, &"Broken".to_string()) {
        StartOutcome::Started(p) => p,
        StartOutcome::AlreadyRunning => panic!("engine was running"),
    };
    engine.abort_generation();
    assert_eq!(engine.cycle(&plans[0]), None);
    assert_eq!(engine.volume("Mic1"), Some(1000));
    assert!(matches!(engine.start(&channels, &String::new()), StartOutcome::Started(_)));
    assert_eq!(engine.generation(), 2);
}
