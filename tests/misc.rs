use vice::catalog::{get_apps, inputs, outputs, play_sfx};
use vice::ipc::{decode_request, Request};
use vice::loose::{Loose, Member, Number};
use vice::model::{Color, Settings};
use vice::monitor::{change_bool, clear_data, PerformanceData, Sample};
use vice::server::{mime_type, route, Method, Route};
use vice::sounds::{accepted_extensions, extension_of, sound_file_candidates, sound_file_name};
use vice::updater::{helper_file_name, is_executable, new_helper_file_name, update_available};
use vice::ServerCommand;

fn object(members: Vec<(&str, Loose)>) -> Loose {
    Loose::Object(members.into_iter().map(|(k, v)| Member { key: k.to_string(), value: v }).collect())
}

fn whole(i: i64) -> Loose {
    Loose::Number(Number { integer: Some(i), milli: i.saturating_mul(1000) })
}

fn text(s: &str) -> Loose {
    Loose::Text(s.to_string())
}

#[test]
fn unnamed_devices_are_listed_as_unknown() {
    let out = outputs(vec![Some("Speakers".to_string()), None]);
    assert_eq!(out, vec!["Speakers".to_string(), "<Unknown>".to_string()]);
    assert!(inputs(Vec::new()).is_empty());
    assert_eq!(inputs(vec![None]), vec!["<Unknown>".to_string()]);
}

#[test]
fn application_names_lose_exe_suffix() {
    let apps = get_apps(vec!["chrome.exe".to_string(), "firefox".to_string(), ".exe".to_string(), "a.EXE".to_string()]);
    assert_eq!(apps, vec!["chrome".to_string(), "firefox".to_string(), String::new(), "a.EXE".to_string()]);
}

#[test]
fn soundboard_requests_are_independent() {
    let s = Settings { output: String::new(), scale: 1000, light: false, monitor: true, peaks: true };
    let a = play_sfx(&s, "a.wav", true);
    let b = play_sfx(&s, "b.wav", false);
    assert_eq!(a.file, "a.wav");
    assert_eq!(b.file, "b.wav");
    assert!(a.device.is_none());
    assert!(a.low_latency && !b.low_latency);
    let named = Settings { output: "Headset".to_string(), scale: 1000, light: false, monitor: true, peaks: true };
    assert_eq!(play_sfx(&named, "c.mp3", false).device.as_deref(), Some("Headset"));
}

#[test]
fn executables_by_extension() {
    assert!(is_executable("C:\\Program Files\\Vice\\Vice.exe"));
    assert!(is_executable("Vice.EXE"));
    assert!(!is_executable(".exe"));
    assert!(!is_executable("dir/.exe"));
    assert!(!is_executable("a.exe.bak"));
    assert!(!is_executable("vice"));
}

#[test]
fn release_tags_against_running_version() {
    assert!(!update_available("v1.2.0", "1.2.0"));
    assert!(update_available("v1.3.0", "1.2.0"));
    assert!(update_available("", "1.2.0"));
}

#[test]
fn helper_names() {
    assert_eq!(helper_file_name("abc"), "Vice-Uninstaller-abc.exe");
    let fresh = new_helper_file_name();
    assert_eq!(fresh.chars().count(), 57);
    assert!(fresh.starts_with("Vice-Uninstaller-"));
    assert!(fresh.ends_with(".exe"));
    assert_eq!(fresh.chars().nth(25), Some('-'));
    assert_ne!(fresh, new_helper_file_name());
    let id: Vec<char> = fresh.chars().skip(17).take(36).collect();
    for (i, c) in id.iter().enumerate() {
        if [8, 13, 18, 23].contains(&i) {
            assert_eq!(*c, '-');
        } else {
            assert!(c.is_ascii_digit() || ('a'..='f').contains(c));
        }
    }
}

#[test]
fn extensions_of_sound_paths() {
    assert_eq!(extension_of("C:\\sounds\\horn.wav").as_deref(), Some("wav"));
    assert_eq!(extension_of("/home/a/b.tar.flac").as_deref(), Some("flac"));
    assert_eq!(extension_of("/home/a.dir/noext"), None);
    assert_eq!(extension_of("/home/a/.hidden"), None);
    assert_eq!(extension_of(".."), None);
    assert_eq!(extension_of("trailing."), Some(String::new()));
    assert_eq!(extension_of(""), None);
}

#[test]
fn sound_file_names() {
    assert_eq!(sound_file_name("/sfx/Horn", "mp3"), "/sfx/Horn.mp3");
    assert_eq!(accepted_extensions(), vec!["wav", "mp3", "wma", "aac", "m4a", "flac"]);
    let c = sound_file_candidates("/sfx/Horn");
    assert_eq!(
        c,
        vec!["/sfx/Horn.wav", "/sfx/Horn.mp3", "/sfx/Horn.wma", "/sfx/Horn.aac", "/sfx/Horn.m4a", "/sfx/Horn.flac"]
    );
}

#[test]
fn requests_are_routed() {
    assert!(matches!(route(Method::Post, "/ipc"), Route::Ipc));
    assert!(matches!(route(Method::Get, "/webview"), Route::Window(ServerCommand::CreateWindow)));
    match route(Method::Get, "/") {
        Route::Asset(p) => assert_eq!(p, "index.html"),
        _ => panic!("root is an asset"),
    }
    match route(Method::Get, "/main.dart.js") {
        Route::Asset(p) => assert_eq!(p, "main.dart.js"),
        _ => panic!("a file is an asset"),
    }
    match route(Method::Get, "/ipc") {
        Route::Asset(p) => assert_eq!(p, "ipc"),
        _ => panic!("a get of /ipc is an asset"),
    }
}

#[test]
fn content_types_by_extension() {
    assert_eq!(mime_type("main.dart.js"), "application/javascript");
    assert_eq!(mime_type("index.html"), "text/html");
    assert_eq!(mime_type("fonts/a.woff2"), "font/woff2");
    assert_eq!(mime_type("css"), "text/css");
    assert_eq!(mime_type("image.png"), "application/octet-stream");
}

#[test]
fn new_channel_call_is_decoded() {
    let args = object(vec![
        ("color", Loose::List(vec![whole(257), whole(-1), whole(5)])),
        ("icon", text("mic")),
        ("name", text("Mic1")),
        ("deviceapps", text("USB Mic")),
        ("device", Loose::Bool(true)),
        ("low", Loose::Bool(false)),
    ]);
    match decode_request("new_channel", &args) {
        Some(Request::NewChannel { color, icon, name, deviceapps, device, low }) => {
            assert_eq!(color, Color { r: 255, g: 0, b: 5 });
            assert_eq!(icon, "mic");
            assert_eq!(name, "Mic1");
            assert_eq!(deviceapps, "USB Mic");
            assert!(device);
            assert!(!low);
        },
        other => panic!("unexpected {:?}", other),
    }
}

#[test]
fn malformed_calls_decode_to_nothing_and_long_colors_are_cut() {
    let missing = object(vec![("name", text("Mic1"))]);
    assert!(decode_request("new_channel", &missing).is_none());
    assert!(decode_request("no_such_command", &Loose::Null).is_none());
    let four = object(vec![
        ("color", Loose::List(vec![whole(1), whole(2), whole(3), whole(4)])),
        ("icon", text("i")),
        ("name", text("n")),
        ("sound", text("s")),
        ("low", Loose::Bool(true)),
    ]);
    assert!(decode_request("delete_channel", &Loose::Null).is_none());
    match decode_request("new_sound", &four) {
        Some(Request::NewSound { color, .. }) => assert_eq!(color, Color { r: 1, g: 2, b: 3 }),
        other => panic!("unexpected {:?}", other),
    }
    assert!(decode_request("delete_channel", &object(vec![("name", whole(3))])).is_none());
}

#[test]
fn simple_calls_are_decoded() {
    assert!(matches!(decode_request("get_channels", &Loose::Null), Some(Request::GetChannels)));
    let vol = object(vec![("name", text("Game")), ("volume", Loose::Number(Number { integer: None, milli: 500 }))]);
    match decode_request("set_volume", &vol) {
        Some(Request::SetVolume { name, volume }) => {
            assert_eq!(name, "Game");
            assert_eq!(volume, 500);
        },
        other => panic!("unexpected {:?}", other),
    }
    match decode_request("delete_sound", &object(vec![("name", text("Horn"))])) {
        Some(Request::DeleteSound { name }) => assert_eq!(name, "Horn"),
        other => panic!("unexpected {:?}", other),
    }
}

fn sample(x: u64) -> Sample {
    Sample { system_cpu: x, system_mem: x + 1, app_cpu: x + 2, app_mem: x + 3, total_mem: 16000 }
}

#[test]
fn histories_keep_the_last_ten_readings() {
    let mut data = PerformanceData::new();
    for x in 0..12u64 {
        data.record(sample(x));
    }
    assert_eq!(data.system.cpu, (2..12).collect::<Vec<u64>>());
    assert_eq!(data.app.mem, (5..15).collect::<Vec<u64>>());
    assert_eq!(data.total_mem, Some(16000));
    clear_data(&mut data);
    assert!(data.system.cpu.is_empty() && data.app.cpu.is_empty());
    assert_eq!(data.total_mem, None);
}

#[test]
fn sampler_switch_starts_only_from_off() {
    let mut running = true;
    assert!(!change_bool(&mut running, true));
    assert!(!change_bool(&mut running, false));
    assert!(!running);
    assert!(change_bool(&mut running, true));
    assert!(running);
}
