//! Device and application names as the control plane lists them, and the
//! request that plays one soundboard entry.
use vstd::prelude::*;
use vstd::string::*;
use crate::engine::named;
use crate::loose::same_text;
use crate::model::Settings;

verus! {

/// The name listed for a device that reports none.
pub open spec fn unknown_name() -> Seq<char> {
    "<Unknown>"@
}

pub open spec fn listed_name(n: Option<String>) -> Seq<char> {
    match n {
        Some(s) => s@,
        None => unknown_name(),
    }
}

fn device_names(names: Vec<Option<String>>) -> (r: Vec<String>)
    ensures
        r@.len() == names@.len(),
        forall|i: int| 0 <= i < r@.len() ==> (#[trigger] r@[i])@ == listed_name(names@[i]),
{
    let mut r: Vec<String> = Vec::new();
    let mut i: usize = 0;
    while i < names.len()
        invariant
            i <= names@.len(),
            r@.len() == i,
            forall|k: int| 0 <= k < i ==> (#[trigger] r@[k])@ == listed_name(names@[k]),
        decreases names.len() - i,
    {
        let n = match &names[i] {
            Some(s) => s.clone(),
            None => String::from_str("<Unknown>"),
        };
        r.push(n);
        i += 1;
    }
    r
}

/// The output devices to list, in the order the host reports them; a device
/// without a name is listed as `<Unknown>`. An empty report lists nothing.
pub fn outputs(names: Vec<Option<String>>) -> (r: Vec<String>)
    ensures
        r@.len() == names@.len(),
        forall|i: int| 0 <= i < r@.len() ==> (#[trigger] r@[i])@ == listed_name(names@[i]),
{
    device_names(names)
}

/// The input devices to list, in the order the host reports them; a device
/// without a name is listed as `<Unknown>`. An empty report lists nothing.
pub fn inputs(names: Vec<Option<String>>) -> (r: Vec<String>)
    ensures
        r@.len() == names@.len(),
        forall|i: int| 0 <= i < r@.len() ==> (#[trigger] r@[i])@ == listed_name(names@[i]),
{
    device_names(names)
}

pub open spec fn exe_suffix() -> Seq<char> {
    ".exe"@
}

/// An application's display name: its process name without a trailing `.exe`.
pub open spec fn app_name(process: Seq<char>) -> Seq<char> {
    if process.len() >= 4 && process.subrange(process.len() - 4, process.len() as int) == exe_suffix() {
        process.subrange(0, process.len() - 4)
    } else {
        process
    }
}

fn strip_exe(process: &str) -> (r: String)
    ensures
        r@ == app_name(process@),
{
    proof {
        reveal_strlit(".exe");
    }
    let n = process.unicode_len();
    if n >= 4 {
        let tail = process.substring_char(n - 4, n);
        if same_text(tail, ".exe") {
            return process.substring_char(0, n - 4).to_owned();
        }
    }
    process.to_owned()
}

/// The capturable applications to list: one name per process that owns a
/// visible window, with a trailing `.exe` removed.
pub fn get_apps(process_names: Vec<String>) -> (r: Vec<String>)
    ensures
        r@.len() == process_names@.len(),
        forall|i: int| 0 <= i < r@.len() ==> (#[trigger] r@[i])@ == app_name(process_names@[i]@),
{
    let mut r: Vec<String> = Vec::new();
    let mut i: usize = 0;
    while i < process_names.len()
        invariant
            i <= process_names@.len(),
            r@.len() == i,
            forall|k: int| 0 <= k < i ==> (#[trigger] r@[k])@ == app_name(process_names@[k]@),
        decreases process_names.len() - i,
    {
        r.push(strip_exe(process_names[i].as_str()));
        i += 1;
    }
    r
}

/// One playback of a sound file into the selected output.
#[derive(Debug)]
pub struct PlayRequest {
    pub file: String,
    /// The output device; `None` selects the system default.
    pub device: Option<String>,
    pub low_latency: bool,
}

/// The request that plays `file` into the output that `settings` select. It
/// reads no engine state: a restart neither waits for it nor stops it.
pub fn play_sfx(settings: &Settings, file: &str, low_latency: bool) -> (r: PlayRequest)
    ensures
        r.file@ == file@,
        crate::engine::text_view(r.device) == named(settings.output@),
        r.low_latency == low_latency,
{
    let device = if settings.output.as_str().is_empty() {
        None
    } else {
        Some(settings.output.clone())
    };
    PlayRequest { file: file.to_owned(), device, low_latency }
}

} // verus!
