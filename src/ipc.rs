//! Decoding of the interface's control-plane calls: a command name and an
//! object of arguments become one typed request, or none where the command is
//! unknown or an argument is missing or of the wrong type.
use vstd::prelude::*;
use crate::loose::{field_of, same_text, Loose};
use crate::model::Color;
use crate::repair::{component_at, component_at_index};

verus! {

/// One control-plane call with its arguments. Gains and scales are in thousandths.
#[derive(Debug)]
pub enum Request {
    GetSoundboard,
    GetChannels,
    NewChannel { color: Color, icon: String, name: String, deviceapps: String, device: bool, low: bool },
    NewSound { color: Color, icon: String, name: String, sound: String, low: bool },
    EditChannel {
        color: Color,
        icon: String,
        name: String,
        deviceapps: String,
        device: bool,
        oldname: String,
        low: bool,
    },
    EditSoundboard { color: Color, icon: String, name: String, sound: String, oldname: String, low: bool },
    DeleteChannel { name: String },
    DeleteSound { name: String },
    PickMenuSound,
    GetDevices,
    GetApps,
    SaveSettings { output: String, scale: u32, light: bool, monitor: bool, peaks: bool },
    GetPerformance,
    ClearPerformance,
    GetSettings,
    SetVolume { name: String, volume: u32 },
    GetOutputs,
    PlaySound { sound: String, low: bool },
    GetVolume { name: String, get: bool, device: bool },
    Uninstall,
    Update,
    Print { text: String },
    GetVersion,
    OpenLink { link: String },
}

pub open spec fn text_arg(args: Loose, key: Seq<char>) -> Option<Seq<char>> {
    match field_of(args, key) {
        Some(Loose::Text(s)) => Some(s@),
        _ => None,
    }
}

pub open spec fn flag_arg(args: Loose, key: Seq<char>) -> Option<bool> {
    match field_of(args, key) {
        Some(Loose::Bool(b)) => Some(b),
        _ => None,
    }
}

/// A number argument in thousandths, where it is one that fits a `u32`.
pub open spec fn milli_arg(args: Loose, key: Seq<char>) -> Option<u32> {
    match field_of(args, key) {
        Some(Loose::Number(n)) => if 0 <= n.milli <= u32::MAX {
            Some(n.milli as u32)
        } else {
            None
        },
        _ => None,
    }
}

/// The color argument: a list whose first three components are clamped into
/// `[0, 255]`; missing components are 0 and extra ones are ignored.
pub open spec fn color_arg(args: Loose) -> Option<Color> {
    match field_of(args, "color"@) {
        Some(Loose::List(items)) => Some(
            Color { r: component_at(items@, 0), g: component_at(items@, 1), b: component_at(items@, 2) },
        ),
        _ => None,
    }
}

fn text_of(args: &Loose, key: &str) -> (r: Option<String>)
    ensures
        match r {
            Some(s) => text_arg(*args, key@) == Some(s@),
            None => text_arg(*args, key@) is None,
        },
{
    match args.get(key) {
        Some(Loose::Text(s)) => Some(s.clone()),
        _ => None,
    }
}

fn flag_of(args: &Loose, key: &str) -> (r: Option<bool>)
    ensures
        r == flag_arg(*args, key@),
{
    match args.get(key) {
        Some(Loose::Bool(b)) => Some(*b),
        _ => None,
    }
}

fn milli_of(args: &Loose, key: &str) -> (r: Option<u32>)
    ensures
        r == milli_arg(*args, key@),
{
    match args.get(key) {
        Some(Loose::Number(n)) => if 0 <= n.milli && n.milli <= u32::MAX as i64 {
            Some(n.milli as u32)
        } else {
            None
        },
        _ => None,
    }
}

fn color_of(args: &Loose) -> (r: Option<Color>)
    ensures
        r == color_arg(*args),
{
    match args.get("color") {
        Some(Loose::List(items)) => Some(
            Color {
                r: component_at_index(items, 0),
                g: component_at_index(items, 1),
                b: component_at_index(items, 2),
            },
        ),
        _ => None,
    }
}

/// `r` is what command `cmd` with arguments `args` decodes to.
pub open spec fn decodes_to(cmd: Seq<char>, args: Loose, r: Option<Request>) -> bool {
    if cmd == "get_soundboard"@ {
        r == Some(Request::GetSoundboard)
    } else if cmd == "get_channels"@ {
        r == Some(Request::GetChannels)
    } else if cmd == "new_channel"@ {
        if color_arg(args) is Some && text_arg(args, "icon"@) is Some && text_arg(args, "name"@) is Some
            && text_arg(args, "deviceapps"@) is Some && flag_arg(args, "device"@) is Some && flag_arg(
            args,
            "low"@,
        ) is Some {
            r matches Some(Request::NewChannel { color, icon, name, deviceapps, device, low }) && Some(color)
                == color_arg(args) && Some(icon@) == text_arg(args, "icon"@) && Some(name@) == text_arg(
                args,
                "name"@,
            ) && Some(deviceapps@) == text_arg(args, "deviceapps"@) && Some(device) == flag_arg(args, "device"@)
                && Some(low) == flag_arg(args, "low"@)
        } else {
            r is None
        }
    } else if cmd == "new_sound"@ {
        if color_arg(args) is Some && text_arg(args, "icon"@) is Some && text_arg(args, "name"@) is Some
            && text_arg(args, "sound"@) is Some && flag_arg(args, "low"@) is Some {
            r matches Some(Request::NewSound { color, icon, name, sound, low }) && Some(color) == color_arg(args)
                && Some(icon@) == text_arg(args, "icon"@) && Some(name@) == text_arg(args, "name"@) && Some(
                sound@,
            ) == text_arg(args, "sound"@) && Some(low) == flag_arg(args, "low"@)
        } else {
            r is None
        }
    } else if cmd == "edit_channel"@ {
        if color_arg(args) is Some && text_arg(args, "icon"@) is Some && text_arg(args, "name"@) is Some
            && text_arg(args, "deviceapps"@) is Some && flag_arg(args, "device"@) is Some && text_arg(
            args,
            "oldname"@,
        ) is Some && flag_arg(args, "low"@) is Some {
            r matches Some(Request::EditChannel { color, icon, name, deviceapps, device, oldname, low }) && Some(
                color,
            ) == color_arg(args) && Some(icon@) == text_arg(args, "icon"@) && Some(name@) == text_arg(
                args,
                "name"@,
            ) && Some(deviceapps@) == text_arg(args, "deviceapps"@) && Some(device) == flag_arg(args, "device"@)
                && Some(oldname@) == text_arg(args, "oldname"@) && Some(low) == flag_arg(args, "low"@)
        } else {
            r is None
        }
    } else if cmd == "edit_soundboard"@ {
        if color_arg(args) is Some && text_arg(args, "icon"@) is Some && text_arg(args, "name"@) is Some
            && text_arg(args, "sound"@) is Some && text_arg(args, "oldname"@) is Some && flag_arg(
            args,
            "low"@,
        ) is Some {
            r matches Some(Request::EditSoundboard { color, icon, name, sound, oldname, low }) && Some(color)
                == color_arg(args) && Some(icon@) == text_arg(args, "icon"@) && Some(name@) == text_arg(
                args,
                "name"@,
            ) && Some(sound@) == text_arg(args, "sound"@) && Some(oldname@) == text_arg(args, "oldname"@)
                && Some(low) == flag_arg(args, "low"@)
        } else {
            r is None
        }
    } else if cmd == "delete_channel"@ {
        match text_arg(args, "name"@) {
            Some(n) => r matches Some(Request::DeleteChannel { name }) && name@ == n,
            None => r is None,
        }
    } else if cmd == "delete_sound"@ {
        match text_arg(args, "name"@) {
            Some(n) => r matches Some(Request::DeleteSound { name }) && name@ == n,
            None => r is None,
        }
    } else if cmd == "pick_menu_sound"@ {
        r == Some(Request::PickMenuSound)
    } else if cmd == "get_devices"@ {
        r == Some(Request::GetDevices)
    } else if cmd == "get_apps"@ {
        r == Some(Request::GetApps)
    } else if cmd == "save_settings"@ {
        if text_arg(args, "output"@) is Some && milli_arg(args, "scale"@) is Some && flag_arg(args, "light"@) is Some
            && flag_arg(args, "monitor"@) is Some && flag_arg(args, "peaks"@) is Some {
            r matches Some(Request::SaveSettings { output, scale, light, monitor, peaks }) && Some(output@)
                == text_arg(args, "output"@) && Some(scale) == milli_arg(args, "scale"@) && Some(light) == flag_arg(
                args,
                "light"@,
            ) && Some(monitor) == flag_arg(args, "monitor"@) && Some(peaks) == flag_arg(args, "peaks"@)
        } else {
            r is None
        }
    } else if cmd == "get_performance"@ {
        r == Some(Request::GetPerformance)
    } else if cmd == "clear_performance"@ {
        r == Some(Request::ClearPerformance)
    } else if cmd == "get_settings"@ {
        r == Some(Request::GetSettings)
    } else if cmd == "set_volume"@ {
        if text_arg(args, "name"@) is Some && milli_arg(args, "volume"@) is Some {
            r matches Some(Request::SetVolume { name, volume }) && Some(name@) == text_arg(args, "name"@) && Some(
                volume,
            ) == milli_arg(args, "volume"@)
        } else {
            r is None
        }
    } else if cmd == "get_outputs"@ {
        r == Some(Request::GetOutputs)
    } else if cmd == "play_sound"@ {
        if text_arg(args, "sound"@) is Some && flag_arg(args, "low"@) is Some {
            r matches Some(Request::PlaySound { sound, low }) && Some(sound@) == text_arg(args, "sound"@) && Some(low)
                == flag_arg(args, "low"@)
        } else {
            r is None
        }
    } else if cmd == "get_volume"@ {
        if text_arg(args, "name"@) is Some && flag_arg(args, "get"@) is Some && flag_arg(args, "device"@) is Some {
            r matches Some(Request::GetVolume { name, get, device }) && Some(name@) == text_arg(args, "name"@)
                && Some(get) == flag_arg(args, "get"@) && Some(device) == flag_arg(args, "device"@)
        } else {
            r is None
        }
    } else if cmd == "uninstall"@ {
        r == Some(Request::Uninstall)
    } else if cmd == "update"@ {
        r == Some(Request::Update)
    } else if cmd == "flutter_print"@ {
        match text_arg(args, "text"@) {
            Some(t) => r matches Some(Request::Print { text }) && text@ == t,
            None => r is None,
        }
    } else if cmd == "get_version"@ {
        r == Some(Request::GetVersion)
    } else if cmd == "open_link"@ {
        match text_arg(args, "link"@) {
            Some(l) => r matches Some(Request::OpenLink { link }) && link@ == l,
            None => r is None,
        }
    } else {
        r is None
    }
}

/// Decodes one call of the interface.
pub fn decode_request(cmd: &str, args: &Loose) -> (r: Option<Request>)
    ensures
        decodes_to(cmd@, *args, r),
{
    if same_text(cmd, "get_soundboard") {
        Some(Request::GetSoundboard)
    } else if same_text(cmd, "get_channels") {
        Some(Request::GetChannels)
    } else if same_text(cmd, "new_channel") {
        match (color_of(args), text_of(args, "icon"), text_of(args, "name"), text_of(args, "deviceapps")) {
            (Some(color), Some(icon), Some(name), Some(deviceapps)) => match (
                flag_of(args, "device"),
                flag_of(args, "low"),
            ) {
                (Some(device), Some(low)) => Some(Request::NewChannel { color, icon, name, deviceapps, device, low }),
                _ => None,
            },
            _ => None,
        }
    } else if same_text(cmd, "new_sound") {
        match (color_of(args), text_of(args, "icon"), text_of(args, "name"), text_of(args, "sound")) {
            (Some(color), Some(icon), Some(name), Some(sound)) => match flag_of(args, "low") {
                Some(low) => Some(Request::NewSound { color, icon, name, sound, low }),
                None => None,
            },
            _ => None,
        }
    } else if same_text(cmd, "edit_channel") {
        match (color_of(args), text_of(args, "icon"), text_of(args, "name"), text_of(args, "deviceapps")) {
            (Some(color), Some(icon), Some(name), Some(deviceapps)) => match (
                flag_of(args, "device"),
                text_of(args, "oldname"),
                flag_of(args, "low"),
            ) {
                (Some(device), Some(oldname), Some(low)) => Some(
                    Request::EditChannel { color, icon, name, deviceapps, device, oldname, low },
                ),
                _ => None,
            },
            _ => None,
        }
    } else if same_text(cmd, "edit_soundboard") {
        match (color_of(args), text_of(args, "icon"), text_of(args, "name"), text_of(args, "sound")) {
            (Some(color), Some(icon), Some(name), Some(sound)) => match (
                text_of(args, "oldname"),
                flag_of(args, "low"),
            ) {
                (Some(oldname), Some(low)) => Some(
                    Request::EditSoundboard { color, icon, name, sound, oldname, low },
                ),
                _ => None,
            },
            _ => None,
        }
    } else if same_text(cmd, "delete_channel") {
        match text_of(args, "name") {
            Some(name) => Some(Request::DeleteChannel { name }),
            None => None,
        }
    } else if same_text(cmd, "delete_sound") {
        match text_of(args, "name") {
            Some(name) => Some(Request::DeleteSound { name }),
            None => None,
        }
    } else if same_text(cmd, "pick_menu_sound") {
        Some(Request::PickMenuSound)
    } else if same_text(cmd, "get_devices") {
        Some(Request::GetDevices)
    } else if same_text(cmd, "get_apps") {
        Some(Request::GetApps)
    } else if same_text(cmd, "save_settings") {
        match (text_of(args, "output"), milli_of(args, "scale"), flag_of(args, "light")) {
            (Some(output), Some(scale), Some(light)) => match (flag_of(args, "monitor"), flag_of(args, "peaks")) {
                (Some(monitor), Some(peaks)) => Some(Request::SaveSettings { output, scale, light, monitor, peaks }),
                _ => None,
            },
            _ => None,
        }
    } else if same_text(cmd, "get_performance") {
        Some(Request::GetPerformance)
    } else if same_text(cmd, "clear_performance") {
        Some(Request::ClearPerformance)
    } else if same_text(cmd, "get_settings") {
        Some(Request::GetSettings)
    } else if same_text(cmd, "set_volume") {
        match (text_of(args, "name"), milli_of(args, "volume")) {
            (Some(name), Some(volume)) => Some(Request::SetVolume { name, volume }),
            _ => None,
        }
    } else if same_text(cmd, "get_outputs") {
        Some(Request::GetOutputs)
    } else if same_text(cmd, "play_sound") {
        match (text_of(args, "sound"), flag_of(args, "low")) {
            (Some(sound), Some(low)) => Some(Request::PlaySound { sound, low }),
            _ => None,
        }
    } else if same_text(cmd, "get_volume") {
        match (text_of(args, "name"), flag_of(args, "get"), flag_of(args, "device")) {
            (Some(name), Some(get), Some(device)) => Some(Request::GetVolume { name, get, device }),
            _ => None,
        }
    } else if same_text(cmd, "uninstall") {
        Some(Request::Uninstall)
    } else if same_text(cmd, "update") {
        Some(Request::Update)
    } else if same_text(cmd, "flutter_print") {
        match text_of(args, "text") {
            Some(text) => Some(Request::Print { text }),
            None => None,
        }
    } else if same_text(cmd, "get_version") {
        Some(Request::GetVersion)
    } else if same_text(cmd, "open_link") {
        match text_of(args, "link") {
            Some(link) => Some(Request::OpenLink { link }),
            None => None,
        }
    } else {
        None
    }
}

} // verus!
