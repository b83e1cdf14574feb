//! Decisions around the separate update and uninstall helper: the name of the
//! helper's temporary copy, whether a release is newer, and which files count
//! as executables.
use vstd::prelude::*;
use vstd::string::*;
use crate::loose::same_text;

verus! {

/// A UUID in hyphenated lowercase form: 36 characters, hyphens at positions
/// 8, 13, 18 and 23, lowercase hex digits elsewhere.
pub open spec fn hyphenated_id(s: Seq<char>) -> bool {
    &&& s.len() == 36
    &&& forall|i: int|
        0 <= i < 36 ==> if i == 8 || i == 13 || i == 18 || i == 23 {
            #[trigger] s[i] == '-'
        } else {
            ('0' <= s[i] <= '9') || ('a' <= s[i] <= 'f')
        }
}

/// Relies on `uuid::Uuid::new_v4` and the hyphenated lowercase form that
/// `Uuid`'s `Display` writes (through `LowerHex` and `format_hyphenated`).
#[verifier::external_body]
fn random_id() -> (r: String)
    ensures
        hyphenated_id(r@),
{
    uuid::Uuid::new_v4().to_string()
}

pub open spec fn helper_prefix() -> Seq<char> {
    "Vice-Uninstaller-"@
}

pub open spec fn exe_extension() -> Seq<char> {
    ".exe"@
}

/// The file name of the helper's temporary copy for identifier `id`.
pub fn helper_file_name(id: &str) -> (r: String)
    ensures
        r@ == helper_prefix() + id@ + exe_extension(),
{
    String::from_str("Vice-Uninstaller-").concat(id).concat(".exe")
}

/// A fresh file name for the helper's temporary copy: a random identifier
/// between the fixed prefix and the `.exe` extension.
pub fn new_helper_file_name() -> (r: String)
    ensures
        exists|id: Seq<char>| hyphenated_id(id) && r@ == helper_prefix() + id + exe_extension(),
{
    let id = random_id();
    helper_file_name(id.as_str())
}

/// The version that a release tag names: the tag without its leading letter.
pub open spec fn tag_version(tag: Seq<char>) -> Seq<char> {
    if tag.len() == 0 {
        tag
    } else {
        tag.subrange(1, tag.len() as int)
    }
}

/// Whether the release tagged `tag` differs from the running version `current`.
pub fn update_available(tag: &str, current: &str) -> (r: bool)
    ensures
        r == (tag_version(tag@) != current@),
{
    let n = tag.unicode_len();
    if n == 0 {
        return !same_text(tag, current);
    }
    !same_text(tag.substring_char(1, n), current)
}

pub open spec fn is_separator(c: char) -> bool {
    c == '/' || c == '\\'
}

pub open spec fn lower_ascii(c: char) -> char {
    if 'A' <= c <= 'Z' {
        ((c as u32) + 32) as char
    } else {
        c
    }
}

/// The file that `path` names has the extension `exe`, in any case: the path
/// ends in `.exe` after a non-empty stem. A path that ends in a separator names
/// no file.
pub open spec fn executable_path(path: Seq<char>) -> bool {
    let n = path.len();
    &&& n >= 5
    &&& path[n - 4] == '.'
    &&& lower_ascii(path[n - 3]) == 'e'
    &&& lower_ascii(path[n - 2]) == 'x'
    &&& lower_ascii(path[n - 1]) == 'e'
    &&& !is_separator(path[n - 5])
}

fn is_letter(c: char, lower: char, upper: char) -> (r: bool)
    requires
        'a' <= lower <= 'z',
        upper as u32 == lower as u32 - 32,
    ensures
        r == (lower_ascii(c) == lower),
{
    c == lower || c == upper
}

/// Whether `path` names an executable file.
pub fn is_executable(path: &str) -> (r: bool)
    ensures
        r == executable_path(path@),
{
    let n = path.unicode_len();
    if n < 5 {
        return false;
    }
    let before = path.get_char(n - 5);
    path.get_char(n - 4) == '.' && is_letter(path.get_char(n - 3), 'e', 'E') && is_letter(
        path.get_char(n - 2),
        'x',
        'X',
    ) && is_letter(path.get_char(n - 1), 'e', 'E') && !(before == '/' || before == '\\')
}

} // verus!
