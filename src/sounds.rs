//! Where soundboard files live: a sound effect's file is kept as
//! `<name>.<extension>` in the sound folder, with one of a fixed set of
//! extensions.
use vstd::prelude::*;
use vstd::string::*;
use crate::loose::same_text;

verus! {

pub open spec fn is_path_separator(c: char) -> bool {
    c == '/' || c == '\\'
}

/// `i` is the position of the last separator of `p`.
pub open spec fn last_separator(p: Seq<char>, i: int) -> bool {
    &&& 0 <= i < p.len()
    &&& is_path_separator(p[i])
    &&& forall|k: int| i < k < p.len() ==> !is_path_separator(#[trigger] p[k])
}

/// `i` is the position of the last dot of `p`.
pub open spec fn last_dot(p: Seq<char>, i: int) -> bool {
    &&& 0 <= i < p.len()
    &&& p[i] == '.'
    &&& forall|k: int| i < k < p.len() ==> #[trigger] p[k] != '.'
}

/// The last component of a path: what follows its last separator.
pub open spec fn file_name(p: Seq<char>) -> Seq<char> {
    if exists|i: int| last_separator(p, i) {
        let i = choose|i: int| last_separator(p, i);
        p.subrange(i + 1, p.len() as int)
    } else {
        p
    }
}

/// The extension of the file a path names: what follows the last dot of its
/// file name, where that dot has something before it; none for `..`.
pub open spec fn extension(p: Seq<char>) -> Option<Seq<char>> {
    let f = file_name(p);
    if f == ".."@ {
        None
    } else if exists|d: int| last_dot(f, d) && d > 0 {
        let d = choose|d: int| last_dot(f, d);
        Some(f.subrange(d + 1, f.len() as int))
    } else {
        None
    }
}

fn last_separator_index(p: &str) -> (r: Option<usize>)
    ensures
        match r {
            Some(i) => last_separator(p@, i as int),
            None => forall|k: int| 0 <= k < p@.len() ==> !is_path_separator(#[trigger] p@[k]),
        },
{
    let n = p.unicode_len();
    let mut i: usize = n;
    while i > 0
        invariant
            i <= n == p@.len(),
            forall|k: int| i <= k < n ==> !is_path_separator(#[trigger] p@[k]),
        decreases i,
    {
        let c = p.get_char(i - 1);
        if c == '/' || c == '\\' {
            return Some(i - 1);
        }
        i -= 1;
    }
    None
}

fn last_dot_index(p: &str) -> (r: Option<usize>)
    ensures
        match r {
            Some(i) => last_dot(p@, i as int),
            None => forall|k: int| 0 <= k < p@.len() ==> #[trigger] p@[k] != '.',
        },
{
    let n = p.unicode_len();
    let mut i: usize = n;
    while i > 0
        invariant
            i <= n == p@.len(),
            forall|k: int| i <= k < n ==> #[trigger] p@[k] != '.',
        decreases i,
    {
        if p.get_char(i - 1) == '.' {
            return Some(i - 1);
        }
        i -= 1;
    }
    None
}

/// The extension of the file that `path` names, if it has one.
pub fn extension_of(path: &str) -> (r: Option<String>)
    ensures
        match r {
            Some(e) => extension(path@) == Some(e@),
            None => extension(path@) is None,
        },
{
    let n = path.unicode_len();
    let name = match last_separator_index(path) {
        Some(i) => {
            proof {
                let j = choose|j: int| last_separator(path@, j);
                if j < i {
                    assert(!is_path_separator(path@[i as int]));
                } else if j > i {
                    assert(!is_path_separator(path@[j]));
                }
            }
            path.substring_char(i + 1, n)
        },
        None => path,
    };
    assert(name@ == file_name(path@));
    if same_text(name, "..") {
        return None;
    }
    match last_dot_index(name) {
        Some(d) => {
            proof {
                let j = choose|j: int| last_dot(name@, j);
                if j < d {
                    assert(name@[d as int] != '.');
                } else if j > d {
                    assert(name@[j] != '.');
                }
            }
            if d == 0 {
                None
            } else {
                Some(name.substring_char(d + 1, name.unicode_len()).to_owned())
            }
        },
        None => None,
    }
}

/// The extensions a sound effect's file may have, in the order they are tried.
pub open spec fn sound_extensions() -> Seq<Seq<char>> {
    seq!["wav"@, "mp3"@, "wma"@, "aac"@, "m4a"@, "flac"@]
}

/// The extensions a sound effect's file may have, in the order they are tried.
pub fn accepted_extensions() -> (r: Vec<&'static str>)
    ensures
        r@.len() == sound_extensions().len(),
        forall|i: int| 0 <= i < r@.len() ==> (#[trigger] r@[i])@ == sound_extensions()[i],
{
    let mut r: Vec<&'static str> = Vec::new();
    r.push("wav");
    r.push("mp3");
    r.push("wma");
    r.push("aac");
    r.push("m4a");
    r.push("flac");
    r
}

/// The file `<stem>.<ext>`.
pub fn sound_file_name(stem: &str, ext: &str) -> (r: String)
    ensures
        r@ == stem@ + "."@ + ext@,
{
    String::from_str(stem).concat(".").concat(ext)
}

/// The files that may hold the sound effect whose path without extension is
/// `stem`: one per accepted extension, in the order they are tried.
pub fn sound_file_candidates(stem: &str) -> (r: Vec<String>)
    ensures
        r@.len() == sound_extensions().len(),
        forall|i: int| 0 <= i < r@.len() ==> (#[trigger] r@[i])@ == stem@ + "."@ + sound_extensions()[i],
{
    let mut r: Vec<String> = Vec::new();
    r.push(sound_file_name(stem, "wav"));
    r.push(sound_file_name(stem, "mp3"));
    r.push(sound_file_name(stem, "wma"));
    r.push(sound_file_name(stem, "aac"));
    r.push(sound_file_name(stem, "m4a"));
    r.push(sound_file_name(stem, "flac"));
    r
}

} // verus!
