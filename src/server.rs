//! Routing of the local HTTP server that serves the interface and its calls.
use vstd::prelude::*;
use vstd::string::*;
use crate::loose::same_text;

verus! {

/// What the server asks of the window loop.
#[derive(Clone, Copy, Debug, PartialEq, Eq, Structural)]
pub enum ServerCommand {
    /// Open the interface window, or bring it back.
    CreateWindow,
}

/// The request methods that the server tells apart.
#[derive(Clone, Copy, Debug, PartialEq, Eq, Structural)]
pub enum Method {
    Get,
    Post,
    Other,
}

/// Where a request goes.
#[derive(Debug)]
pub enum Route {
    /// A control-plane call, whose body names the command and its arguments.
    Ipc,
    /// A command for the window loop.
    Window(ServerCommand),
    /// An embedded asset, by path.
    Asset(String),
}

/// The asset that a URL names: `index.html` for the root, else the URL
/// without its leading slash.
pub open spec fn asset_path(url: Seq<char>) -> Seq<char> {
    if url == "/"@ {
        "index.html"@
    } else if url.len() == 0 {
        url
    } else {
        url.subrange(1, url.len() as int)
    }
}

/// Decides where a request goes.
pub fn route(method: Method, url: &str) -> (r: Route)
    ensures
        method == Method::Post && url@ == "/ipc"@ ==> r is Ipc,
        method == Method::Get && url@ == "/webview"@ ==> r == Route::Window(ServerCommand::CreateWindow),
        !(method == Method::Post && url@ == "/ipc"@) && !(method == Method::Get && url@ == "/webview"@) ==> (
        r matches Route::Asset(p) && p@ == asset_path(url@)),
{
    if method == Method::Post && same_text(url, "/ipc") {
        return Route::Ipc;
    }
    if method == Method::Get && same_text(url, "/webview") {
        return Route::Window(ServerCommand::CreateWindow);
    }
    if same_text(url, "/") {
        return Route::Asset(String::from_str("index.html"));
    }
    let n = url.unicode_len();
    if n == 0 {
        return Route::Asset(String::new());
    }
    Route::Asset(url.substring_char(1, n).to_owned())
}

/// The text after the last dot of `path`, or all of `path` where it has none.
pub open spec fn after_last_dot(path: Seq<char>) -> Seq<char>
    decreases path.len(),
{
    if path.len() == 0 {
        path
    } else if path.last() == '.' {
        Seq::empty()
    } else {
        after_last_dot(path.drop_last()).push(path.last())
    }
}

/// The content type served for an asset whose path ends in `ext`.
pub open spec fn mime_of(ext: Seq<char>) -> Seq<char> {
    if ext == "js"@ {
        "application/javascript"@
    } else if ext == "css"@ {
        "text/css"@
    } else if ext == "html"@ {
        "text/html"@
    } else if ext == "json"@ {
        "application/json"@
    } else if ext == "wasm"@ {
        "application/wasm"@
    } else if ext == "woff2"@ {
        "font/woff2"@
    } else {
        "application/octet-stream"@
    }
}

fn extension(path: &str) -> (r: &str)
    ensures
        r@ == after_last_dot(path@),
{
    let n = path.unicode_len();
    let mut i: usize = n;
    assert(path@.subrange(n as int, n as int) =~= Seq::<char>::empty());
    assert(path@.take(n as int) =~= path@);
    while i > 0
        invariant
            i <= n == path@.len(),
            after_last_dot(path@) == after_last_dot(path@.take(i as int)) + path@.subrange(i as int, n as int),
            forall|k: int| i <= k < n ==> path@[k] != '.',
        decreases i,
    {
        if path.get_char(i - 1) == '.' {
            assert(path@.take(i as int).last() == '.');
            assert(after_last_dot(path@.take(i as int)) =~= Seq::<char>::empty());
            assert(after_last_dot(path@) =~= path@.subrange(i as int, n as int));
            return path.substring_char(i, n);
        }
        let ghost pre = path@.take(i as int);
        assert(pre.drop_last() =~= path@.take(i - 1));
        assert(after_last_dot(pre) == after_last_dot(path@.take(i - 1)).push(path@[i - 1]));
        assert(after_last_dot(path@.take(i - 1)).push(path@[i - 1]) + path@.subrange(i as int, n as int)
            =~= after_last_dot(path@.take(i - 1)) + path@.subrange(i - 1, n as int));
        i -= 1;
    }
    assert(after_last_dot(path@.take(0)) =~= Seq::<char>::empty());
    assert(path@.subrange(0, n as int) =~= path@);
    path
}

/// The content type served for an asset.
pub fn mime_type(path: &str) -> (r: &'static str)
    ensures
        r@ == mime_of(after_last_dot(path@)),
{
    let ext = extension(path);
    if same_text(ext, "js") {
        "application/javascript"
    } else if same_text(ext, "css") {
        "text/css"
    } else if same_text(ext, "html") {
        "text/html"
    } else if same_text(ext, "json") {
        "application/json"
    } else if same_text(ext, "wasm") {
        "application/wasm"
    } else if same_text(ext, "woff2") {
        "font/woff2"
    } else {
        "application/octet-stream"
    }
}

} // verus!
