//! Where the service keeps its files, and the values it falls back on.
use vstd::prelude::*;
use vstd::string::*;
use crate::types::{DEFAULT_IP_ADDR, DEFAULT_IP_PORT, ServerSettings};

verus! {

/// The base directory, before `~/` is expanded.
pub const BASE_DIR: &'static str = "~/.local/share/nas-game/server";

/// The catalog file, in the base directory.
pub const GAME_LIBRARY_FILE: &'static str = "game_library.json";

/// The settings file, in the base directory.
pub const SERVER_SETTINGS_FILE: &'static str = "server_settings.json";

/// The images tree, in the base directory.
pub const IMAGES_DIR: &'static str = "images";

/// Freshly downloaded images, in the images tree.
pub const STAGING_DIR: &'static str = "non-optimized";

/// Transcoded images, in the images tree.
pub const OUTPUT_DIR: &'static str = "optimized";

/// The image-search service's key where the environment gives none.
pub const PLACEHOLDER_API_KEY: &'static str = "key";

/// `base` joined with `rest` as `PathBuf::join` does it: an absolute `rest`
/// replaces `base`, and a separator is put between them where `base` is
/// not empty and does not end in one.
pub open spec fn joined(base: Seq<char>, rest: Seq<char>) -> Seq<char> {
    if rest.len() > 0 && rest[0] == '/' {
        rest
    } else if base.len() == 0 || base.last() == '/' {
        base + rest
    } else {
        base + "/"@ + rest
    }
}

/// `path` with a leading `~/` replaced by the home directory, where one is
/// known.
pub open spec fn expanded(path: Seq<char>, home: Option<Seq<char>>) -> Seq<char> {
    if path.len() >= 2 && path[0] == '~' && path[1] == '/' && home is Some {
        joined(home.unwrap(), path.subrange(2, path.len() as int))
    } else {
        path
    }
}

/// `base` joined with `rest`.
pub fn join_path(base: &str, rest: &str) -> (r: String)
    ensures
        r@ == joined(base@, rest@),
{
    let nb = base.unicode_len();
    let nr = rest.unicode_len();
    if nr > 0 && rest.get_char(0) == '/' {
        String::from_str(rest)
    } else if nb == 0 || base.get_char(nb - 1) == '/' {
        String::from_str(base).concat(rest)
    } else {
        String::from_str(base).concat("/").concat(rest)
    }
}

/// Expands a leading `~/` to the home directory `home`, where it is known;
/// leaves any other path as it is.
pub fn expand_tilde(path: &str, home: Option<String>) -> (r: String)
    ensures
        r@ == expanded(path@, match home {
            Some(h) => Some(h@),
            None => None,
        }),
{
    let n = path.unicode_len();
    if n >= 2 && path.get_char(0) == '~' && path.get_char(1) == '/' {
        match home {
            Some(h) => join_path(h.as_str(), path.substring_char(2, n)),
            None => String::from_str(path),
        }
    } else {
        String::from_str(path)
    }
}

/// The key for the image-search service: the one given, or the placeholder.
pub fn api_key_or_placeholder(key: Option<String>) -> (r: String)
    ensures
        key is Some ==> r@ == key.unwrap()@,
        key is None ==> r@ == PLACEHOLDER_API_KEY@,
{
    match key {
        Some(k) => k,
        None => String::from_str(PLACEHOLDER_API_KEY),
    }
}

/// The settings read at startup, or the defaults where none could be read.
pub fn settings_or_default(read: Option<ServerSettings>) -> (r: ServerSettings)
    ensures
        read is Some ==> r.ip@ == read.unwrap().ip@ && r.port == read.unwrap().port,
        read is None ==> r.ip@ == DEFAULT_IP_ADDR@ && r.port == DEFAULT_IP_PORT,
{
    match read {
        Some(s) => s,
        None => ServerSettings::default(),
    }
}

} // verus!
