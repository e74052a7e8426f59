//! Where the player keeps its files: a directory in the user's configuration
//! directory, and a cache directory.
use vstd::prelude::*;

use crate::text::{push_char, str_chars};

verus! {

/// `base` joined with `part` as a path on a Unix system: an absolute part
/// replaces the base; else a separator is put between them unless the base
/// is empty or already ends with one.
pub open spec fn join_spec(base: Seq<char>, part: Seq<char>) -> Seq<char> {
    if part.len() > 0 && part[0] == '/' {
        part
    } else if base.len() == 0 || base.last() == '/' {
        base + part
    } else {
        base + seq!['/'] + part
    }
}

/// Joins a path and a part (see `join_spec`).
pub fn join_path(base: &str, part: &str) -> (r: String)
    ensures
        r@ == join_spec(base@, part@),
{
    let pc = str_chars(part);
    if pc.len() > 0 && pc[0] == '/' {
        return String::from_str(part);
    }
    let bc = str_chars(base);
    let mut r = String::from_str(base);
    if !(bc.len() == 0 || bc[bc.len() - 1] == '/') {
        push_char(&mut r, '/');
    }
    r.append(part);
    r
}

/// The user's configuration directory (`dirs::config_dir`), as text; a path
/// that is not valid UTF-8 is converted lossily (`to_string_lossy`). It
/// depends on the system and the environment; nothing is claimed of it.
#[verifier::external_body]
fn config_dir() -> Option<String> {
    dirs::config_dir().map(|p| p.to_string_lossy().into_owned())
}

/// The user's cache directory (`dirs::cache_dir`), as text; a path that is
/// not valid UTF-8 is converted lossily (`to_string_lossy`). It depends on
/// the system and the environment; nothing is claimed of it.
#[verifier::external_body]
fn cache_dir() -> Option<String> {
    dirs::cache_dir().map(|p| p.to_string_lossy().into_owned())
}

/// The text of an optional path, or `default`.
pub open spec fn path_or(o: Option<String>, default: Seq<char>) -> Seq<char> {
    match o {
        Some(s) => s@,
        None => default,
    }
}

/// The player's own directory, given the configuration directory: `nocy`
/// in it, or in the working directory when there is none.
pub open spec fn base_path_spec(config: Option<String>) -> Seq<char> {
    join_spec(path_or(config, "./"@), "nocy"@)
}

/// The player's own directory, given the configuration directory.
pub fn base_path_from(config: Option<String>) -> (r: String)
    ensures
        r@ == base_path_spec(config),
{
    match config {
        Some(c) => join_path(c.as_str(), "nocy"),
        None => join_path("./", "nocy"),
    }
}

/// The player's own directory.
pub fn get_base_path() -> (r: String)
    ensures
        exists|c: Option<String>| r@ == base_path_spec(c),
{
    let c = config_dir();
    let ghost g = c;
    let r = base_path_from(c);
    assert(r@ == base_path_spec(g));
    r
}

/// The player's cache directory, given the user's cache directory and the
/// player's own directory: `nocy` in the former, else `cache` in the latter.
pub open spec fn cache_path_spec(cache: Option<String>, base: Seq<char>) -> Seq<char> {
    match cache {
        Some(c) => join_spec(c@, "nocy"@),
        None => join_spec(base, "cache"@),
    }
}

/// The player's cache directory, given the user's cache directory and the
/// player's own directory.
pub fn cache_path_from(cache: Option<String>, base: &str) -> (r: String)
    ensures
        r@ == cache_path_spec(cache, base@),
{
    match cache {
        Some(c) => join_path(c.as_str(), "nocy"),
        None => join_path(base, "cache"),
    }
}

/// The player's cache directory.
pub fn get_cache_path() -> (r: String)
    ensures
        exists|c: Option<String>, b: Option<String>| r@ == cache_path_spec(c, base_path_spec(b)),
{
    let c = cache_dir();
    let ghost gc = c;
    let b = config_dir();
    let ghost gb = b;
    let base = base_path_from(b);
    let r = cache_path_from(c, base.as_str());
    assert(r@ == cache_path_spec(gc, base_path_spec(gb)));
    r
}

} // verus!
