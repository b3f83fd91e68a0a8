//! Locating the working root of the service: an explicit override wins;
//! otherwise the ancestors of the launcher's build directory are searched
//! for the one that contains the marker directory.

use vstd::prelude::*;

verus! {

/// How many directories the search inspects: the start directory and the
/// ancestors above it, as far as this count reaches.
pub const SEARCH_LEVELS: usize = 5;

/// How far above the start directory the root is taken to be when the search
/// finds no marker.
pub const FALLBACK_LEVELS: usize = 3;

/// The parent of a path as `std::path::Path::parent` gives it on the
/// platform the library is built for: the path without its final component,
/// or `None` where the path ends in a root or is empty.
pub uninterp spec fn parent_of(path: Seq<char>) -> Option<Seq<char>>;

/// The path that `std::path::Path::join` makes of `base` and `part` on the
/// platform the library is built for.
pub uninterp spec fn joined(base: Seq<char>, part: Seq<char>) -> Seq<char>;

/// Calls `std::path::Path::parent` on `path` and hands the parent back as
/// text. Trusted: the result is the parent that the standard library
/// computes, which depends on the text of `path` alone. The parent of a path
/// given as UTF-8 text is a prefix of it, so the conversion loses nothing.
#[verifier::external_body]
pub(crate) fn parent_dir(path: &str) -> (parent: Option<String>)
    ensures
        match parent {
            Some(p) => parent_of(path@) == Some(p@),
            None => parent_of(path@) is None,
        },
{
    match std::path::Path::new(path).parent() {
        Some(p) => Some(p.to_string_lossy().into_owned()),
        None => None,
    }
}

/// Calls `std::path::Path::join` with `part` on `base` and hands the result
/// back as text. Trusted: the result is the path that the standard library
/// builds, which depends on the two texts alone. Both are UTF-8, and so is
/// what joins them.
#[verifier::external_body]
fn path_join(base: &str, part: &str) -> (path: String)
    ensures
        path@ == joined(base@, part@),
{
    std::path::Path::new(base).join(part).to_string_lossy().into_owned()
}

/// The directory `levels` steps above `path`, if the chain of parents
/// reaches that far.
pub open spec fn ancestor(path: Seq<char>, levels: nat) -> Option<Seq<char>>
    decreases levels,
{
    if levels == 0 {
        Some(path)
    } else {
        match ancestor(path, (levels - 1) as nat) {
            Some(below) => parent_of(below),
            None => None,
        }
    }
}

/// The root assumed when no marker was found: three levels above `start`,
/// or `start` itself where the chain of parents is shorter than that.
pub open spec fn fallback_root(start: Seq<char>) -> Seq<char> {
    match ancestor(start, FALLBACK_LEVELS as nat) {
        Some(dir) => dir,
        None => start,
    }
}

/// Where the marker is looked for inside the directory `dir`.
pub open spec fn marker_path_of(dir: Seq<char>) -> Seq<char> {
    joined(dir, "ai"@)
}

/// The entry script of the service below `root`.
pub open spec fn entry_script_of(root: Seq<char>) -> Seq<char> {
    joined(joined(joined(root, "packages"@), "core"@), "index.js"@)
}

/// The path of the marker directory inside `dir`.
pub fn marker_path(dir: &str) -> (path: String)
    ensures
        path@ == marker_path_of(dir@),
{
    path_join(dir, "ai")
}

/// The path of the service's entry script below `root`.
pub fn entry_script(root: &str) -> (path: String)
    ensures
        path@ == entry_script_of(root@),
{
    let packages = path_join(root, "packages");
    let core = path_join(packages.as_str(), "core");
    path_join(core.as_str(), "index.js")
}

/// The root to fall back on when the search from `start` found no marker.
pub fn fallback(start: &str) -> (root: String)
    ensures
        root@ == fallback_root(start@),
{
    reveal_with_fuel(ancestor, 4);
    let first = parent_dir(start);
    match first {
        None => String::from_str(start),
        Some(one) => match parent_dir(one.as_str()) {
            None => String::from_str(start),
            Some(two) => match parent_dir(two.as_str()) {
                None => String::from_str(start),
                Some(three) => three,
            },
        },
    }
}

} // verus!
