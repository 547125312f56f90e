//! Where the bundled server lives, relative to the running executable.

use vstd::prelude::*;
use crate::error::LaunchError;
use crate::error::LaunchErrorView;

verus! {

/// Directory of bundled resources, next to the executable.
pub const RESOURCE_DIR: &'static str = "resources";

/// Directory of the server build, inside the resources.
pub const BUILD_DIR: &'static str = "build";

/// File name of the server entry point.
pub const ENTRY_POINT: &'static str = "index.js";

/// What `std::path::Path::parent` gives for `path` on the platform this
/// crate is built for: the path without its last component, if it has one.
pub uninterp spec fn path_parent(path: Seq<char>) -> Option<Seq<char>>;

/// What `std::path::Path::join` gives for `base` and `component` on the
/// platform this crate is built for.
pub uninterp spec fn path_join(base: Seq<char>, component: Seq<char>) -> Seq<char>;

/// How the `Debug` impl of `std::path::Path` writes `path`: in double
/// quotes, with escapes.
pub uninterp spec fn path_debug_text(path: Seq<char>) -> Seq<char>;

/// The entry point of the server bundled under the directory `dir`.
pub open spec fn entry_point_under(dir: Seq<char>) -> Seq<char> {
    path_join(path_join(path_join(dir, RESOURCE_DIR@), BUILD_DIR@), ENTRY_POINT@)
}

/// The entry point that belongs to the executable at `executable`, or why
/// there is none: the executable's own location is unknown, or it has no
/// parent directory.
pub open spec fn resolved_entry_point(executable: Option<Seq<char>>) -> Result<
    Seq<char>,
    LaunchErrorView,
> {
    match executable {
        Some(exe) => match path_parent(exe) {
            Some(dir) => Ok(entry_point_under(dir)),
            None => Err(LaunchErrorView::PathResolution),
        },
        None => Err(LaunchErrorView::PathResolution),
    }
}

/// Trusted: `std::path::Path::parent`, on a path given and returned as
/// text. Says only that the result is `path_parent` of the argument.
#[verifier::external_body]
fn parent_dir(path: &str) -> (r: Option<String>)
    ensures
        match r {
            Some(dir) => path_parent(path@) == Some(dir@),
            None => path_parent(path@) is None,
        },
{
    match std::path::Path::new(path).parent() {
        Some(dir) => Some(dir.to_string_lossy().into_owned()),
        None => None,
    }
}

/// Trusted: `std::path::Path::join`, on paths given and returned as text.
/// Says only that the result is `path_join` of the arguments.
#[verifier::external_body]
fn join(base: &str, component: &str) -> (r: String)
    ensures
        r@ == path_join(base@, component@),
{
    std::path::Path::new(base).join(component).to_string_lossy().into_owned()
}

/// Trusted: the `Debug` formatting of `std::path::Path`. Says only that the
/// result is `path_debug_text` of the argument.
#[verifier::external_body]
pub(crate) fn debug_text(path: &str) -> (r: String)
    ensures
        r@ == path_debug_text(path@),
{
    format!("{:?}", std::path::Path::new(path))
}

/// Builds the path of the server entry point bundled under `dir`.
pub fn entry_point_in(dir: &str) -> (r: String)
    ensures
        r@ == entry_point_under(dir@),
{
    let resources = join(dir, RESOURCE_DIR);
    let build = join(resources.as_str(), BUILD_DIR);
    join(build.as_str(), ENTRY_POINT)
}

/// Decides where the server entry point is once the parent directory of
/// the executable is known, or that it cannot be resolved.
pub fn entry_point_from_parent(parent: Option<String>) -> (r: Result<String, LaunchError>)
    ensures
        match parent {
            Some(dir) => r matches Ok(path) && path@ == entry_point_under(dir@),
            None => r matches Err(e) && e@ == LaunchErrorView::PathResolution,
        },
{
    match parent {
        Some(dir) => Ok(entry_point_in(dir.as_str())),
        None => Err(LaunchError::PathResolution),
    }
}

/// Resolves the server entry point from the location of the running
/// executable, `None` when that location could not be determined.
pub fn server_entry_point(executable: Option<&str>) -> (r: Result<String, LaunchError>)
    ensures
        match resolved_entry_point(option_text(executable)) {
            Ok(path) => r matches Ok(p) && p@ == path,
            Err(error) => r matches Err(e) && e@ == error,
        },
{
    match executable {
        Some(exe) => entry_point_from_parent(parent_dir(exe)),
        None => Err(LaunchError::PathResolution),
    }
}

/// The text of an optional string slice.
pub open spec fn option_text(s: Option<&str>) -> Option<Seq<char>> {
    match s {
        Some(text) => Some(text@),
        None => None,
    }
}

} // verus!
