//! Why a launch failed.

use vstd::prelude::*;
use crate::paths::debug_text;
use crate::paths::path_debug_text;

verus! {

/// The three ways a launch can fail. Each ends the launch attempt; none is
/// retried.
#[derive(Debug)]
pub enum LaunchError {
    /// The location of the running executable, or its parent directory,
    /// could not be determined.
    PathResolution,
    /// The server entry point is missing on disk; `path` is where it was
    /// looked for.
    ServerNotFound { path: String },
    /// The operating system refused to create the child process.
    Spawn { reason: String },
}

/// A `LaunchError` with its texts as sequences of characters.
pub enum LaunchErrorView {
    PathResolution,
    ServerNotFound { path: Seq<char> },
    Spawn { reason: Seq<char> },
}

impl View for LaunchError {
    type V = LaunchErrorView;

    open spec fn view(&self) -> LaunchErrorView {
        match self {
            LaunchError::PathResolution => LaunchErrorView::PathResolution,
            LaunchError::ServerNotFound { path } => LaunchErrorView::ServerNotFound { path: path@ },
            LaunchError::Spawn { reason } => LaunchErrorView::Spawn { reason: reason@ },
        }
    }
}

/// The message for a server entry point that is missing, given the path
/// already quoted.
pub open spec fn not_found_text(quoted_path: Seq<char>) -> Seq<char> {
    "Server file not found at: "@ + quoted_path
}

/// The message for a child process that could not be created.
pub open spec fn spawn_failed_text(reason: Seq<char>) -> Seq<char> {
    "Failed to spawn sidecar: "@ + reason
}

impl LaunchErrorView {
    /// The message shown to the user for this error.
    pub open spec fn message(self) -> Seq<char> {
        match self {
            LaunchErrorView::PathResolution => "Failed to resolve the application directory"@,
            LaunchErrorView::ServerNotFound { path } => not_found_text(path_debug_text(path)),
            LaunchErrorView::Spawn { reason } => spawn_failed_text(reason),
        }
    }
}

/// Builds the message for a missing server entry point from the path as it
/// is to appear, quotes included.
pub fn not_found_message(quoted_path: &str) -> (r: String)
    ensures
        r@ == not_found_text(quoted_path@),
{
    String::from_str("Server file not found at: ").concat(quoted_path)
}

/// Builds the message for a child process that could not be created.
pub fn spawn_failed_message(reason: &str) -> (r: String)
    ensures
        r@ == spawn_failed_text(reason@),
{
    String::from_str("Failed to spawn sidecar: ").concat(reason)
}

impl LaunchError {
    /// The message shown to the user for this error.
    pub fn message(&self) -> (r: String)
        ensures
            r@ == self@.message(),
    {
        match self {
            LaunchError::PathResolution => String::from_str(
                "Failed to resolve the application directory",
            ),
            LaunchError::ServerNotFound { path } => {
                let quoted = debug_text(path.as_str());
                not_found_message(quoted.as_str())
            },
            LaunchError::Spawn { reason } => spawn_failed_message(reason.as_str()),
        }
    }
}

impl Clone for LaunchError {
    fn clone(&self) -> (r: Self)
        ensures
            r == *self,
    {
        match self {
            LaunchError::PathResolution => LaunchError::PathResolution,
            LaunchError::ServerNotFound { path } => LaunchError::ServerNotFound {
                path: path.clone(),
            },
            LaunchError::Spawn { reason } => LaunchError::Spawn { reason: reason.clone() },
        }
    }
}

} // verus!
