//! Readiness probing: what counts as an answer from the server.

use vstd::prelude::*;

verus! {

/// First status code that `StatusCode` accepts.
pub const MIN_STATUS: u16 = 100;

/// Last status code that `StatusCode` accepts.
pub const MAX_STATUS: u16 = 999;

/// Whether `code` lies in the success range of HTTP, 200 to 299.
pub open spec fn success_status(code: u16) -> bool {
    200 <= code <= 299
}

/// What one readiness check against the local endpoint came back with.
#[derive(Clone, Copy, Debug, PartialEq, Eq, Structural)]
pub enum ProbeOutcome {
    /// The server answered with this HTTP status code.
    Status(u16),
    /// No answer: the connection was refused or failed in any other way.
    Unreachable,
}

impl ProbeOutcome {
    /// The server counts as ready exactly when it answered with a
    /// success-range status code.
    pub open spec fn ready(self) -> bool {
        self matches ProbeOutcome::Status(code) && success_status(code)
    }

    /// Decides whether this outcome ends the probe loop.
    pub fn is_ready(&self) -> (r: bool)
        ensures
            r == self.ready(),
    {
        match self {
            ProbeOutcome::Status(code) => match status_success(*code) {
                Some(success) => success,
                None => false,
            },
            ProbeOutcome::Unreachable => false,
        }
    }
}

/// Trusted: `reqwest::StatusCode::from_u16` followed by
/// `reqwest::StatusCode::is_success`. The first accepts exactly the codes
/// from 100 to 999; the second holds exactly of the codes from 200 to 299.
#[verifier::external_body]
fn status_success(code: u16) -> (r: Option<bool>)
    ensures
        r == (if MIN_STATUS <= code <= MAX_STATUS {
            Some(success_status(code))
        } else {
            None
        }),
{
    match reqwest::StatusCode::from_u16(code) {
        Ok(status) => Some(status.is_success()),
        Err(_) => None,
    }
}

} // verus!
