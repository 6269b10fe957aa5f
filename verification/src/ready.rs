//! Whether the server is ready for requests.
use crate::status::{OK, SERVICE_UNAVAILABLE};
use vstd::prelude::*;

verus! {

/// The answer to whether the server is ready.
#[derive(Debug, Copy, Clone, PartialEq, Eq)]
pub struct Ready {
    pub status: Status,
    pub checks: Checks,
}

/// Whether the server is ready.
#[derive(Debug, Copy, Clone, PartialEq, Eq)]
pub enum Status {
    Ready,
    NotReady,
}

/// What was found out about the parts of the server.
#[derive(Debug, Copy, Clone, PartialEq, Eq)]
pub struct Checks {
    pub configuration: Check,
    pub jwt_keys: Check,
    pub pool: Check,
}

/// What was found out about one part of the server.
#[derive(Debug, Copy, Clone, PartialEq, Eq)]
pub enum Check {
    Available,
    Unavailable,
}

impl Status {
    /// The status, as it is called in an answer.
    #[verifier::allow_in_spec]
    pub fn as_str(self) -> &'static str
        returns
            (match self {
                Status::Ready => "ready",
                Status::NotReady => "not_ready",
            }),
    {
        match self {
            Status::Ready => "ready",
            Status::NotReady => "not_ready",
        }
    }
}

impl Check {
    /// The check, as it is called in an answer.
    #[verifier::allow_in_spec]
    pub fn as_str(self) -> &'static str
        returns
            (match self {
                Check::Available => "ok",
                Check::Unavailable => "unavailable",
            }),
    {
        match self {
            Check::Available => "ok",
            Check::Unavailable => "unavailable",
        }
    }

    /// Whether the part of the server cannot be used.
    pub fn is_failure(&self) -> (answer: bool)
        ensures
            answer == (*self is Unavailable),
    {
        matches!(self, Check::Unavailable)
    }
}

impl Checks {
    /// Whether some part of the server cannot be used.
    pub open spec fn failing(self) -> bool {
        self.configuration is Unavailable || self.jwt_keys is Unavailable || self.pool is Unavailable
    }

    /// Whether some part of the server cannot be used.
    pub fn has_failures(&self) -> (answer: bool)
        ensures
            answer == self.failing(),
    {
        self.configuration.is_failure() || self.jwt_keys.is_failure() || self.pool.is_failure()
    }

    /// The answer, with its status code.
    pub fn into_response(self) -> (response: (u16, Ready))
        ensures
            response == (if self.failing() {
                (SERVICE_UNAVAILABLE, Ready { status: Status::NotReady, checks: self })
            } else {
                (OK, Ready { status: Status::Ready, checks: self })
            }),
    {
        let (status_code, status): (u16, Status) = if self.has_failures() {
            (SERVICE_UNAVAILABLE, Status::NotReady)
        } else {
            (OK, Status::Ready)
        };
        (status_code, Ready { status, checks: self })
    }
}

/// Checks the parts of the server. None of them can fail so far.
pub fn run_checks() -> (checks: Checks)
    ensures
        !checks.failing(),
{
    Checks { configuration: Check::Available, jwt_keys: Check::Available, pool: Check::Available }
}

} // verus!
