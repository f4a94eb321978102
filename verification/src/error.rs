//! What can go wrong, and what the caller should do about it.

use crate::text::{decimal, decimal_text};
use vstd::prelude::*;
use vstd::string::*;

verus! {

/// Why a target could not be reached, or a command could not be run.
///
/// The variants exist so a caller can tell "come back when it is up" from "that
/// credential is no good" from "the socket broke". Collapsing them into one
/// string is how a session that is merely still provisioning gets reported as a
/// broken one.
#[derive(Debug)]
pub enum CdpError {
    /// Nothing is listening, or the relay could not reach the browser.
    Unreachable(String),
    /// The relay refused the credential.
    Unauthorized(String),
    /// The session exists but is not in a state that can be driven.
    NotDrivable(String),
    /// The socket broke, or a reply never arrived.
    Transport(String),
    /// The browser answered with a CDP `error` object.
    Protocol(String),
}

/// The model of a [`CdpError`].
pub enum Failure {
    Unreachable(Seq<char>),
    Unauthorized(Seq<char>),
    NotDrivable(Seq<char>),
    Transport(Seq<char>),
    Protocol(Seq<char>),
}

impl View for CdpError {
    type V = Failure;

    open spec fn view(&self) -> Failure {
        match self {
            CdpError::Unreachable(m) => Failure::Unreachable(m@),
            CdpError::Unauthorized(m) => Failure::Unauthorized(m@),
            CdpError::NotDrivable(m) => Failure::NotDrivable(m@),
            CdpError::Transport(m) => Failure::Transport(m@),
            CdpError::Protocol(m) => Failure::Protocol(m@),
        }
    }
}

/// What something that either works or fails came to.
pub open spec fn attempt(result: Result<(), CdpError>) -> Result<(), Failure> {
    match result {
        Ok(()) => Ok(()),
        Err(error) => Err(error@),
    }
}

impl Failure {
    /// A fresh connection attempt could plausibly succeed.
    pub open spec fn is_retryable(self) -> bool {
        self is Unreachable || self is Transport
    }

    /// The failure in words.
    pub open spec fn message(self) -> Seq<char> {
        match self {
            Failure::Unreachable(m) => "browser unreachable: "@ + m,
            Failure::Unauthorized(m) => "not authorised to drive this browser: "@ + m,
            Failure::NotDrivable(m) => "browser is not drivable yet: "@ + m,
            Failure::Transport(m) => "CDP transport failed: "@ + m,
            Failure::Protocol(m) => "CDP error: "@ + m,
        }
    }
}

impl CdpError {
    /// The error in words.
    pub fn message(&self) -> (text: String)
        ensures
            text@ == self@.message(),
    {
        match self {
            CdpError::Unreachable(m) => "browser unreachable: ".to_owned().concat(m.as_str()),
            CdpError::Unauthorized(m) => "not authorised to drive this browser: ".to_owned().concat(
                m.as_str(),
            ),
            CdpError::NotDrivable(m) => "browser is not drivable yet: ".to_owned().concat(
                m.as_str(),
            ),
            CdpError::Transport(m) => "CDP transport failed: ".to_owned().concat(m.as_str()),
            CdpError::Protocol(m) => "CDP error: ".to_owned().concat(m.as_str()),
        }
    }

    /// Whether a fresh connection attempt could plausibly succeed.
    ///
    /// A refused credential and a session that is still provisioning are answers,
    /// not failures. Retrying either spends the caller's time and, on the relay,
    /// burns one of the four attachments a session is allowed, so the retry can
    /// make the next honest attempt fail too.
    pub fn is_retryable(&self) -> (retryable: bool)
        ensures
            retryable == self@.is_retryable(),
    {
        matches!(self, CdpError::Unreachable(_) | CdpError::Transport(_))
    }
}

/// Why a profile could not be resolved to a browser at all.
#[derive(Debug)]
pub enum ResolveError {
    /// The profile is not one this app can drive.
    Unsupported(String),
    /// Neither a local process nor a live remote session.
    NotRunning(String),
    /// A remote session exists but its endpoint could not be read.
    Endpoint(String),
}

/// The model of a [`ResolveError`].
pub enum Unresolved {
    Unsupported(Seq<char>),
    NotRunning(Seq<char>),
    Endpoint(Seq<char>),
}

impl View for ResolveError {
    type V = Unresolved;

    open spec fn view(&self) -> Unresolved {
        match self {
            ResolveError::Unsupported(m) => Unresolved::Unsupported(m@),
            ResolveError::NotRunning(m) => Unresolved::NotRunning(m@),
            ResolveError::Endpoint(m) => Unresolved::Endpoint(m@),
        }
    }
}

impl Unresolved {
    /// The error in words.
    pub open spec fn message(self) -> Seq<char> {
        match self {
            Unresolved::Unsupported(m) => m,
            Unresolved::NotRunning(m) => m,
            Unresolved::Endpoint(m) => m,
        }
    }
}

impl ResolveError {
    /// The error in words.
    pub fn message(&self) -> (text: String)
        ensures
            text@ == self@.message(),
    {
        match self {
            ResolveError::Unsupported(m) => m.clone(),
            ResolveError::NotRunning(m) => m.clone(),
            ResolveError::Endpoint(m) => m.clone(),
        }
    }
}

/// What a hang-up with close code `code` means.
pub open spec fn close_failure(code: u16, detail: Seq<char>) -> Failure {
    if code == 1008 {
        Failure::Unauthorized(detail)
    } else if code == 1013 {
        Failure::NotDrivable(detail)
    } else if code == 1009 {
        Failure::Transport(detail + " — message too large"@)
    } else if code == 1011 {
        Failure::Unreachable(detail)
    } else {
        Failure::Transport(detail)
    }
}

/// Map a WebSocket close code onto what the caller should do about it.
pub fn classify_close(code: u16, detail: String) -> (error: CdpError)
    ensures
        error@ == close_failure(code, detail@),
{
    match code {
        1008 => CdpError::Unauthorized(detail),
        1013 => CdpError::NotDrivable(detail),
        1009 => CdpError::Transport(detail.concat(" — message too large")),
        1011 => CdpError::Unreachable(detail),
        _ => CdpError::Transport(detail),
    }
}

/// What an upgrade refused with HTTP status `status` means.
pub open spec fn handshake_failure(status: u16) -> Failure {
    if status == 401 || status == 403 {
        Failure::Unauthorized(
            "the relay refused the credential (HTTP "@ + decimal(status as nat) + ")"@,
        )
    } else if status == 404 {
        Failure::NotDrivable("no such remote session, or it does not belong to this account"@)
    } else if status == 409 {
        Failure::NotDrivable("the remote session is not drivable yet"@)
    } else if status == 429 {
        Failure::NotDrivable("too many attachments to this remote session"@)
    } else {
        Failure::Unreachable("the relay answered HTTP "@ + decimal(status as nat))
    }
}

/// Map a refused upgrade onto the error it means.
///
/// A 401 is a credential problem the caller can fix by signing in again; a 404
/// means the session is not theirs or no longer exists. Surfacing either as
/// "connection failed" is what makes an automation client retry forever.
pub fn classify_handshake_status(status: u16) -> (error: CdpError)
    ensures
        error@ == handshake_failure(status),
{
    match status {
        401 | 403 => CdpError::Unauthorized(
            "the relay refused the credential (HTTP ".to_owned().concat(
                decimal_text(status as u64).as_str(),
            ).concat(")"),
        ),
        404 => CdpError::NotDrivable(
            "no such remote session, or it does not belong to this account".to_owned(),
        ),
        409 => CdpError::NotDrivable("the remote session is not drivable yet".to_owned()),
        429 => CdpError::NotDrivable("too many attachments to this remote session".to_owned()),
        other => CdpError::Unreachable(
            "the relay answered HTTP ".to_owned().concat(decimal_text(other as u64).as_str()),
        ),
    }
}

} // verus!
