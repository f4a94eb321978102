//! Where a browser is, and how a connection to it is opened.

use crate::error::{classify_handshake_status, CdpError, Failure};
use crate::text::decimal_text;
use tokio_tungstenite::tungstenite::client::IntoClientRequest;
use tokio_tungstenite::tungstenite::http::Request;
use vstd::prelude::*;
use vstd::string::*;

verus! {

/// How long the WebSocket handshake may take before the connect is abandoned,
/// in seconds.
pub const CONNECT_TIMEOUT_SECS: u64 = 20;

/// Attempts at establishing a connection before giving up.
pub const CONNECT_ATTEMPTS: u32 = 3;

/// Delay before the second connect attempt, in milliseconds; doubles for the
/// third.
pub const CONNECT_RETRY_BASE_MILLIS: u64 = 400;

/// An HTTP request of the `http` crate, as the WebSocket client takes it.
#[verifier::external_type_specification]
#[verifier::external_body]
#[verifier::reject_recursive_types(T)]
pub struct ExRequest<T>(tokio_tungstenite::tungstenite::http::Request<T>);

/// The URI that a request is for, as it is displayed.
pub uninterp spec fn request_uri(request: Request<()>) -> Seq<char>;

/// What the WebSocket client makes of an endpoint's URL: the URI to ask for, or
/// the words in which it refuses the URL.
pub uninterp spec fn endpoint_uri(url: Seq<char>) -> Result<Seq<char>, Seq<char>>;

/// `IntoClientRequest::into_client_request` for `&str`: a request for the URI
/// that the text is parsed to, or the words of the error, both of them a
/// function of the text. Nothing is said of the request's headers, one of which
/// is a key that the call draws at random; the call counts on the system's
/// source of randomness.
#[verifier::external_body]
fn client_request(url: &str) -> (made: Result<Request<()>, String>)
    ensures
        match made {
            Ok(request) => endpoint_uri(url@) matches Ok(uri) && uri == request_uri(request),
            Err(reason) => endpoint_uri(url@) matches Err(words) && words == reason@,
        },
{
    url.into_client_request().map_err(|e| e.to_string())
}

/// Where a profile's browser is, and what is needed to reach it.
#[derive(Debug)]
pub enum CdpTarget {
    /// A browser on this machine. The URL is a PAGE-level socket, so commands
    /// carry no CDP session id.
    Local { ws_url: String },
}

impl View for CdpTarget {
    type V = Seq<char>;

    open spec fn view(&self) -> Seq<char> {
        match self {
            CdpTarget::Local { ws_url } => ws_url@,
        }
    }
}

impl Clone for CdpTarget {
    fn clone(&self) -> (copy: CdpTarget)
        ensures
            copy@ == self@,
    {
        match self {
            CdpTarget::Local { ws_url } => CdpTarget::Local { ws_url: ws_url.clone() },
        }
    }
}

/// The wait before another connect attempt, in milliseconds, after so many
/// failures before the last one: it starts at the base and doubles.
pub open spec fn retry_delay(failures: nat) -> nat
    decreases failures,
{
    if failures == 0 {
        CONNECT_RETRY_BASE_MILLIS as nat
    } else {
        2 * retry_delay((failures - 1) as nat)
    }
}

/// The attempts to open one connection, and how many of them have failed.
#[derive(Debug)]
pub struct ConnectRun {
    failures: u32,
}

impl View for ConnectRun {
    type V = u32;

    /// How many attempts have failed.
    closed spec fn view(&self) -> u32 {
        self.failures
    }
}

/// What an attempt to connect came to.
#[derive(Debug)]
pub enum ConnectStep {
    /// The connection is open.
    Connected,
    /// Wait this many milliseconds, and try again.
    Retry { delay_millis: u64, run: ConnectRun },
    /// The error is the answer.
    GiveUp(CdpError),
}

/// The model of a [`ConnectStep`].
pub enum Connecting {
    Connected,
    Retry { delay_millis: u64, failures: u32 },
    GiveUp(Failure),
}

impl View for ConnectStep {
    type V = Connecting;

    open spec fn view(&self) -> Connecting {
        match self {
            ConnectStep::Connected => Connecting::Connected,
            ConnectStep::Retry { delay_millis, run } => Connecting::Retry {
                delay_millis: *delay_millis,
                failures: run@,
            },
            ConnectStep::GiveUp(error) => Connecting::GiveUp(error@),
        }
    }
}

/// What follows an attempt to connect that `failures` failed ones came before.
pub open spec fn connecting(failures: u32, attempt: Result<(), Failure>) -> Connecting {
    match attempt {
        Ok(()) => Connecting::Connected,
        Err(failure) => if failures + 1 >= CONNECT_ATTEMPTS || !failure.is_retryable() {
            Connecting::GiveUp(failure)
        } else {
            Connecting::Retry {
                delay_millis: retry_delay(failures as nat) as u64,
                failures: (failures + 1) as u32,
            }
        },
    }
}

/// What came of a handshake.
#[derive(Debug)]
pub enum Handshake {
    /// The connection is open.
    Done,
    /// The handshake took too long.
    TimedOut,
    /// The upgrade was refused with this HTTP status.
    Refused(u16),
    /// The handshake failed, for the reason given.
    Failed(String),
}

/// The model of a [`Handshake`].
pub enum HandshakeEnd {
    Done,
    TimedOut,
    Refused(u16),
    Failed(Seq<char>),
}

impl View for Handshake {
    type V = HandshakeEnd;

    open spec fn view(&self) -> HandshakeEnd {
        match self {
            Handshake::Done => HandshakeEnd::Done,
            Handshake::TimedOut => HandshakeEnd::TimedOut,
            Handshake::Refused(status) => HandshakeEnd::Refused(*status),
            Handshake::Failed(reason) => HandshakeEnd::Failed(reason@),
        }
    }
}

/// What the end of a handshake means.
pub open spec fn dialled(end: HandshakeEnd) -> Result<(), Failure> {
    match end {
        HandshakeEnd::Done => Ok(()),
        HandshakeEnd::TimedOut => Err(
            Failure::Unreachable(
                "the CDP endpoint did not answer within "@ + crate::text::decimal(
                    CONNECT_TIMEOUT_SECS as nat,
                ) + "s"@,
            ),
        ),
        HandshakeEnd::Refused(status) => Err(crate::error::handshake_failure(status)),
        HandshakeEnd::Failed(reason) => Err(Failure::Unreachable(reason)),
    }
}

/// What the handshake, bounded by [`CONNECT_TIMEOUT_SECS`], came to.
pub fn dial(end: Handshake) -> (result: Result<(), CdpError>)
    ensures
        crate::error::attempt(result) == dialled(end@),
{
    match end {
        Handshake::Done => Ok(()),
        Handshake::TimedOut => Err(
            CdpError::Unreachable(
                "the CDP endpoint did not answer within ".to_owned().concat(
                    decimal_text(CONNECT_TIMEOUT_SECS).as_str(),
                ).concat("s"),
            ),
        ),
        Handshake::Refused(status) => Err(classify_handshake_status(status)),
        Handshake::Failed(reason) => Err(CdpError::Unreachable(reason)),
    }
}

/// What it means that an endpoint's URL was refused with these words.
pub open spec fn endpoint_failure(reason: Seq<char>) -> Failure {
    Failure::Unreachable("invalid CDP endpoint: "@ + reason)
}

/// The error for an endpoint's URL that was refused with these words.
pub fn endpoint_error(reason: String) -> (error: CdpError)
    ensures
        error@ == endpoint_failure(reason@),
{
    CdpError::Unreachable("invalid CDP endpoint: ".to_owned().concat(reason.as_str()))
}

impl CdpTarget {
    /// No browser is remote any more; every target is local.
    pub fn is_remote(&self) -> (remote: bool)
        ensures
            !remote,
    {
        false
    }

    /// A short label for logs and errors. Never carries the credential.
    pub fn describe(&self) -> (label: String)
        ensures
            label@ == "local browser"@,
    {
        match self {
            CdpTarget::Local { .. } => "local browser".to_owned(),
        }
    }

    /// The request with which one attempt to connect to this browser begins.
    ///
    /// A URL that the WebSocket client cannot use is reported as an unreachable
    /// browser.
    pub fn connect_once(&self) -> (made: Result<Request<()>, CdpError>)
        ensures
            match (endpoint_uri(self@), made) {
                (Ok(uri), Ok(request)) => request_uri(request) == uri,
                (Err(reason), Err(error)) => error@ == endpoint_failure(reason),
                _ => false,
            },
    {
        match self {
            CdpTarget::Local { ws_url } => match client_request(ws_url.as_str()) {
                Ok(request) => Ok(request),
                Err(reason) => Err(endpoint_error(reason)),
            },
        }
    }

    /// Begin to open a conversation with this browser: the first attempt is due.
    pub fn connect(&self) -> (run: ConnectRun)
        ensures
            run@ == 0,
    {
        ConnectRun { failures: 0 }
    }
}

impl ConnectRun {
    /// Fewer attempts than are allowed have failed, while another is due.
    #[verifier::type_invariant]
    spec fn another_is_due(&self) -> bool {
        self.failures < CONNECT_ATTEMPTS
    }

    /// What follows an attempt to connect.
    ///
    /// Retries a connection that failed for a reason a retry could fix, and never
    /// one that failed because the answer was no.
    pub fn after(self, attempt: Result<(), CdpError>) -> (step: ConnectStep)
        ensures
            step@ == connecting(self@, crate::error::attempt(attempt)),
            self@ < CONNECT_ATTEMPTS,
    {
        proof {
            use_type_invariant(&self);
            reveal_with_fuel(retry_delay, 2);
        }
        let error = match attempt {
            Ok(()) => return ConnectStep::Connected,
            Err(error) => error,
        };
        let failures: u32 = self.failures + 1;
        if failures >= CONNECT_ATTEMPTS || !error.is_retryable() {
            return ConnectStep::GiveUp(error);
        }
        let delay_millis: u64 = if self.failures == 0 {
            CONNECT_RETRY_BASE_MILLIS
        } else {
            2 * CONNECT_RETRY_BASE_MILLIS
        };
        ConnectStep::Retry { delay_millis, run: ConnectRun { failures } }
    }
}

} // verus!
