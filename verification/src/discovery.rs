//! Finding the local browser of a profile.

use crate::error::{ResolveError, Unresolved};
use crate::json;
use crate::json::Json;
use crate::target::CdpTarget;
use crate::text::{decimal_text, same_text};
use serde_json::Value;
use vstd::prelude::*;
use vstd::string::*;

verus! {

/// How often a patient probe asks for the debugging port.
///
/// Port info is written once the process is up, so a tool called straight
/// after a launch has to wait for it.
pub const PORT_ATTEMPTS: u32 = 10;

/// How often a patient probe asks for the listing of pages.
pub const LISTING_ATTEMPTS: u32 = 15;

/// Pause between two attempts of a probe, in seconds.
pub const PROBE_PAUSE_SECS: u64 = 1;

/// How long one request for the listing of pages may take, in seconds.
pub const LISTING_TIMEOUT_SECS: u64 = 3;

/// What is known of a profile: its name, the browser it runs, and the process
/// that was last recorded for it.
#[derive(Debug)]
pub struct BrowserProfile {
    pub name: String,
    pub browser: String,
    pub process_id: Option<u32>,
}

/// The model of a [`BrowserProfile`].
pub struct Profile {
    pub name: Seq<char>,
    pub browser: Seq<char>,
    pub process_id: Option<u32>,
}

impl View for BrowserProfile {
    type V = Profile;

    open spec fn view(&self) -> Profile {
        Profile { name: self.name@, browser: self.browser@, process_id: self.process_id }
    }
}

/// Whether the caller is willing to wait for a browser that is still coming up.
#[derive(Debug, Clone, Copy, PartialEq, Eq, Structural)]
pub enum Patience {
    /// One attempt, used to decide local-vs-remote without stalling.
    Immediate,
    /// The full retry budget, used once the answer is known to be local.
    WaitForLaunch,
}

impl Patience {
    /// How many attempts a probe makes that may make `waiting` of them.
    pub open spec fn budget(self, waiting: u32) -> u32 {
        match self {
            Patience::Immediate => 1,
            Patience::WaitForLaunch => waiting,
        }
    }

    /// How many attempts a probe makes that may make `waiting` of them.
    pub fn attempts(self, waiting: u32) -> (attempts: u32)
        ensures
            attempts == self.budget(waiting),
    {
        match self {
            Patience::Immediate => 1,
            Patience::WaitForLaunch => waiting,
        }
    }
}

/// What a finished probe of the local browser found: the socket of a page, if
/// any.
#[derive(Debug)]
pub struct Probe {
    patience: Patience,
    found: Option<String>,
}

/// The model of a [`Probe`].
pub struct Probed {
    pub patience: Patience,
    pub found: Option<Seq<char>>,
}

impl View for Probe {
    type V = Probed;

    closed spec fn view(&self) -> Probed {
        Probed {
            patience: self.patience,
            found: crate::text::optional_text(self.found),
        }
    }
}

impl Probe {
    /// Whether the probe found nothing.
    pub fn is_miss(&self) -> (miss: bool)
        ensures
            miss == (self@.found is None),
    {
        self.found.is_none()
    }
}

/// What is to be done next to resolve a profile.
#[derive(Debug)]
pub enum ResolveStep {
    /// Probe the local browser.
    Probe(Patience),
    /// The profile is resolved, or cannot be.
    Done(Result<CdpTarget, ResolveError>),
}

/// The model of a [`ResolveStep`]: a target is known by its socket's URL.
pub enum Resolving {
    Probe(Patience),
    Done(Result<Seq<char>, Unresolved>),
}

impl View for ResolveStep {
    type V = Resolving;

    open spec fn view(&self) -> Resolving {
        match self {
            ResolveStep::Probe(patience) => Resolving::Probe(*patience),
            ResolveStep::Done(Ok(target)) => Resolving::Done(Ok(target@)),
            ResolveStep::Done(Err(error)) => Resolving::Done(Err(error@)),
        }
    }
}

/// The last probe of a resolution, if one was made.
pub open spec fn last_probe(last: Option<Probe>) -> Option<Probed> {
    match last {
        Some(probe) => Some(probe@),
        None => None,
    }
}

/// The profile runs a browser that cannot be driven.
pub open spec fn unsupported(profile: Profile) -> Unresolved {
    Unresolved::Unsupported(
        "Profile '"@ + profile.name + "' runs "@ + profile.browser
            + ", which cannot be driven over CDP"@,
    )
}

/// No process is recorded for the profile.
pub open spec fn not_running(profile: Profile) -> Unresolved {
    Unresolved::NotRunning("Profile '"@ + profile.name + "' is not running"@)
}

/// A process is recorded for the profile, and no page of it was found.
pub open spec fn not_answering(profile: Profile) -> Unresolved {
    Unresolved::NotRunning(
        "No CDP connection available for profile '"@ + profile.name
            + "'. Make sure the browser is running."@,
    )
}

/// How the resolution of a profile goes on after its last probe.
pub open spec fn resolving(profile: Profile, last: Option<Probed>) -> Resolving {
    if profile.browser != "wayfern"@ {
        Resolving::Done(Err(unsupported(profile)))
    } else if profile.process_id is None {
        Resolving::Done(Err(not_running(profile)))
    } else {
        match last {
            None => Resolving::Probe(Patience::Immediate),
            Some(probe) => match (probe.found, probe.patience) {
                (Some(ws_url), _) => Resolving::Done(Ok(ws_url)),
                (None, Patience::Immediate) => Resolving::Probe(Patience::WaitForLaunch),
                (None, Patience::WaitForLaunch) => Resolving::Done(Err(not_answering(profile))),
            },
        }
    }
}

/// Find the local browser for `profile`: what to do next, given what the last
/// probe found.
///
/// The check is split in two: one cheap probe first, then, only if that misses,
/// a patient probe that spends its full budget waiting for a browser that is
/// still starting. The split also covers a stale `process_id` left by a crash,
/// where nothing answers on the recorded port.
pub fn resolve(profile: &BrowserProfile, last: Option<Probe>) -> (step: ResolveStep)
    ensures
        step@ == resolving(profile@, last_probe(last)),
{
    if !same_text(profile.browser.as_str(), "wayfern") {
        return ResolveStep::Done(
            Err(
                ResolveError::Unsupported(
                    "Profile '".to_owned().concat(profile.name.as_str()).concat("' runs ").concat(
                        profile.browser.as_str(),
                    ).concat(", which cannot be driven over CDP"),
                ),
            ),
        );
    }
    if profile.process_id.is_none() {
        return ResolveStep::Done(
            Err(
                ResolveError::NotRunning(
                    "Profile '".to_owned().concat(profile.name.as_str()).concat(
                        "' is not running",
                    ),
                ),
            ),
        );
    }
    match last {
        None => ResolveStep::Probe(Patience::Immediate),
        Some(probe) => match (probe.found, probe.patience) {
            (Some(ws_url), _) => ResolveStep::Done(Ok(CdpTarget::Local { ws_url })),
            (None, Patience::Immediate) => ResolveStep::Probe(Patience::WaitForLaunch),
            (None, Patience::WaitForLaunch) => ResolveStep::Done(
                Err(
                    ResolveError::NotRunning(
                        "No CDP connection available for profile '".to_owned().concat(
                            profile.name.as_str(),
                        ).concat("'. Make sure the browser is running."),
                    ),
                ),
            ),
        },
    }
}

/// The search for the debugging port of a profile, and how many of its attempts
/// have missed.
#[derive(Debug)]
pub struct PortSearch {
    patience: Patience,
    misses: u32,
}

/// The model of a [`PortSearch`].
pub struct PortState {
    pub patience: Patience,
    pub misses: u32,
}

impl View for PortSearch {
    type V = PortState;

    closed spec fn view(&self) -> PortState {
        PortState { patience: self.patience, misses: self.misses }
    }
}

/// The search for a page on a debugging port, and how many of its attempts have
/// missed.
#[derive(Debug)]
pub struct PageSearch {
    patience: Patience,
    port: u16,
    misses: u32,
}

/// The model of a [`PageSearch`].
pub struct PageState {
    pub patience: Patience,
    pub port: u16,
    pub misses: u32,
}

impl View for PageSearch {
    type V = PageState;

    closed spec fn view(&self) -> PageState {
        PageState { patience: self.patience, port: self.port, misses: self.misses }
    }
}

/// What a probe of the local browser wants done next.
#[derive(Debug)]
pub enum ProbeStep {
    /// Pause for so many seconds, and ask for the debugging port of the profile.
    AskPort { pause_secs: u64, search: PortSearch },
    /// Pause for so many seconds, and fetch the listing of pages.
    Fetch { pause_secs: u64, url: String, search: PageSearch },
    /// Nothing more: the probe is over.
    Done(Probe),
}

/// The model of a [`ProbeStep`].
pub enum Probing {
    AskPort { pause_secs: u64, search: PortState },
    Fetch { pause_secs: u64, url: Seq<char>, search: PageState },
    Done(Probed),
}

impl View for ProbeStep {
    type V = Probing;

    open spec fn view(&self) -> Probing {
        match self {
            ProbeStep::AskPort { pause_secs, search } => Probing::AskPort {
                pause_secs: *pause_secs,
                search: search@,
            },
            ProbeStep::Fetch { pause_secs, url, search } => Probing::Fetch {
                pause_secs: *pause_secs,
                url: url@,
                search: search@,
            },
            ProbeStep::Done(probe) => Probing::Done(probe@),
        }
    }
}

/// A probe at its beginning: the port is asked for at once.
pub open spec fn probe_begun(patience: Patience) -> Probing {
    Probing::AskPort { pause_secs: 0, search: PortState { patience, misses: 0 } }
}

/// Begin to probe the local browser of a profile.
pub fn begin_probe(patience: Patience) -> (step: ProbeStep)
    ensures
        step@ == probe_begun(patience),
{
    ProbeStep::AskPort { pause_secs: 0, search: PortSearch { patience, misses: 0 } }
}

/// Where a local browser lists its pages.
pub open spec fn listing_address(port: u16) -> Seq<char> {
    "http://127.0.0.1:"@ + crate::text::decimal(port as nat) + "/json"@
}

/// Where a local browser lists its pages.
pub fn listing_url(port: u16) -> (url: String)
    ensures
        url@ == listing_address(port),
{
    "http://127.0.0.1:".to_owned().concat(decimal_text(port as u64).as_str()).concat("/json")
}

/// How a probe goes on once the port was asked for: with a port, its listing is
/// fetched at once; without one, the port is asked for again while the budget
/// lasts, and then the probe is over without a request.
pub open spec fn port_answered(search: PortState, answer: Option<u16>) -> Probing {
    match answer {
        Some(port) => Probing::Fetch {
            pause_secs: 0,
            url: listing_address(port),
            search: PageState { patience: search.patience, port, misses: 0 },
        },
        None => if search.misses + 1 < search.patience.budget(PORT_ATTEMPTS) {
            Probing::AskPort {
                pause_secs: PROBE_PAUSE_SECS,
                search: PortState { misses: (search.misses + 1) as u32, ..search },
            }
        } else {
            Probing::Done(Probed { patience: search.patience, found: None })
        },
    }
}

impl PortSearch {
    /// Another attempt is within the budget.
    #[verifier::type_invariant]
    spec fn another_is_due(&self) -> bool {
        self.misses < self.patience.budget(PORT_ATTEMPTS)
    }
}

/// The debugging port a locally launched browser registered for a profile: how
/// the probe goes on, given the answer to an attempt.
pub fn local_cdp_port(search: PortSearch, answer: Option<u16>) -> (step: ProbeStep)
    ensures
        step@ == port_answered(search@, answer),
        search@.misses < search@.patience.budget(PORT_ATTEMPTS),
{
    proof {
        use_type_invariant(&search);
    }
    let patience = search.patience;
    match answer {
        Some(port) => ProbeStep::Fetch {
            pause_secs: 0,
            url: listing_url(port),
            search: PageSearch { patience, port, misses: 0 },
        },
        None => {
            let misses: u32 = search.misses + 1;
            if misses < patience.attempts(PORT_ATTEMPTS) {
                ProbeStep::AskPort {
                    pause_secs: PROBE_PAUSE_SECS,
                    search: PortSearch { patience, misses },
                }
            } else {
                ProbeStep::Done(Probe { patience, found: None })
            }
        },
    }
}

/// An entry of the listing is a page.
pub open spec fn is_page(entry: Json) -> bool {
    json::text_member(entry, "type"@) == Some("page"@)
}

/// The socket that the listing names for its first page.
pub open spec fn page_socket(listing: Seq<Json>) -> Option<Seq<char>>
    decreases listing.len(),
{
    if listing.len() == 0 {
        None
    } else if is_page(listing[0]) {
        json::text_member(listing[0], "webSocketDebuggerUrl"@)
    } else {
        page_socket(listing.drop_first())
    }
}

/// What the entries of a listing hold, if there is one.
pub open spec fn listed(listing: Option<Vec<Value>>) -> Option<Seq<Json>> {
    match listing {
        Some(targets) => Some(json::json_list(targets@)),
        None => None,
    }
}

/// The socket of a page that an attempt to fetch the listing found: none where
/// the listing names none, or did not come.
pub open spec fn socket_in(listing: Option<Seq<Json>>) -> Option<Seq<char>> {
    match listing {
        Some(entries) => page_socket(entries),
        None => None,
    }
}

/// How a probe goes on once the listing was fetched, or could not be.
pub open spec fn page_listed(search: PageState, listing: Option<Seq<Json>>) -> Probing {
    match socket_in(listing) {
        Some(ws_url) => Probing::Done(Probed { patience: search.patience, found: Some(ws_url) }),
        None => if search.misses + 1 < search.patience.budget(LISTING_ATTEMPTS) {
            Probing::Fetch {
                pause_secs: PROBE_PAUSE_SECS,
                url: listing_address(search.port),
                search: PageState { misses: (search.misses + 1) as u32, ..search },
            }
        } else {
            Probing::Done(Probed { patience: search.patience, found: None })
        },
    }
}

impl PageSearch {
    /// The debugging port that the search is for.
    pub fn port(&self) -> (port: u16)
        ensures
            port == self@.port,
    {
        self.port
    }

    /// Another attempt is within the budget.
    #[verifier::type_invariant]
    spec fn another_is_due(&self) -> bool {
        self.misses < self.patience.budget(LISTING_ATTEMPTS)
    }
}

/// A page-level socket on a locally running browser: how the probe goes on,
/// given the listing that an attempt gave, if it gave one.
///
/// A miss is no error: it is how the resolver decides the browser is not local,
/// and a port whose process has since died answers nothing, which is exactly the
/// signal that decision needs.
pub fn local_page_ws_url(search: PageSearch, listing: Option<Vec<Value>>) -> (step: ProbeStep)
    ensures
        step@ == page_listed(search@, listed(listing)),
        search@.misses < search@.patience.budget(LISTING_ATTEMPTS),
{
    proof {
        use_type_invariant(&search);
    }
    let PageSearch { patience, port, misses } = search;
    if let Some(targets) = &listing {
        if let Some(ws_url) = pick_local_page_socket(targets.as_slice()) {
            return ProbeStep::Done(Probe { patience, found: Some(ws_url) });
        }
    }
    let misses: u32 = misses + 1;
    if misses < patience.attempts(LISTING_ATTEMPTS) {
        ProbeStep::Fetch {
            pause_secs: PROBE_PAUSE_SECS,
            url: listing_url(port),
            search: PageSearch { patience, port, misses },
        }
    } else {
        ProbeStep::Done(Probe { patience, found: None })
    }
}

/// The string member of an object under `key`.
fn text_of_member(entry: &Value, key: &str) -> (text: Option<String>)
    ensures
        crate::text::optional_text(text) == json::text_member(json::json_of(*entry), key@),
{
    match json::get(entry, key) {
        Some(found) => match json::as_str(found) {
            Some(text) => Some(text.to_owned()),
            None => None,
        },
        None => None,
    }
}

/// Pick a drivable page from what `/json` lists on a local browser.
pub fn pick_local_page_socket(targets: &[Value]) -> (ws_url: Option<String>)
    ensures
        crate::text::optional_text(ws_url) == page_socket(json::json_list(targets@)),
{
    let ghost entries = json::json_list(targets@);
    let mut i: usize = 0;
    assert(entries.skip(0) == entries);
    while i < targets.len()
        invariant
            i <= targets@.len(),
            entries == json::json_list(targets@),
            page_socket(entries) == page_socket(entries.skip(i as int)),
        decreases targets@.len() - i,
    {
        let target = &targets[i];
        let page = match text_of_member(target, "type") {
            Some(kind) => same_text(kind.as_str(), "page"),
            None => false,
        };
        assert(entries.skip(i as int)[0] == json::json_of(*target));
        if page {
            return text_of_member(target, "webSocketDebuggerUrl");
        }
        assert(entries.skip(i as int).drop_first() == entries.skip(i + 1));
        i = i + 1;
    }
    None
}

} // verus!
