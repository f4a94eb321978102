//! What holds of the search for a profile's browser as a whole.

use crate::discovery::{Patience, Probed, Probing, Profile, Resolving};
use crate::error::Unresolved;
use crate::json::Json;
use vstd::prelude::*;

verus! {

/// What a profile is resolved to, where the cheap probe would find `cheap` and
/// the patient probe `patient`: each step is taken as it is asked for.
pub open spec fn resolution(
    profile: Profile,
    cheap: Option<Seq<char>>,
    patient: Option<Seq<char>>,
) -> Option<Result<Seq<char>, Unresolved>> {
    match crate::discovery::resolving(profile, None) {
        Resolving::Done(result) => Some(result),
        Resolving::Probe(first) => match crate::discovery::resolving(
            profile,
            Some(
                Probed {
                    patience: first,
                    found: if first is Immediate {
                        cheap
                    } else {
                        patient
                    },
                },
            ),
        ) {
            Resolving::Done(result) => Some(result),
            Resolving::Probe(second) => match crate::discovery::resolving(
                profile,
                Some(
                    Probed {
                        patience: second,
                        found: if second is Immediate {
                            cheap
                        } else {
                            patient
                        },
                    },
                ),
            ) {
                Resolving::Done(result) => Some(result),
                Resolving::Probe(_) => None,
            },
        },
    }
}

/// Two probes are always enough, the cheap one coming first. The profile is
/// resolved exactly where it runs a browser that can be driven, a process is
/// recorded for it, and one of the probes finds a page; and what the cheap one
/// finds wins.
pub proof fn a_profile_is_resolved_by_two_probes(
    profile: Profile,
    cheap: Option<Seq<char>>,
    patient: Option<Seq<char>>,
)
    ensures
        resolution(profile, cheap, patient) == Some(
            if profile.browser != "wayfern"@ {
                Err(crate::discovery::unsupported(profile))
            } else if profile.process_id is None {
                Err(crate::discovery::not_running(profile))
            } else {
                match (cheap, patient) {
                    (Some(ws_url), _) => Ok(ws_url),
                    (None, Some(ws_url)) => Ok(ws_url),
                    (None, None) => Err(crate::discovery::not_answering(profile)),
                }
            },
        ),
{
}

/// The patient probe is made only after the cheap one missed.
pub proof fn patience_comes_second(profile: Profile, last: Option<Probed>)
    requires
        crate::discovery::resolving(profile, last) == Resolving::Probe(Patience::WaitForLaunch),
    ensures
        last matches Some(probe) && probe.patience is Immediate && probe.found is None,
{
}

/// What came of the last step of a probe: the port that was asked for, or the
/// listing that was fetched, if there is one.
pub enum ProbeEvent {
    Port(Option<u16>),
    Listing(Option<Seq<Json>>),
}

/// `event` is one that may follow the step.
pub open spec fn probe_expects(step: Probing, event: ProbeEvent) -> bool {
    match step {
        Probing::AskPort { .. } => event is Port,
        Probing::Fetch { .. } => event is Listing,
        Probing::Done(_) => false,
    }
}

/// The step that follows `event`.
pub open spec fn probe_after(step: Probing, event: ProbeEvent) -> Probing {
    match (step, event) {
        (Probing::AskPort { search, .. }, ProbeEvent::Port(answer)) =>
            crate::discovery::port_answered(search, answer),
        (Probing::Fetch { search, .. }, ProbeEvent::Listing(listing)) =>
            crate::discovery::page_listed(search, listing),
        _ => step,
    }
}

/// The events may happen to a probe at this step, in this order.
pub open spec fn probe_admits(step: Probing, events: Seq<ProbeEvent>) -> bool
    decreases events.len(),
{
    events.len() > 0 ==> probe_expects(step, events[0]) && probe_admits(
        probe_after(step, events[0]),
        events.drop_first(),
    )
}

/// The step that a probe has come to after the events.
pub open spec fn probe_end(step: Probing, events: Seq<ProbeEvent>) -> Probing
    decreases events.len(),
{
    if events.len() == 0 {
        step
    } else {
        probe_end(probe_after(step, events[0]), events.drop_first())
    }
}

/// How often the port was asked for.
pub open spec fn ports_asked(events: Seq<ProbeEvent>) -> nat
    decreases events.len(),
{
    if events.len() == 0 {
        0
    } else {
        ports_asked(events.drop_first()) + if events[0] is Port {
            1nat
        } else {
            0
        }
    }
}

/// How often the listing was fetched.
pub open spec fn listings_fetched(events: Seq<ProbeEvent>) -> nat
    decreases events.len(),
{
    if events.len() == 0 {
        0
    } else {
        listings_fetched(events.drop_first()) + if events[0] is Listing {
            1nat
        } else {
            0
        }
    }
}

spec fn ports_left(step: Probing) -> int {
    match step {
        Probing::AskPort { search, .. } => search.patience.budget(
            crate::discovery::PORT_ATTEMPTS,
        ) - search.misses,
        _ => 0,
    }
}

spec fn listings_left(step: Probing) -> int {
    match step {
        Probing::AskPort { search, .. } => search.patience.budget(
            crate::discovery::LISTING_ATTEMPTS,
        ) as int,
        Probing::Fetch { search, .. } => search.patience.budget(
            crate::discovery::LISTING_ATTEMPTS,
        ) - search.misses,
        Probing::Done(_) => 0,
    }
}

spec fn patience_of(step: Probing) -> Patience {
    match step {
        Probing::AskPort { search, .. } => search.patience,
        Probing::Fetch { search, .. } => search.patience,
        Probing::Done(probe) => probe.patience,
    }
}

spec fn is_within_budget(step: Probing) -> bool {
    match step {
        Probing::AskPort { .. } => ports_left(step) > 0,
        Probing::Fetch { .. } => listings_left(step) > 0,
        Probing::Done(_) => true,
    }
}

proof fn probe_counts(step: Probing, events: Seq<ProbeEvent>)
    requires
        is_within_budget(step),
        probe_admits(step, events),
    ensures
        ports_asked(events) <= ports_left(step),
        listings_fetched(events) <= listings_left(step),
        patience_of(probe_end(step, events)) == patience_of(step),
        step is Done ==> events.len() == 0,
        !(step is Done) && (probe_end(step, events) matches Probing::Done(probe)
            && probe.found is None) ==> (listings_fetched(events) == 0 && ports_asked(events)
            == ports_left(step)) || listings_fetched(events) == listings_left(step),
    decreases events.len(),
{
    if events.len() > 0 {
        let next = probe_after(step, events[0]);
        probe_counts(next, events.drop_first());
        if next is Done {
            assert(ports_asked(events.drop_first()) == 0);
            assert(listings_fetched(events.drop_first()) == 0);
            assert(probe_end(next, events.drop_first()) == next);
        }
    }
}

/// However a probe goes, from its beginning on, it asks for the port at most as
/// often as its patience allows, and fetches the listing at most so often: once
/// each if it is hasty, else ten and fifteen times. It ends without a socket
/// only when one of the two budgets is spent, and tells its own patience.
pub proof fn a_probe_is_bounded(patience: Patience, events: Seq<ProbeEvent>)
    requires
        probe_admits(crate::discovery::probe_begun(patience), events),
    ensures
        ports_asked(events) <= patience.budget(crate::discovery::PORT_ATTEMPTS),
        listings_fetched(events) <= patience.budget(crate::discovery::LISTING_ATTEMPTS),
        probe_end(crate::discovery::probe_begun(patience), events) matches Probing::Done(probe)
            ==> {
            &&& probe.patience == patience
            &&& probe.found is None ==> (listings_fetched(events) == 0 && ports_asked(events)
                == patience.budget(crate::discovery::PORT_ATTEMPTS)) || listings_fetched(events)
                == patience.budget(crate::discovery::LISTING_ATTEMPTS)
        },
{
    probe_counts(crate::discovery::probe_begun(patience), events);
}

proof fn without_a_port(step: Probing, events: Seq<ProbeEvent>)
    requires
        step is AskPort,
        is_within_budget(step),
        probe_admits(step, events),
        forall|i: int|
            0 <= i < events.len() ==> (#[trigger] events[i] matches ProbeEvent::Port(answer)
                ==> answer is None),
    ensures
        listings_fetched(events) == 0,
        !(probe_end(step, events) is Fetch),
        probe_end(step, events) matches Probing::Done(probe) ==> probe.found is None
            && ports_asked(events) == ports_left(step),
    decreases events.len(),
{
    if events.len() > 0 {
        let next = probe_after(step, events[0]);
        let rest = events.drop_first();
        assert(events[0] is Port);
        if next is Done {
            probe_counts(next, rest);
            assert(rest.len() == 0);
        } else {
            assert forall|i: int| 0 <= i < rest.len() implies (
            #[trigger] rest[i] matches ProbeEvent::Port(answer) ==> answer is None) by {
                assert(rest[i] == events[i + 1]);
            }
            without_a_port(next, rest);
        }
    }
}

/// Where no port is ever told, no request is made at all, and the probe ends
/// with nothing found, after asking as often as its patience allows.
pub proof fn no_port_no_request(patience: Patience, events: Seq<ProbeEvent>)
    requires
        probe_admits(crate::discovery::probe_begun(patience), events),
        forall|i: int|
            0 <= i < events.len() ==> (#[trigger] events[i] matches ProbeEvent::Port(answer)
                ==> answer is None),
    ensures
        listings_fetched(events) == 0,
        !(probe_end(crate::discovery::probe_begun(patience), events) is Fetch),
        probe_end(crate::discovery::probe_begun(patience), events) matches Probing::Done(probe)
            ==> probe == (Probed { patience, found: None }) && ports_asked(events)
            == patience.budget(crate::discovery::PORT_ATTEMPTS),
{
    without_a_port(crate::discovery::probe_begun(patience), events);
    probe_counts(crate::discovery::probe_begun(patience), events);
}

/// Every request is for the listing on the port that the search is for, with a
/// pause of a second before each but the first; and a search for a page begins
/// only with a port that was told.
pub proof fn a_request_goes_to_the_port_that_was_told(step: Probing, event: ProbeEvent)
    requires
        probe_expects(step, event),
    ensures
        probe_after(step, event) matches Probing::Fetch { pause_secs, url, search } ==> {
            &&& url == crate::discovery::listing_address(search.port)
            &&& match step {
                Probing::AskPort { .. } => event == ProbeEvent::Port(Some(search.port))
                    && pause_secs == 0,
                Probing::Fetch { search: before, .. } => before.port == search.port && pause_secs
                    == 1,
                Probing::Done(_) => false,
            }
        },
        probe_after(step, event) matches Probing::AskPort { pause_secs, .. } ==> pause_secs == 1,
{
}

/// A probe ends with a socket exactly when a listing names one for its first
/// page, and every other listing, and every failure to get one, is a miss that
/// looks the same.
pub proof fn a_probe_ends_with_what_the_listing_names(
    step: Probing,
    listing: Option<Seq<Json>>,
)
    requires
        step is Fetch,
    ensures
        match crate::discovery::socket_in(listing) {
            Some(ws_url) => probe_after(step, ProbeEvent::Listing(listing)) == Probing::Done(
                Probed { patience: step->Fetch_search.patience, found: Some(ws_url) },
            ),
            None => probe_after(step, ProbeEvent::Listing(listing)) == probe_after(
                step,
                ProbeEvent::Listing(None),
            ),
        },
{
}

/// The socket that is picked is the one the listing names for the first page in
/// it, whatever else it lists.
pub proof fn the_first_page_is_picked(listing: Seq<Json>, i: int)
    requires
        0 <= i < listing.len(),
        crate::discovery::is_page(listing[i]),
        forall|j: int| 0 <= j < i ==> !crate::discovery::is_page(#[trigger] listing[j]),
    ensures
        crate::discovery::page_socket(listing) == crate::json::text_member(
            listing[i],
            "webSocketDebuggerUrl"@,
        ),
    decreases listing.len(),
{
    if i > 0 {
        assert(!crate::discovery::is_page(listing[0]));
        let rest = listing.drop_first();
        assert(rest[i - 1] == listing[i]);
        assert forall|j: int| 0 <= j < i - 1 implies !crate::discovery::is_page(
            #[trigger] rest[j],
        ) by {
            assert(rest[j] == listing[j + 1]);
        }
        the_first_page_is_picked(rest, i - 1);
    }
}

/// A listing without a page names no socket.
pub proof fn no_page_no_socket(listing: Seq<Json>)
    requires
        forall|j: int|
            0 <= j < listing.len() ==> !crate::discovery::is_page(#[trigger] listing[j]),
    ensures
        crate::discovery::page_socket(listing) is None,
    decreases listing.len(),
{
    if listing.len() > 0 {
        assert(!crate::discovery::is_page(listing[0]));
        let rest = listing.drop_first();
        assert forall|j: int| 0 <= j < rest.len() implies !crate::discovery::is_page(
            #[trigger] rest[j],
        ) by {
            assert(rest[j] == listing[j + 1]);
        }
        no_page_no_socket(rest);
    }
}

} // verus!
