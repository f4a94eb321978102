//! Which page of a listing is picked, told by the members of its entries alone,
//! and each step of the search for it.

use crate::discovery::{PageState, Patience, PortState, Probed, Probing, Profile, Resolving};
use crate::error::Unresolved;
use crate::json::Json;
use vstd::prelude::*;

verus! {

// The page
// --------

/// An entry is a page exactly where it is an object whose member `type` is the
/// string `page`, whatever else it holds.
pub proof fn a_page_is_known_by_its_type(members: Map<Seq<char>, Json>, entry: Json)
    ensures
        crate::discovery::is_page(Json::Object(members)) <==> members.dom().contains("type"@)
            && members["type"@] == Json::Text("page"@),
        !(entry is Object) ==> !crate::discovery::is_page(entry),
{
}

/// The first entry of a listing that is an object whose member `type` is the
/// string `page` decides: its string member `webSocketDebuggerUrl` is the socket,
/// as it is, and without one there is none, even if a later page has one. What
/// else the entries hold makes no difference.
pub proof fn the_first_page_names_the_socket(
    listing: Seq<Json>,
    i: int,
    members: Map<Seq<char>, Json>,
    ws_url: Seq<char>,
)
    requires
        0 <= i < listing.len(),
        forall|j: int|
            0 <= j < i ==> !(#[trigger] listing[j] matches Json::Object(others)
                && others.dom().contains("type"@) && others["type"@] == Json::Text("page"@)),
        listing[i] == Json::Object(members),
        members.dom().contains("type"@),
        members["type"@] == Json::Text("page"@),
    ensures
        crate::discovery::page_socket(listing) == Some(ws_url) <==> members.dom().contains(
            "webSocketDebuggerUrl"@,
        ) && members["webSocketDebuggerUrl"@] == Json::Text(ws_url),
        crate::discovery::page_socket(listing) is None <==> !(members.dom().contains(
            "webSocketDebuggerUrl"@,
        ) && members["webSocketDebuggerUrl"@] is Text),
        crate::discovery::socket_in(Some(listing)) == crate::discovery::page_socket(listing),
    decreases i,
{
    if i > 0 {
        let rest = listing.drop_first();
        let first = listing[0];
        assert(!(first matches Json::Object(others) && others.dom().contains("type"@)
            && others["type"@] == Json::Text("page"@)));
        assert(rest[i - 1] == listing[i]);
        assert forall|j: int| 0 <= j < i - 1 implies !(#[trigger] rest[j] matches Json::Object(
            others,
        ) && others.dom().contains("type"@) && others["type"@] == Json::Text("page"@)) by {
            assert(rest[j] == listing[j + 1]);
        }
        the_first_page_names_the_socket(rest, i - 1, members, ws_url);
    }
}

/// A listing without such an entry names no socket, nor does one that did not
/// come.
pub proof fn a_listing_without_a_page_names_no_socket(listing: Seq<Json>)
    requires
        forall|j: int|
            0 <= j < listing.len() ==> !(#[trigger] listing[j] matches Json::Object(others)
                && others.dom().contains("type"@) && others["type"@] == Json::Text("page"@)),
    ensures
        crate::discovery::page_socket(listing) is None,
        crate::discovery::socket_in(Some(listing)) is None,
        crate::discovery::socket_in(None) is None,
    decreases listing.len(),
{
    if listing.len() > 0 {
        let rest = listing.drop_first();
        let first = listing[0];
        assert(!(first matches Json::Object(others) && others.dom().contains("type"@)
            && others["type"@] == Json::Text("page"@)));
        assert forall|j: int| 0 <= j < rest.len() implies !(
        #[trigger] rest[j] matches Json::Object(others) && others.dom().contains("type"@)
            && others["type"@] == Json::Text("page"@)) by {
            assert(rest[j] == listing[j + 1]);
        }
        a_listing_without_a_page_names_no_socket(rest);
    }
}

/// The two entries have the same `type` and the same `webSocketDebuggerUrl`, if
/// any.
pub open spec fn name_the_same(
    members: Map<Seq<char>, Json>,
    others: Map<Seq<char>, Json>,
) -> bool {
    &&& members.dom().contains("type"@) <==> others.dom().contains("type"@)
    &&& members.dom().contains("type"@) ==> members["type"@] == others["type"@]
    &&& members.dom().contains("webSocketDebuggerUrl"@) <==> others.dom().contains(
        "webSocketDebuggerUrl"@,
    )
    &&& members.dom().contains("webSocketDebuggerUrl"@) ==> members["webSocketDebuggerUrl"@]
        == others["webSocketDebuggerUrl"@]
}

/// The socket that a listing names depends on these two members of its entries
/// and on nothing else that they hold.
pub proof fn titles_make_no_difference(
    listing: Seq<Map<Seq<char>, Json>>,
    other: Seq<Map<Seq<char>, Json>>,
)
    requires
        listing.len() == other.len(),
        forall|i: int|
            0 <= i < listing.len() ==> name_the_same(#[trigger] listing[i], other[i]),
    ensures
        crate::discovery::page_socket(
            Seq::new(listing.len(), |i: int| Json::Object(listing[i])),
        ) == crate::discovery::page_socket(
            Seq::new(other.len(), |i: int| Json::Object(other[i])),
        ),
    decreases listing.len(),
{
    let entries = Seq::new(listing.len(), |i: int| Json::Object(listing[i]));
    let others = Seq::new(other.len(), |i: int| Json::Object(other[i]));
    if listing.len() > 0 {
        let rest = listing.drop_first();
        let other_rest = other.drop_first();
        assert(name_the_same(listing[0], other[0]));
        assert forall|i: int| 0 <= i < rest.len() implies name_the_same(
            #[trigger] rest[i],
            other_rest[i],
        ) by {
            assert(name_the_same(listing[i + 1], other[i + 1]));
        }
        titles_make_no_difference(rest, other_rest);
        assert(entries.drop_first() =~= Seq::new(rest.len(), |i: int| Json::Object(rest[i])));
        assert(others.drop_first() =~= Seq::new(
            other_rest.len(),
            |i: int| Json::Object(other_rest[i]),
        ));
        assert(entries[0] == Json::Object(listing[0]));
        assert(others[0] == Json::Object(other[0]));
    }
}

// The search
// ----------

/// A hasty search makes one attempt, whatever a patient one may make; and a
/// patient one makes as many as it may.
pub proof fn haste_is_one_attempt(waiting: u32)
    ensures
        Patience::Immediate.budget(waiting) == 1,
        Patience::WaitForLaunch.budget(waiting) == waiting,
{
}

/// The listing is fetched from this machine, on the port that was told, written
/// in decimal.
pub proof fn a_listing_is_fetched_from_this_machine(port: u16, other: u16)
    ensures
        crate::discovery::listing_address(port) == "http://127.0.0.1:"@ + crate::text::decimal(
            port as nat,
        ) + "/json"@,
        crate::discovery::listing_address(port) == crate::discovery::listing_address(other)
            ==> port == other,
{
    let head = "http://127.0.0.1:"@;
    let tail = "/json"@;
    let digits = crate::text::decimal(port as nat);
    let other_digits = crate::text::decimal(other as nat);
    let address = head + digits + tail;
    if crate::discovery::listing_address(port) == crate::discovery::listing_address(other) {
        assert(address == head + other_digits + tail);
        assert(digits.len() == other_digits.len());
        assert(digits =~= address.subrange(head.len() as int, (head.len() + digits.len()) as int));
        assert(other_digits =~= address.subrange(
            head.len() as int,
            (head.len() + digits.len()) as int,
        ));
        crate::outcome_laws::a_number_is_written_in_one_way(port as nat, other as nat);
    }
}

/// A probe begins by asking for the port at once.
pub proof fn a_probe_begins_without_a_pause(patience: Patience)
    ensures
        crate::discovery::probe_begun(patience) == (Probing::AskPort {
            pause_secs: 0,
            search: PortState { patience, misses: 0 },
        }),
{
}

/// The port that is told is the one whose listing is fetched, at once and from
/// the first attempt on. Where none is told, a patient search asks again after a
/// second, nine times at most, and a hasty one never; then the probe is over
/// with nothing found.
pub proof fn a_port_is_asked_for_ten_times(patience: Patience, misses: u32, port: u16)
    ensures
        crate::discovery::port_answered(PortState { patience, misses }, Some(port)) == (
        Probing::Fetch {
            pause_secs: 0,
            url: crate::discovery::listing_address(port),
            search: PageState { patience, port, misses: 0 },
        }),
        crate::discovery::port_answered(PortState { patience, misses }, None) == if patience
            is WaitForLaunch && misses < 9 {
            Probing::AskPort {
                pause_secs: 1,
                search: PortState { patience, misses: (misses + 1) as u32 },
            }
        } else {
            Probing::Done(Probed { patience, found: None })
        },
{
}

/// A socket that the listing names ends the probe, whenever it comes, and is
/// what the probe found, as it is. Otherwise a patient search fetches the same
/// listing again after a second, fourteen times at most, and a hasty one never;
/// then the probe is over with nothing found.
pub proof fn a_listing_is_fetched_fifteen_times(
    patience: Patience,
    port: u16,
    misses: u32,
    listing: Option<Seq<Json>>,
)
    ensures
        crate::discovery::page_listed(PageState { patience, port, misses }, listing) == match (
            listing,
            crate::discovery::page_socket(listing->Some_0),
        ) {
            (Some(_), Some(ws_url)) => Probing::Done(Probed { patience, found: Some(ws_url) }),
            _ => if patience is WaitForLaunch && misses < 14 {
                Probing::Fetch {
                    pause_secs: 1,
                    url: crate::discovery::listing_address(port),
                    search: PageState { patience, port, misses: (misses + 1) as u32 },
                }
            } else {
                Probing::Done(Probed { patience, found: None })
            },
        },
{
}

// The profile
// -----------

/// A profile that runs another browser than the one that can be driven is told
/// so, with its name and that browser, whatever else is known of it.
pub proof fn another_browser_is_not_driven(
    name: Seq<char>,
    browser: Seq<char>,
    process_id: Option<u32>,
    last: Option<Probed>,
)
    requires
        browser != "wayfern"@,
    ensures
        crate::discovery::resolving(Profile { name, browser, process_id }, last)
            == Resolving::Done(
            Err(
                Unresolved::Unsupported(
                    "Profile '"@ + name + "' runs "@ + browser
                        + ", which cannot be driven over CDP"@,
                ),
            ),
        ),
{
}

/// A profile without a process is told that it is not running, by its name, and
/// no probe is made.
pub proof fn a_profile_without_a_process_is_not_probed(name: Seq<char>, last: Option<Probed>)
    ensures
        crate::discovery::resolving(
            Profile { name, browser: "wayfern"@, process_id: None },
            last,
        ) == Resolving::Done(
            Err(Unresolved::NotRunning("Profile '"@ + name + "' is not running"@)),
        ),
{
}

/// A profile with a process is probed in haste first and then, if that found
/// nothing, with patience. Whichever finds a socket, that very socket is the
/// target. If neither does, the profile is told so by its name.
pub proof fn a_profile_with_a_process_is_what_its_probes_find(
    name: Seq<char>,
    process_id: u32,
    patience: Patience,
    ws_url: Seq<char>,
)
    ensures
        crate::discovery::resolving(
            Profile { name, browser: "wayfern"@, process_id: Some(process_id) },
            None,
        ) == Resolving::Probe(Patience::Immediate),
        crate::discovery::resolving(
            Profile { name, browser: "wayfern"@, process_id: Some(process_id) },
            Some(Probed { patience, found: Some(ws_url) }),
        ) == Resolving::Done(Ok(ws_url)),
        crate::discovery::resolving(
            Profile { name, browser: "wayfern"@, process_id: Some(process_id) },
            Some(Probed { patience: Patience::Immediate, found: None }),
        ) == Resolving::Probe(Patience::WaitForLaunch),
        crate::discovery::resolving(
            Profile { name, browser: "wayfern"@, process_id: Some(process_id) },
            Some(Probed { patience: Patience::WaitForLaunch, found: None }),
        ) == Resolving::Done(
            Err(
                Unresolved::NotRunning(
                    "No CDP connection available for profile '"@ + name
                        + "'. Make sure the browser is running."@,
                ),
            ),
        ),
{
}

} // verus!
