//! What the models are worth: each says of its value neither more nor less than
//! the value holds.

use crate::command::{Act, Action, Event, Happened, MessageNote, Noted, Watch, WatchStep};
use crate::connection::{
    Arrival, Arrived, Awaited, CloseInfo, HangUp, Heard, Item, NextText, ReplyStep, ReplyWait,
    StreamItem,
};
use crate::discovery::{
    BrowserProfile, PageSearch, Patience, PortSearch, Probe, ProbeStep, Probing, ResolveStep,
    Resolving,
};
use crate::error::{CdpError, Failure, ResolveError, Unresolved};
use crate::json::Json;
use crate::target::{
    CdpTarget, ConnectRun, ConnectStep, Connecting, Handshake, HandshakeEnd,
};
use serde_json::Value;
use vstd::prelude::*;

verus! {

/// An error is told apart by its kind, and keeps its words.
pub proof fn an_error_keeps_its_kind_and_words(words: String)
    ensures
        CdpError::Unreachable(words)@ == Failure::Unreachable(words@),
        CdpError::Unauthorized(words)@ == Failure::Unauthorized(words@),
        CdpError::NotDrivable(words)@ == Failure::NotDrivable(words@),
        CdpError::Transport(words)@ == Failure::Transport(words@),
        CdpError::Protocol(words)@ == Failure::Protocol(words@),
        ResolveError::Unsupported(words)@ == Unresolved::Unsupported(words@),
        ResolveError::NotRunning(words)@ == Unresolved::NotRunning(words@),
        ResolveError::Endpoint(words)@ == Unresolved::Endpoint(words@),
{
}

/// What worked is told apart from what failed, and both are kept as they are.
pub proof fn a_result_is_kept_as_it_is(value: Value, error: CdpError, now: u64, words: String)
    ensures
        crate::error::attempt(Ok(())) is Ok,
        crate::error::attempt(Err(error)) == Err::<(), Failure>(error@),
        crate::connection::outcome(Ok(value)) == Ok::<Json, Failure>(crate::json::json_of(value)),
        crate::connection::outcome(Err(error)) == Err::<Json, Failure>(error@),
        crate::connection::optional_outcome(None) is None,
        crate::connection::optional_outcome(Some(Ok(value))) == Some(
            Ok::<Json, Failure>(crate::json::json_of(value)),
        ),
        crate::connection::optional_outcome(Some(Err(error))) == Some(
            Err::<Json, Failure>(error@),
        ),
        crate::connection::parse_outcome(Ok(value)) == Ok::<Json, Seq<char>>(
            crate::json::json_of(value),
        ),
        crate::connection::parse_outcome(Err(words)) == Err::<Json, Seq<char>>(words@),
        crate::connection::sending(Ok(now)) == Ok::<u64, Seq<char>>(now),
        crate::connection::sending(Err(words)) == Err::<u64, Seq<char>>(words@),
        crate::command::answered(None) is None,
        crate::command::answered(Some(value)) == Some(crate::json::json_of(value)),
{
}

/// An optional text is there or not, and is kept as it is.
pub proof fn an_optional_text_is_kept_as_it_is(words: String, session: &str)
    ensures
        crate::text::optional_text(None) is None,
        crate::text::optional_text(Some(words)) == Some(words@),
        crate::connection::session_text(None) is None,
        crate::connection::session_text(Some(session)) == Some(session@),
{
}

/// What a read gave, with the code and the reason of a hang-up, is kept as it is.
pub proof fn a_read_is_kept_as_it_is(info: CloseInfo, words: String, now: u64, item: StreamItem)
    ensures
        info@ == (HangUp { code: info.code, reason: info.reason@ }),
        crate::connection::hang_up(None) is None,
        crate::connection::hang_up(Some(info)) == Some(info@),
        StreamItem::Text(words)@ == Item::Text(words@),
        StreamItem::Close(None)@ == Item::Close(None),
        StreamItem::Close(Some(info))@ == Item::Close(Some(info@)),
        StreamItem::Other@ == Item::Other,
        StreamItem::Failed(words)@ == Item::Failed(words@),
        StreamItem::Ended@ == Item::Ended,
        Arrival::Expired@ == Arrived::Expired,
        (Arrival::Item { now_nanos: now, item })@ == Arrived::Item(now, item@),
{
}

/// What is made of a read is kept as it is.
pub proof fn what_is_made_of_a_read_is_kept_as_it_is(
    words: String,
    error: CdpError,
    left_nanos: u128,
    wait: ReplyWait,
    value: Value,
)
    ensures
        NextText::Skip@ == Heard::Skip,
        NextText::Gone@ == Heard::Gone,
        NextText::Text(words)@ == Heard::Text(words@),
        NextText::Failed(error)@ == Heard::Failed(error@),
        (ReplyStep::Read { left_nanos, wait })@ == (Awaited::Read {
            left: left_nanos,
            wait: wait@,
        }),
        ReplyStep::Done(Ok(value))@ == Awaited::Done(Ok(crate::json::json_of(value))),
        ReplyStep::Done(Err(error))@ == Awaited::Done(Err(error@)),
        MessageNote::On(None)@ == Noted::On(None),
        MessageNote::On(Some(value))@ == Noted::On(Some(crate::json::json_of(value))),
        MessageNote::Over(Ok(value))@ == Noted::Over(Ok(crate::json::json_of(value))),
        MessageNote::Over(Err(error))@ == Noted::Over(Err(error@)),
        (WatchStep::Read { left_nanos, answer: None })@ == (Watch::Read {
            left: left_nanos,
            answer: None,
        }),
        (WatchStep::Read { left_nanos, answer: Some(value) })@ == (Watch::Read {
            left: left_nanos,
            answer: Some(crate::json::json_of(value)),
        }),
        WatchStep::Over(Ok(value))@ == Watch::Over(Ok(crate::json::json_of(value))),
        WatchStep::Over(Err(error))@ == Watch::Over(Err(error@)),
{
}

/// What happened to a run, and what it does, is kept as it is.
pub proof fn a_step_of_a_run_is_kept_as_it_is(
    error: CdpError,
    now: u64,
    words: String,
    arrival: Arrival,
    target: CdpTarget,
    nanos: u128,
    value: Value,
)
    ensures
        Event::Opened(Ok(()))@ matches Happened::Opened(opened) && opened is Ok,
        Event::Opened(Err(error))@ == Happened::Opened(Err(error@)),
        Event::Sent(Ok(now))@ == Happened::Sent(Ok(now)),
        Event::Sent(Err(words))@ == Happened::Sent(Err(words@)),
        Event::Arrived(arrival)@ == Happened::Arrived(arrival@),
        Event::Closed@ == Happened::Closed,
        Action::Connect(target)@ == Act::Connect(target@),
        Action::Send(words)@ == Act::Send(words@),
        Action::Read(nanos)@ == Act::Read(nanos),
        Action::Close@ == Act::Close,
        Action::Finish(Ok(value))@ == Act::Finish(Ok(crate::json::json_of(value))),
        Action::Finish(Err(error))@ == Act::Finish(Err(error@)),
{
}

/// A target is known by its address, and what came of reaching it is kept as it
/// is.
pub proof fn a_target_is_known_by_its_address(
    ws_url: String,
    delay_millis: u64,
    run: ConnectRun,
    error: CdpError,
    status: u16,
    words: String,
)
    ensures
        (CdpTarget::Local { ws_url })@ == ws_url@,
        ConnectStep::Connected@ == Connecting::Connected,
        (ConnectStep::Retry { delay_millis, run })@ == (Connecting::Retry {
            delay_millis,
            failures: run@,
        }),
        ConnectStep::GiveUp(error)@ == Connecting::GiveUp(error@),
        Handshake::Done@ == HandshakeEnd::Done,
        Handshake::TimedOut@ == HandshakeEnd::TimedOut,
        Handshake::Refused(status)@ == HandshakeEnd::Refused(status),
        Handshake::Failed(words)@ == HandshakeEnd::Failed(words@),
{
}

/// A profile, and each step on the way to its browser, is kept as it is.
pub proof fn a_search_is_kept_as_it_is(
    profile: BrowserProfile,
    patience: Patience,
    target: CdpTarget,
    error: ResolveError,
    probe: Probe,
    pause_secs: u64,
    ports: PortSearch,
    pages: PageSearch,
    url: String,
)
    ensures
        profile@.name == profile.name@,
        profile@.browser == profile.browser@,
        profile@.process_id == profile.process_id,
        ResolveStep::Probe(patience)@ == Resolving::Probe(patience),
        ResolveStep::Done(Ok(target))@ == Resolving::Done(Ok(target@)),
        ResolveStep::Done(Err(error))@ == Resolving::Done(Err(error@)),
        crate::discovery::last_probe(None) is None,
        crate::discovery::last_probe(Some(probe)) == Some(probe@),
        (ProbeStep::AskPort { pause_secs, search: ports })@ == (Probing::AskPort {
            pause_secs,
            search: ports@,
        }),
        (ProbeStep::Fetch { pause_secs, url, search: pages })@ == (Probing::Fetch {
            pause_secs,
            url: url@,
            search: pages@,
        }),
        ProbeStep::Done(probe)@ == Probing::Done(probe@),
{
}

/// A listing has an entry for each of its values, in the same order.
pub proof fn a_listing_is_kept_as_it_is(values: Vec<Value>)
    ensures
        crate::discovery::listed(None) is None,
        crate::discovery::listed(Some(values)) == Some(crate::json::json_list(values@)),
        crate::json::json_list(values@).len() == values@.len(),
        forall|i: int|
            0 <= i < values@.len() ==> #[trigger] crate::json::json_list(values@)[i]
                == crate::json::json_of(values@[i]),
{
}

/// A member is looked up by its key in an object, and in nothing else; and a
/// string member is one that is a string.
pub proof fn a_member_is_looked_up_by_its_key(
    members: Map<Seq<char>, Json>,
    key: Seq<char>,
    json: Json,
    text: Seq<char>,
)
    ensures
        members.dom().contains(key) ==> crate::json::member(Json::Object(members), key) == Some(
            members[key],
        ),
        !members.dom().contains(key) ==> crate::json::member(Json::Object(members), key) is None,
        !(json is Object) ==> crate::json::member(json, key) is None,
        crate::json::text_member(json, key) == Some(text) <==> crate::json::member(json, key)
            == Some(Json::Text(text)),
        crate::json::empty_object() == Json::Object(Map::<Seq<char>, Json>::empty()),
        crate::json::reads_as(text, json) <==> crate::json::parsed_json(text) == Ok::<
            Json,
            Seq<char>,
        >(json),
{
}

/// Text, integers that fit `u64`, `true`, `false` and null are shallow at any
/// depth. An array or an object is as deep as the deepest of what it holds, and
/// one more.
pub proof fn depth_is_counted_from_the_leaves(
    text: Seq<char>,
    number: u64,
    flag: bool,
    items: Seq<Json>,
    members: Map<Seq<char>, Json>,
    depth: nat,
)
    ensures
        crate::json::is_shallow(Json::Text(text), depth),
        crate::json::is_shallow(Json::Unsigned(number), depth),
        crate::json::is_shallow(Json::Bool(flag), depth),
        crate::json::is_shallow(Json::Null, depth),
        !crate::json::is_shallow(Json::OtherNumber(text), depth),
        !crate::json::is_shallow(Json::Array(items), 0),
        !crate::json::is_shallow(Json::Object(members), 0),
        crate::json::is_shallow(Json::Array(items), depth + 1) <==> (forall|i: int|
            0 <= i < items.len() ==> crate::json::is_shallow(#[trigger] items[i], depth)),
        crate::json::is_shallow(Json::Object(members), depth + 1) <==> (forall|key: Seq<char>|
            members.dom().contains(key) ==> crate::json::is_shallow(
                #[trigger] members[key],
                depth,
            )),
{
    let array = Json::Array(items);
    let object = Json::Object(members);
    if crate::json::is_shallow(array, depth + 1) {
        assert forall|i: int| 0 <= i < items.len() implies crate::json::is_shallow(
            #[trigger] items[i],
            depth,
        ) by {
            assert(crate::json::is_shallow(array->Array_0[i], (depth + 1 - 1) as nat));
        }
    }
    if crate::json::is_shallow(object, depth + 1) {
        assert forall|key: Seq<char>| members.dom().contains(key) implies crate::json::is_shallow(
            #[trigger] members[key],
            depth,
        ) by {
            assert(crate::json::is_shallow(object->Object_0[key], (depth + 1 - 1) as nat));
        }
    }
}

} // verus!
