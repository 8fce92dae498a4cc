//! What holds of a whole chain of configuration calls, whatever its length.
//!
//! A chain is given by the calls that were made and by the outcome that the
//! builder held before the first call and after each of them.

use crate::body::Body;
use crate::builder::{
    header_step, resolved, with_body, with_cache_mode, with_fetch_mode, Dispatch, Outcome,
};
use crate::error::Error;
use crate::header::{
    appended_all, has_room, header_map_entries, is_header_name, is_header_value,
    lemma_appended_all, lemma_appended_all_names, lemma_appended_valid, names_in, normalized_name,
    valid_entries, values_named, values_of, LOAD_FACTOR, MAX_SLOTS,
};
use crate::request::Request;
use vstd::prelude::*;
use web_sys::{RequestCache, RequestMode};

verus! {

/// One configuration call on a builder, with its arguments.
pub enum Call {
    /// `body`, with the payload that its argument was converted to.
    Body(Body),
    /// `header`, with the bytes of the two strings.
    Header { key: Seq<u8>, value: Seq<u8> },
    /// `fetch_mode`.
    FetchMode(RequestMode),
    /// `cache_mode`.
    CacheMode(RequestCache),
}

/// Whether `call` on a builder that holds `before` may leave it holding
/// `after`: what the call's own contract says.
pub open spec fn call_step(before: Outcome, call: Call, after: Outcome) -> bool {
    match call {
        Call::Body(body) => after == with_body(before, body),
        Call::Header { key, value } => header_step(before, key, value, after),
        Call::FetchMode(mode) => after == with_fetch_mode(before, mode),
        Call::CacheMode(mode) => after == with_cache_mode(before, mode),
    }
}

/// `states[0]` is where the chain starts, and `states[i + 1]` is what
/// `calls[i]` made of `states[i]`.
pub open spec fn is_chain(states: Seq<Outcome>, calls: Seq<Call>) -> bool {
    &&& states.len() == calls.len() + 1
    &&& forall|i: int|
        0 <= i < calls.len() ==> call_step(states[i], #[trigger] calls[i], states[i + 1])
}

/// The headers that `calls` ask for, each under the form of its name that a
/// header map files it under, in the order of the calls.
pub open spec fn header_items(calls: Seq<Call>) -> Seq<(Seq<u8>, Seq<u8>)>
    decreases calls.len(),
{
    if calls.len() == 0 {
        Seq::empty()
    } else {
        let rest = header_items(calls.drop_last());
        match calls.last() {
            Call::Header { key, value } => rest.push((normalized_name(key), value)),
            _ => rest,
        }
    }
}

/// Every `header` call of `calls` brings a good name and a good value.
pub open spec fn asks_good_headers(calls: Seq<Call>) -> bool {
    forall|i: int|
        0 <= i < calls.len() ==> (#[trigger] calls[i] matches Call::Header { key, value }
            ==> is_header_name(key) && is_header_value(value))
}

/// The body after `calls`: that of the last `body` call, or `start` if there
/// was none.
pub open spec fn body_after(start: Option<Body>, calls: Seq<Call>) -> Option<Body>
    decreases calls.len(),
{
    if calls.len() == 0 {
        start
    } else {
        match calls.last() {
            Call::Body(body) => Some(body),
            _ => body_after(start, calls.drop_last()),
        }
    }
}

/// The fetch mode after `calls`: that of the last `fetch_mode` call, or
/// `start` if there was none.
pub open spec fn fetch_mode_after(start: Option<RequestMode>, calls: Seq<Call>) -> Option<
    RequestMode,
>
    decreases calls.len(),
{
    if calls.len() == 0 {
        start
    } else {
        match calls.last() {
            Call::FetchMode(mode) => Some(mode),
            _ => fetch_mode_after(start, calls.drop_last()),
        }
    }
}

/// The cache mode after `calls`: that of the last `cache_mode` call, or
/// `start` if there was none.
pub open spec fn cache_mode_after(start: Option<RequestCache>, calls: Seq<Call>) -> Option<
    RequestCache,
>
    decreases calls.len(),
{
    if calls.len() == 0 {
        start
    } else {
        match calls.last() {
            Call::CacheMode(mode) => Some(mode),
            _ => cache_mode_after(start, calls.drop_last()),
        }
    }
}

/// `last` is what `calls` configure when they start from `first` and none of
/// them fails.
pub open spec fn built(first: Request, calls: Seq<Call>, last: Request) -> bool {
    &&& last.method == first.method
    &&& last.url == first.url
    &&& header_map_entries(last.headers) == appended_all(
        header_map_entries(first.headers),
        header_items(calls),
    )
    &&& last.body == body_after(first.body, calls)
    &&& last.fetch_mode == fetch_mode_after(first.fetch_mode, calls)
    &&& last.cache_mode == cache_mode_after(first.cache_mode, calls)
}

/// A chain without its last call.
proof fn lemma_chain_prefix(states: Seq<Outcome>, calls: Seq<Call>)
    requires
        is_chain(states, calls),
        calls.len() > 0,
    ensures
        is_chain(states.drop_last(), calls.drop_last()),
        call_step(states[states.len() - 2], calls.last(), states.last()),
{
    let shorter = calls.drop_last();
    assert forall|i: int| 0 <= i < shorter.len() implies call_step(
        states.drop_last()[i],
        #[trigger] shorter[i],
        states.drop_last()[i + 1],
    ) by {
        assert(shorter[i] == calls[i]);
    }
}

/// Failure is final. Once a builder has failed, every further call leaves it
/// as it is, however many calls follow and whatever they ask for, and
/// resolving the chain gives the failure that was captured first.
pub proof fn lemma_failure_is_final<C>(client: C, states: Seq<Outcome>, calls: Seq<Call>, at: int)
    requires
        is_chain(states, calls),
        0 <= at < states.len(),
        states[at] is Err,
    ensures
        forall|j: int| at <= j < states.len() ==> states[j] == states[at],
        resolved(client, states.last()) == Err::<Dispatch<C>, Error>(states[at]->Err_0),
    decreases states.len() - at,
{
    if at + 1 < states.len() {
        assert(call_step(states[at], calls[at], states[at + 1]));
        lemma_failure_is_final(client, states, calls, at + 1);
    }
}

/// A chain that ends with a request never failed on the way, and every
/// header that it asked for was a good one. The request is then exactly what
/// the calls configured: the method and the URL that the chain started with,
/// the headers that were there with those that were added, in the order of
/// the calls, and the body and the modes that were set last.
pub proof fn lemma_valid_chain(states: Seq<Outcome>, calls: Seq<Call>)
    requires
        is_chain(states, calls),
        states.last() is Ok,
    ensures
        forall|i: int| 0 <= i < states.len() ==> (#[trigger] states[i]) is Ok,
        asks_good_headers(calls),
        built(states[0]->Ok_0, calls, states.last()->Ok_0),
    decreases calls.len(),
{
    if calls.len() > 0 {
        lemma_chain_prefix(states, calls);
        let before = states[states.len() - 2];
        assert(before == states.drop_last().last());
        lemma_valid_chain(states.drop_last(), calls.drop_last());
        assert forall|i: int| 0 <= i < states.len() implies (#[trigger] states[i]) is Ok by {
            if i < states.len() - 1 {
                assert(states.drop_last()[i] is Ok);
            }
        }
        assert forall|i: int| 0 <= i < calls.len() implies (#[trigger] calls[i] matches Call::Header {
            key,
            value,
        } ==> is_header_name(key) && is_header_value(value)) by {
            if i < calls.len() - 1 {
                assert(calls.drop_last()[i] == calls[i]);
            }
        }
        assert(states.drop_last()[0] == states[0]);
        if calls.last() is Header {
            assert(header_items(calls).drop_last() =~= header_items(calls.drop_last()));
        }
    }
}

/// The headers of a chain that never failed are exactly those that were
/// there and those that the calls added. For every name, the values are
/// those that the name had, followed by the values that the calls gave it, in
/// the order of the calls: a repeated name gathers values, and none replaces
/// another. No other name has come in.
pub proof fn lemma_valid_chain_headers(states: Seq<Outcome>, calls: Seq<Call>, name: Seq<u8>)
    requires
        is_chain(states, calls),
        states.last() is Ok,
    ensures
        values_of(header_map_entries(states.last()->Ok_0.headers), name) == values_of(
            header_map_entries(states[0]->Ok_0.headers),
            name,
        ) + values_named(header_items(calls), name),
        header_map_entries(states.last()->Ok_0.headers).dom() == header_map_entries(
            states[0]->Ok_0.headers,
        ).dom().union(names_in(header_items(calls))),
{
    lemma_valid_chain(states, calls);
    lemma_appended_all(header_map_entries(states[0]->Ok_0.headers), header_items(calls), name);
}

/// Resolving a chain that never failed hands over exactly the request that
/// was built, untouched, together with the client that the builder was made
/// with.
pub proof fn lemma_valid_chain_resolves<C>(client: C, states: Seq<Outcome>, calls: Seq<Call>)
    requires
        is_chain(states, calls),
        states.last() is Ok,
    ensures
        resolved(client, states.last()) == Ok::<Dispatch<C>, Error>(
            Dispatch { client, request: states.last()->Ok_0 },
        ),
        built(states[0]->Ok_0, calls, states.last()->Ok_0),
{
    lemma_valid_chain(states, calls);
}

/// No chain puts anything into the headers that fails validation: where the
/// request that a chain started with had good entries only, the request that
/// it ends with has good entries only.
pub proof fn lemma_chain_keeps_headers_valid(states: Seq<Outcome>, calls: Seq<Call>)
    requires
        is_chain(states, calls),
        states[0] matches Ok(first) && valid_entries(header_map_entries(first.headers)),
    ensures
        states.last() matches Ok(last) ==> valid_entries(header_map_entries(last.headers)),
    decreases calls.len(),
{
    if calls.len() > 0 && states.last() is Ok {
        lemma_chain_prefix(states, calls);
        lemma_valid_chain(states, calls);
        assert(states.drop_last()[0] == states[0]);
        let before = states[states.len() - 2];
        assert(before == states.drop_last().last());
        lemma_chain_keeps_headers_valid(states.drop_last(), calls.drop_last());
        assert(calls.last() == calls[calls.len() - 1]);
        match calls.last() {
            Call::Header { key, value } => {
                lemma_appended_valid(header_map_entries(before->Ok_0.headers), key, value);
            },
            _ => {},
        }
    }
}

/// Only a header can fail a chain, and a good header on a map with room does
/// not. A chain that starts with a request, and whose `header` calls all
/// bring a good name and a good value, ends with a request, provided that the
/// map has room before each header: that the names which the request had and
/// the headers that came before leave the map room. Calls that add no header
/// ask for nothing.
pub proof fn lemma_good_chain_succeeds(states: Seq<Outcome>, calls: Seq<Call>)
    requires
        is_chain(states, calls),
        states[0] is Ok,
        asks_good_headers(calls),
        header_items(calls).len() > 0 ==> {
            let names = header_map_entries(states[0]->Ok_0.headers).dom();
            names.finite() && (names.len() + header_items(calls).len() - 1) * LOAD_FACTOR
                < MAX_SLOTS
        },
    ensures
        states.last() is Ok,
    decreases calls.len(),
{
    if calls.len() > 0 {
        lemma_chain_prefix(states, calls);
        let shorter = calls.drop_last();
        assert(asks_good_headers(shorter)) by {
            assert forall|i: int| 0 <= i < shorter.len() implies (#[trigger] shorter[i] matches Call::Header {
                key,
                value,
            } ==> is_header_name(key) && is_header_value(value)) by {
                assert(shorter[i] == calls[i]);
            }
        }
        assert(states.drop_last()[0] == states[0]);
        assert(header_items(shorter).len() <= header_items(calls).len());
        lemma_good_chain_succeeds(states.drop_last(), shorter);
        let before = states[states.len() - 2];
        assert(before == states.drop_last().last());
        lemma_valid_chain(states.drop_last(), shorter);
        assert(calls.last() == calls[calls.len() - 1]);
        if calls.last() is Header {
            let first = header_map_entries(states[0]->Ok_0.headers);
            lemma_appended_all_names(first, header_items(shorter));
            assert(header_items(calls).len() == header_items(shorter).len() + 1);
            assert(has_room(header_map_entries(before->Ok_0.headers)));
        }
    }
}

} // verus!
