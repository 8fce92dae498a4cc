//! Header names, header values and the header multi-map of the `http` crate,
//! with the model that the contracts of this crate speak of.
//!
//! A header map is modelled as a map from a header name (its bytes, in lower
//! case) to the values that the name has, in the order in which they were
//! added. The order among different names is no part of the model: the `http`
//! crate leaves it open.

use http::header::{
    HeaderMap, HeaderName, HeaderValue, InvalidHeaderName, InvalidHeaderValue, MaxSizeReached,
};
use vstd::prelude::*;
use vstd::string::StringSliceAdditionalSpecFns;

verus! {

/// `http::header::HeaderName`, a validated header name. Nothing inside it is
/// visible here; [`header_name_bytes`] stands for what it reads as.
#[verifier::external_type_specification]
#[verifier::external_body]
pub struct ExHeaderName(HeaderName);

/// `http::header::HeaderValue`, a validated header value. Nothing inside it
/// is visible here; [`header_value_bytes`] stands for its bytes.
#[verifier::external_type_specification]
#[verifier::external_body]
pub struct ExHeaderValue(HeaderValue);

/// `http::header::InvalidHeaderName`, the error of a refused name. It carries
/// nothing.
#[verifier::external_type_specification]
#[verifier::external_body]
pub struct ExInvalidHeaderName(InvalidHeaderName);

/// `http::header::InvalidHeaderValue`, the error of a refused value. It
/// carries nothing.
#[verifier::external_type_specification]
#[verifier::external_body]
pub struct ExInvalidHeaderValue(InvalidHeaderValue);

/// `http::header::MaxSizeReached`, the error of a header map that cannot
/// grow. It carries nothing.
#[verifier::external_type_specification]
#[verifier::external_body]
pub struct ExMaxSizeReached(MaxSizeReached);

/// `http::header::HeaderMap`, the multi-map of headers. Nothing inside it is
/// visible here; [`header_map_entries`] stands for what it holds.
#[verifier::external_type_specification]
#[verifier::external_body]
#[verifier::reject_recursive_types(T)]
pub struct ExHeaderMap<T>(HeaderMap<T>);

/// What a header map holds: each name with its values, oldest first.
pub type Entries = Map<Seq<u8>, Seq<Seq<u8>>>;

/// The longest header name that is accepted, in bytes.
pub const MAX_NAME_LEN: usize = 65535;

/// The number of slots that the table of a header map can have at most.
pub const MAX_SLOTS: usize = 32768;

/// A header map whose names, taken this many times, stay below
/// [`MAX_SLOTS`] never refuses another header.
pub const LOAD_FACTOR: usize = 5;

/// The bytes of a header name, as `HeaderName::as_str` gives them.
pub uninterp spec fn header_name_bytes(name: HeaderName) -> Seq<u8>;

/// The bytes of a header value, as `HeaderValue::as_bytes` gives them.
pub uninterp spec fn header_value_bytes(value: HeaderValue) -> Seq<u8>;

/// The contents of a header map: for each name that it holds, the values that
/// `HeaderMap::get_all` yields for that name, in that order.
pub uninterp spec fn header_map_entries(map: HeaderMap<HeaderValue>) -> Entries;

/// The bytes that may stand in a header name: letters, digits and
/// ``! # $ % & ' * + - . ^ _ ` | ~``.
pub open spec fn is_name_byte(b: u8) -> bool {
    ||| 0x30 <= b <= 0x39
    ||| 0x41 <= b <= 0x5a
    ||| 0x61 <= b <= 0x7a
    ||| b == 0x21
    ||| 0x23 <= b <= 0x27
    ||| b == 0x2a
    ||| b == 0x2b
    ||| b == 0x2d
    ||| b == 0x2e
    ||| b == 0x5e
    ||| b == 0x5f
    ||| b == 0x60
    ||| b == 0x7c
    ||| b == 0x7e
}

/// A header name is between 1 and [`MAX_NAME_LEN`] bytes, each of them one
/// that may stand in a name.
pub open spec fn is_header_name(bytes: Seq<u8>) -> bool {
    &&& 1 <= bytes.len() <= MAX_NAME_LEN
    &&& forall|i: int| 0 <= i < bytes.len() ==> is_name_byte(#[trigger] bytes[i])
}

/// An upper-case ASCII letter becomes its lower-case form; every other byte
/// stays.
pub open spec fn lower_byte(b: u8) -> u8 {
    if 0x41 <= b <= 0x5a {
        (b + 0x20) as u8
    } else {
        b
    }
}

/// The form under which a header map files a name: all in lower case.
pub open spec fn normalized_name(bytes: Seq<u8>) -> Seq<u8> {
    Seq::new(bytes.len(), |i: int| lower_byte(bytes[i]))
}

/// The bytes that may stand in a header value: the tab, and everything from
/// the space upwards but the delete character.
pub open spec fn is_value_byte(b: u8) -> bool {
    (b >= 0x20 && b != 0x7f) || b == 0x09
}

/// A header value is any run of bytes that may stand in one; it may be empty.
pub open spec fn is_header_value(bytes: Seq<u8>) -> bool {
    forall|i: int| 0 <= i < bytes.len() ==> is_value_byte(#[trigger] bytes[i])
}

/// The contents of a header map that holds nothing.
pub open spec fn no_entries() -> Entries {
    Map::empty()
}

/// The values that `entries` holds for `name`; none for an absent name.
pub open spec fn values_of(entries: Entries, name: Seq<u8>) -> Seq<Seq<u8>> {
    if entries.dom().contains(name) {
        entries[name]
    } else {
        Seq::empty()
    }
}

/// `entries` with `value` added behind the values that `name` already has.
pub open spec fn appended(entries: Entries, name: Seq<u8>, value: Seq<u8>) -> Entries {
    entries.insert(name, values_of(entries, name).push(value))
}

/// `entries` after each header of `items` was added in turn, the first one
/// first.
pub open spec fn appended_all(entries: Entries, items: Seq<(Seq<u8>, Seq<u8>)>) -> Entries
    decreases items.len(),
{
    if items.len() == 0 {
        entries
    } else {
        appended(appended_all(entries, items.drop_last()), items.last().0, items.last().1)
    }
}

/// The values that `items` gives for `name`, in the order of `items`.
pub open spec fn values_named(items: Seq<(Seq<u8>, Seq<u8>)>, name: Seq<u8>) -> Seq<Seq<u8>> {
    items.filter(|item: (Seq<u8>, Seq<u8>)| item.0 == name).map_values(
        |item: (Seq<u8>, Seq<u8>)| item.1,
    )
}

/// The names that occur in `items`.
pub open spec fn names_in(items: Seq<(Seq<u8>, Seq<u8>)>) -> Set<Seq<u8>> {
    items.map_values(|item: (Seq<u8>, Seq<u8>)| item.0).to_set()
}

/// What every header map keeps to: each of its names is a header name in
/// lower case and has at least one value, and each value is a header value.
pub open spec fn valid_entries(entries: Entries) -> bool {
    forall|name: Seq<u8>| #[trigger]
        entries.dom().contains(name) ==> {
            &&& is_header_name(name)
            &&& normalized_name(name) == name
            &&& entries[name].len() > 0
            &&& forall|i: int|
                0 <= i < entries[name].len() ==> is_header_value(#[trigger] entries[name][i])
        }
}

/// A header map with so few names that it takes another header whatever
/// state its table is in.
pub open spec fn has_room(entries: Entries) -> bool {
    &&& entries.dom().finite()
    &&& entries.dom().len() * LOAD_FACTOR < MAX_SLOTS
}

/// `HeaderName::try_from` on a string, which `http` defines as
/// `HeaderName::from_bytes` on the string's bytes.
///
/// Trusted: the name is accepted exactly when it has between 1 and 65535
/// bytes and each of them is in the table of name bytes; the accepted name
/// reads as the input in lower case.
#[verifier::external_body]
pub(crate) fn parse_header_name(key: &str) -> (r: Result<HeaderName, InvalidHeaderName>)
    ensures
        r is Ok <==> is_header_name(key.spec_bytes()),
        r matches Ok(name) ==> header_name_bytes(name) == normalized_name(key.spec_bytes()),
{
    HeaderName::try_from(key)
}

/// `HeaderValue::try_from` on a string, which `http` defines as
/// `HeaderValue::from_str`.
///
/// Trusted: the value is accepted exactly when each of its bytes is a tab, or
/// at least the space and not the delete character; the accepted value holds
/// the input's bytes unchanged.
#[verifier::external_body]
pub(crate) fn parse_header_value(value: &str) -> (r: Result<HeaderValue, InvalidHeaderValue>)
    ensures
        r is Ok <==> is_header_value(value.spec_bytes()),
        r matches Ok(v) ==> header_value_bytes(v) == value.spec_bytes(),
{
    HeaderValue::try_from(value)
}

/// `HeaderMap::new`.
///
/// Trusted: the new map holds nothing.
#[verifier::external_body]
pub(crate) fn new_header_map() -> (r: HeaderMap<HeaderValue>)
    ensures
        header_map_entries(r) == no_entries(),
{
    HeaderMap::new()
}

/// `HeaderMap::try_append`, the form of `HeaderMap::append` that reports a
/// map that cannot grow in place of panicking.
///
/// Trusted: on `Ok` the value stands behind the values that the name had, and
/// the flag says whether the name had any; on `Err` the map holds what it
/// held. As to when it is `Ok`: the map refuses only where its table would
/// have to grow beyond 32768 slots. The table grows when the names fill
/// three quarters of its slots, or, once many names have collided, when five
/// times the names reach the number of slots; so while five times the names
/// are fewer than 32768, the map does not refuse.
#[verifier::external_body]
pub(crate) fn try_append(
    map: &mut HeaderMap<HeaderValue>,
    name: HeaderName,
    value: HeaderValue,
) -> (r: Result<bool, MaxSizeReached>)
    ensures
        r matches Ok(had) ==> {
            &&& had == header_map_entries(*old(map)).dom().contains(header_name_bytes(name))
            &&& header_map_entries(*final(map)) == appended(
                header_map_entries(*old(map)),
                header_name_bytes(name),
                header_value_bytes(value),
            )
        },
        r is Err ==> header_map_entries(*final(map)) == header_map_entries(*old(map)),
        has_room(header_map_entries(*old(map))) ==> r is Ok,
{
    map.try_append(name, value)
}

/// Adding headers one after the other gives a map that holds exactly what
/// was there and what was added: a name has the values it had, followed by
/// the values added for it, in the order in which they were added, and no
/// value replaces another. The names are those that were there and those
/// that were added.
pub proof fn lemma_appended_all(entries: Entries, items: Seq<(Seq<u8>, Seq<u8>)>, name: Seq<u8>)
    ensures
        values_of(appended_all(entries, items), name) == values_of(entries, name) + values_named(
            items,
            name,
        ),
        appended_all(entries, items).dom() == entries.dom().union(names_in(items)),
    decreases items.len(),
{
    reveal(Seq::filter);
    if items.len() == 0 {
        assert(names_in(items) =~= Set::empty());
        assert(values_named(items, name) =~= Seq::empty());
    } else {
        let rest = items.drop_last();
        let last = items.last();
        lemma_appended_all(entries, rest, name);
        assert(values_named(items, name) =~= if last.0 == name {
            values_named(rest, name).push(last.1)
        } else {
            values_named(rest, name)
        });
        assert(names_in(items) =~= names_in(rest).insert(last.0)) by {
            let names = items.map_values(|item: (Seq<u8>, Seq<u8>)| item.0);
            assert(names.drop_last() =~= rest.map_values(|item: (Seq<u8>, Seq<u8>)| item.0));
            assert(names =~= names.drop_last().push(last.0));
            names.drop_last().lemma_push_to_set_commute(last.0);
        }
    }
}

/// A good header leaves a map of good entries as one: nothing that fails
/// validation gets into a header map by being added.
pub proof fn lemma_appended_valid(entries: Entries, key: Seq<u8>, value: Seq<u8>)
    requires
        valid_entries(entries),
        is_header_name(key),
        is_header_value(value),
    ensures
        valid_entries(appended(entries, normalized_name(key), value)),
{
    let name = normalized_name(key);
    assert(normalized_name(name) =~= name);
}

/// Each header that is added brings at most one new name, so a map with room
/// for `items.len()` more names has it for every header of `items`.
pub proof fn lemma_appended_all_names(entries: Entries, items: Seq<(Seq<u8>, Seq<u8>)>)
    requires
        entries.dom().finite(),
    ensures
        appended_all(entries, items).dom().finite(),
        appended_all(entries, items).dom().len() <= entries.dom().len() + items.len(),
    decreases items.len(),
{
    if items.len() > 0 {
        lemma_appended_all_names(entries, items.drop_last());
    }
}

} // verus!
