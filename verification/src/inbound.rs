//! The inbound side of the HTTP server: what the propagation step reads from
//! Rocket's header map.

use crate::carrier::{text_of, HeaderCarrier};
use crate::propagation::{known_lines, traceparent_name, tracestate_name};
use vstd::prelude::*;

verus! {

/// The header map of an inbound Rocket request.
#[verifier::external_type_specification]
#[verifier::external_body]
pub struct ExInboundHeaders<'h>(rocket::http::HeaderMap<'h>);

/// What a header map answers to lookups: each name by which a lookup finds a
/// header, with the first value of that header.
pub uninterp spec fn first_values(map: rocket::http::HeaderMap<'_>) -> Map<Seq<char>, Seq<char>>;

/// The answer of a header map to a lookup by `name`.
pub open spec fn answer(map: rocket::http::HeaderMap<'_>, name: Seq<char>) -> Option<Seq<char>> {
    if first_values(map).contains_key(name) {
        Some(first_values(map)[name])
    } else {
        None
    }
}

/// `HeaderMap::get_one` of `rocket`: the first value under `name`, names
/// compared without regard to case. The claim is only that the result is the
/// map's answer to that lookup.
#[verifier::external_body]
pub(crate) fn lookup_one<'a>(map: &'a rocket::http::HeaderMap<'_>, name: &str) -> (r: Option<
    &'a str,
>)
    ensures
        text_of(r) == if first_values(*map).contains_key(name@) {
            Some(first_values(*map)[name@])
        } else {
            None
        },
{
    map.get_one(name)
}

/// Picks out of an inbound header map what the propagator is to read: the
/// first value of each known header, the identifier header first.
pub fn known_inbound(map: &rocket::http::HeaderMap<'_>) -> (r: HeaderCarrier)
    ensures
        r@ == known_lines(answer(*map, traceparent_name()), answer(*map, tracestate_name())),
{
    let mut known = HeaderCarrier::new();
    if let Some(v) = lookup_one(map, "traceparent") {
        known.append("traceparent", v.to_owned());
    }
    if let Some(v) = lookup_one(map, "tracestate") {
        known.append("tracestate", v.to_owned());
    }
    assert(known@ =~= known_lines(
        answer(*map, traceparent_name()),
        answer(*map, tracestate_name()),
    ));
    known
}

} // verus!
