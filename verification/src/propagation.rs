//! Propagation of a trace context through a header carrier, in both
//! directions. The wire format is that of the W3C trace-context propagator;
//! this module decides what is handed to it and what is made of its answer.

use crate::carrier::{first_value, first_value_from, lemma_first_value_push, HeaderCarrier};
use crate::context::{ContextModel, TraceContext};
use crate::inbound::{answer, known_inbound};
use crate::span::{adopt_parent, ambient_span, span_context};
use opentelemetry::propagation::TextMapPropagator;
use opentelemetry::trace::{SpanContext, SpanId, TraceContextExt, TraceFlags, TraceId, TraceState};
use opentelemetry::Context;
use opentelemetry_sdk::propagation::TraceContextPropagator;
use std::collections::HashMap;
use std::str::FromStr;
use vstd::prelude::*;

verus! {

/// The name of the header that carries the identifiers.
pub open spec fn traceparent_name() -> Seq<char> {
    "traceparent"@
}

/// The name of the header that carries the vendor state.
pub open spec fn tracestate_name() -> Seq<char> {
    "tracestate"@
}

/// The value that the propagator writes under `name` for `ctx`, if it writes one.
pub uninterp spec fn wire_header(ctx: ContextModel, name: Seq<char>) -> Option<Seq<char>>;

/// The context that the propagator reads out of `lines`.
pub uninterp spec fn wire_decode(lines: Seq<(Seq<char>, Seq<char>)>) -> ContextModel;

/// The lines that are handed to the propagator: the two headers it knows, each
/// only if present.
pub open spec fn known_lines(parent: Option<Seq<char>>, state: Option<Seq<char>>) -> Seq<
    (Seq<char>, Seq<char>),
> {
    let first = match parent {
        Some(v) => seq![(traceparent_name(), v)],
        None => Seq::<(Seq<char>, Seq<char>)>::empty(),
    };
    match state {
        Some(v) => first.push((tracestate_name(), v)),
        None => first,
    }
}

/// `text`, read back as the identifier header, gives `trace_id` and `span_id`,
/// whatever vendor state stands beside it.
pub open spec fn carries(text: Seq<char>, trace_id: u128, span_id: u64) -> bool {
    forall|state: Option<Seq<char>>|
        {
            let read = #[trigger] wire_decode(known_lines(Some(text), state));
            read.trace_id == trace_id && read.span_id == span_id
        }
}

/// What is made of the propagator's answer: a context that names no trace
/// counts as "no parent".
pub open spec fn settled(read: ContextModel) -> ContextModel {
    if read.is_valid() {
        read
    } else {
        ContextModel::root()
    }
}

/// The context that `extract` recovers from a carrier's lines.
pub open spec fn extracted(lines: Seq<(Seq<char>, Seq<char>)>) -> ContextModel {
    settled(
        wire_decode(
            known_lines(
                first_value(lines, traceparent_name()),
                first_value(lines, tracestate_name()),
            ),
        ),
    )
}

/// The parent context of an inbound request: what the propagator reads out of
/// the header map's answers for the two known headers, settled.
pub open spec fn inbound_parent(map: rocket::http::HeaderMap<'_>) -> ContextModel {
    settled(
        wire_decode(known_lines(answer(map, traceparent_name()), answer(map, tracestate_name()))),
    )
}

/// The view of an optional owned string.
pub open spec fn owned_text(s: Option<String>) -> Option<Seq<char>> {
    match s {
        Some(t) => Some(t@),
        None => None,
    }
}

/// The lines of a carrier after `inject`: a context that names a trace adds
/// the headers that the propagator writes for it, any other adds nothing.
pub open spec fn injected(ctx: ContextModel, lines: Seq<(Seq<char>, Seq<char>)>) -> Seq<
    (Seq<char>, Seq<char>),
> {
    if ctx.is_valid() {
        lines + known_lines(
            wire_header(ctx, traceparent_name()),
            wire_header(ctx, tracestate_name()),
        )
    } else {
        lines
    }
}

/// The two header names differ.
pub proof fn lemma_names_differ()
    ensures
        traceparent_name() != tracestate_name(),
{
    reveal_strlit("traceparent");
    reveal_strlit("tracestate");
    assert(traceparent_name().len() == 11);
    assert(tracestate_name().len() == 10);
}

/// Lines without an identifier header have no first value for its name.
pub proof fn lemma_no_parent_line(state: Option<Seq<char>>)
    ensures
        first_value(known_lines(None, state), traceparent_name()) is None,
{
    lemma_names_differ();
    reveal_with_fuel(first_value_from, 3);
}

/// `TraceContextPropagator::inject_context` of `opentelemetry_sdk`, on a span
/// context built from `ctx` and into an empty map; the result is what the map
/// then holds under `name`. Trusted: the result is a function of the
/// arguments; for a context that names a trace both known headers are
/// written; and the identifier header, read back by the same propagator,
/// gives the identifiers that went in.
#[verifier::external_body]
pub(crate) fn encode_header(ctx: &TraceContext, name: &str) -> (r: Option<String>)
    ensures
        match r {
            Some(v) => wire_header(ctx@, name@) == Some(v@),
            None => wire_header(ctx@, name@) is None,
        },
        ctx@.is_valid() && (name@ == traceparent_name() || name@ == tracestate_name())
            ==> r is Some,
        ctx@.is_valid() && name@ == traceparent_name() ==> r is Some && carries(
            r->Some_0@,
            ctx@.trace_id,
            ctx@.span_id,
        ),
{
    let state = TraceState::from_str(ctx.state.as_str());
    let sc = SpanContext::new(
        TraceId::from_bytes(ctx.trace_id.to_be_bytes()),
        SpanId::from_bytes(ctx.span_id.to_be_bytes()),
        TraceFlags::new(ctx.flags),
        ctx.remote,
        state.unwrap_or_default(),
    );
    let cx = Context::new().with_remote_span_context(sc);
    let mut map: HashMap<String, String> = HashMap::new();
    TraceContextPropagator::new().inject_context(&cx, &mut map);
    map.remove(name)
}

/// `TraceContextPropagator::extract_with_context` of `opentelemetry_sdk`, on
/// an empty context and on a map made of `lines`; the result is the span
/// context of what comes back. Trusted: the result is a function of the
/// lines, and without an identifier header it names no trace.
#[verifier::external_body]
pub(crate) fn decode_lines(lines: &HeaderCarrier) -> (r: TraceContext)
    ensures
        r@ == wire_decode(lines@),
        first_value(lines@, traceparent_name()) is None ==> !r@.is_valid(),
{
    let map: HashMap<String, String> =
        lines.entries.iter().map(|h| (h.name.clone(), h.value.clone())).collect();
    let cx = TraceContextPropagator::new().extract_with_context(&Context::new(), &map);
    let sc = cx.span().span_context().clone();
    TraceContext {
        trace_id: u128::from_be_bytes(sc.trace_id().to_bytes()),
        span_id: u64::from_be_bytes(sc.span_id().to_bytes()),
        flags: sc.trace_flags().to_u8(),
        state: sc.trace_state().header(),
        remote: sc.is_remote(),
    }
}

/// Turns what the propagator read into the parent context: the context itself
/// if it names a trace, else "no parent".
pub fn context_from_decoded(read: TraceContext) -> (r: TraceContext)
    ensures
        r@ == settled(read@),
{
    if read.is_valid() {
        read
    } else {
        TraceContext::root()
    }
}

/// Picks out of a carrier what the propagator is to read: the first line of
/// each known header, the identifier header first.
pub fn known_headers(carrier: &HeaderCarrier) -> (r: HeaderCarrier)
    ensures
        r@ == known_lines(
            first_value(carrier@, traceparent_name()),
            first_value(carrier@, tracestate_name()),
        ),
{
    let mut known = HeaderCarrier::new();
    if let Some(v) = carrier.get_one("traceparent") {
        known.append("traceparent", v.to_owned());
    }
    if let Some(v) = carrier.get_one("tracestate") {
        known.append("tracestate", v.to_owned());
    }
    assert(known@ =~= known_lines(
        first_value(carrier@, traceparent_name()),
        first_value(carrier@, tracestate_name()),
    ));
    known
}

/// Appends the known headers that are present to a carrier, the identifier
/// header first.
pub fn write_known(carrier: &mut HeaderCarrier, parent: Option<String>, state: Option<String>)
    ensures
        final(carrier)@ == old(carrier)@ + known_lines(owned_text(parent), owned_text(state)),
{
    if let Some(v) = parent {
        carrier.append("traceparent", v);
    }
    if let Some(v) = state {
        carrier.append("tracestate", v);
    }
    assert(carrier@ =~= old(carrier)@ + known_lines(owned_text(parent), owned_text(state)));
}

/// Recovers the parent context from a carrier. Only the first line of each
/// known header counts. Never fails: absent or malformed headers give "no
/// parent".
pub fn extract(carrier: &HeaderCarrier) -> (r: TraceContext)
    ensures
        r@ == extracted(carrier@),
        first_value(carrier@, traceparent_name()) is None ==> r@ == ContextModel::root(),
{
    let known = known_headers(carrier);
    proof {
        lemma_no_parent_line(first_value(carrier@, tracestate_name()));
    }
    let read = decode_lines(&known);
    context_from_decoded(read)
}

/// Writes `ctx` into `carrier`. A context that names no trace writes
/// nothing; any other appends the identifier header and then the vendor-state
/// header. The carrier is only appended to. Into a carrier without an
/// identifier header, what was written reads back with the same identifiers.
pub fn inject(ctx: &TraceContext, carrier: &mut HeaderCarrier)
    ensures
        final(carrier)@ == injected(ctx@, old(carrier)@),
        !ctx@.is_valid() ==> final(carrier)@ == old(carrier)@,
        ctx@.is_valid() ==> final(carrier)@.len() == old(carrier)@.len() + 2
            && final(carrier)@.subrange(0, old(carrier)@.len() as int) == old(carrier)@
            && final(carrier)@[old(carrier)@.len() as int].0 == traceparent_name()
            && final(carrier)@[old(carrier)@.len() as int + 1].0 == tracestate_name(),
        ctx@.is_valid() && first_value(old(carrier)@, traceparent_name()) is None ==> {
            &&& extracted(final(carrier)@).trace_id == ctx@.trace_id
            &&& extracted(final(carrier)@).span_id == ctx@.span_id
        },
{
    if !ctx.is_valid() {
        return ;
    }
    let parent = encode_header(ctx, "traceparent");
    let state = encode_header(ctx, "tracestate");
    write_known(carrier, parent, state);
    proof {
        let before = old(carrier)@;
        let text = wire_header(ctx@, traceparent_name())->Some_0;
        let first = (traceparent_name(), text);
        let second = (tracestate_name(), wire_header(ctx@, tracestate_name())->Some_0);
        assert(carrier@ =~= before.push(first).push(second));
        assert(carrier@.subrange(0, before.len() as int) =~= before);
        if first_value(before, traceparent_name()) is None {
            lemma_first_value_push(before, first, traceparent_name(), 0);
            lemma_first_value_push(before.push(first), second, traceparent_name(), 0);
            let read = wire_decode(
                known_lines(Some(text), first_value(carrier@, tracestate_name())),
            );
            assert(read.trace_id == ctx@.trace_id && read.span_id == ctx@.span_id);
        }
    }
}

/// Hands the parent context found in the inbound `header_map` to `span`, and
/// returns it; without an identifier header that is "no parent". The tracing
/// runtime may not take it (a span that has started keeps its parent); the
/// request goes on either way.
pub fn extract_from_header_map(header_map: &rocket::http::HeaderMap<'_>, span: &mut tracing::Span)
    -> (parent: TraceContext)
    ensures
        parent@ == inbound_parent(*header_map),
        answer(*header_map, traceparent_name()) is None ==> parent@ == ContextModel::root(),
        *final(span) == *old(span),
{
    let known = known_inbound(header_map);
    proof {
        lemma_no_parent_line(answer(*header_map, tracestate_name()));
    }
    let parent = context_from_decoded(decode_lines(&known));
    let _taken = adopt_parent(span, &parent);
    parent
}

/// The headers for an outbound request made from within the calling task's
/// current span: a fresh carrier into which that span's context was injected.
pub fn injecte_into_header_map() -> (r: HeaderCarrier)
    ensures
        exists|ctx: ContextModel| r@ == #[trigger] injected(ctx, Seq::empty()),
{
    let span = ambient_span();
    let ctx = span_context(&span);
    let mut header_map = HeaderCarrier::new();
    inject(&ctx, &mut header_map);
    header_map
}

} // verus!
