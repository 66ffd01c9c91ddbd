//! What the library asks of the tracing runtime's span handle.

use crate::context::TraceContext;
use opentelemetry::trace::{SpanContext, SpanId, TraceContextExt, TraceFlags, TraceId, TraceState};
use opentelemetry::Context;
use std::str::FromStr;
use tracing_opentelemetry::OpenTelemetrySpanExt;
use vstd::prelude::*;

verus! {

/// The span handle of the `tracing` crate. The library carries it and never
/// looks inside.
#[verifier::external_type_specification]
#[verifier::external_body]
pub struct ExSpan(tracing::Span);

/// `tracing::Span::current`: the span that the calling task is in. Which one
/// that is depends on the task, so nothing is claimed of it.
#[verifier::external_body]
pub(crate) fn ambient_span() -> (r: tracing::Span) {
    tracing::Span::current()
}

/// `Clone` on `tracing::Span`: another handle to the same span. The claim is
/// only that the result is a clone of the argument.
#[verifier::external_body]
pub(crate) fn duplicate(span: &tracing::Span) -> (r: tracing::Span)
    ensures
        cloned(*span, r),
{
    span.clone()
}

/// `OpenTelemetrySpanExt::context` of `tracing_opentelemetry`, read out as
/// plain values. What it gives depends on the subscriber that is installed,
/// so nothing is claimed of it.
#[verifier::external_body]
pub(crate) fn span_context(span: &tracing::Span) -> (r: TraceContext) {
    let cx = span.context();
    let sc = cx.span().span_context().clone();
    TraceContext {
        trace_id: u128::from_be_bytes(sc.trace_id().to_bytes()),
        span_id: u64::from_be_bytes(sc.span_id().to_bytes()),
        flags: sc.trace_flags().to_u8(),
        state: sc.trace_state().header(),
        remote: sc.is_remote(),
    }
}

/// `OpenTelemetrySpanExt::set_parent` of `tracing_opentelemetry`, with the
/// parent handed over as a remote span context. The result says whether the
/// runtime took the parent; it may refuse, so nothing is claimed of it.
#[verifier::external_body]
pub(crate) fn adopt_parent(span: &tracing::Span, parent: &TraceContext) -> (taken: bool) {
    let state = TraceState::from_str(parent.state.as_str());
    let sc = SpanContext::new(
        TraceId::from_bytes(parent.trace_id.to_be_bytes()),
        SpanId::from_bytes(parent.span_id.to_be_bytes()),
        TraceFlags::new(parent.flags),
        parent.remote,
        state.unwrap_or_default(),
    );
    span.set_parent(Context::new().with_remote_span_context(sc)).is_ok()
}

/// The scope of an entered span, of the `tracing` crate. The library carries
/// it from entering to leaving.
#[verifier::external_type_specification]
#[verifier::external_body]
pub struct ExEnteredSpan(tracing::span::EnteredSpan);

/// `tracing::Span::entered`: enters the span and hands back its scope.
#[verifier::external_body]
pub(crate) fn enter_scope(span: tracing::Span) -> (scope: tracing::span::EnteredSpan) {
    span.entered()
}

/// `tracing::Span::record`, on the span whose scope this is: gives the field
/// called `field` the value `value`. A span without such a field ignores it.
#[verifier::external_body]
pub(crate) fn record_field(scope: &tracing::span::EnteredSpan, field: &str, value: u16) {
    scope.record(field, value);
}

/// Dropping a `tracing::span::EnteredSpan`: leaves the scope and gives up
/// the handle that it held.
#[verifier::external_body]
pub(crate) fn leave_scope(scope: tracing::span::EnteredSpan) {
    drop(scope);
}

} // verus!
